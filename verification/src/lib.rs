//! Completion of partially typed import paths ("use trees").
//!
//! Given the syntactic shape of the path under the cursor and the semantic
//! information already resolved for its typed prefix, the library decides
//! which identifiers and which fixed path keywords are valid continuations
//! at the cursor, and pushes them into a [`completions::Completions`]
//! accumulator.

pub mod completions;
pub mod context;
pub mod use_tree;
