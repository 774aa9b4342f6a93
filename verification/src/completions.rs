//! The candidate accumulator: the one value the resolver writes to.
//!
//! It records, in emission order, the item candidates, the enum-variant
//! candidates and the fixed keyword literals proposed as continuations of
//! the partial path. Deduplication and ranking are the caller's business;
//! the accumulator only appends.

use vstd::prelude::*;
use vstd::string::StringExecFns;

use crate::context::{ScopeEntry, ScopeEntryView};

verus! {

/// The candidates collected for one completion request.
#[derive(Debug, PartialEq, Eq)]
pub struct Completions {
    /// Fixed keyword literals such as `"super::"` or `"self"`.
    pub keywords: Vec<String>,
    /// `(name, kind)` item candidates.
    pub items: Vec<ScopeEntry>,
    /// Enum-variant candidates, by variant name.
    pub variants: Vec<String>,
}

/// Mathematical view of a [`Completions`] value.
#[verifier::ext_equal]
pub struct CompletionsView {
    pub keywords: Seq<Seq<char>>,
    pub items: Seq<ScopeEntryView>,
    pub variants: Seq<Seq<char>>,
}

impl View for Completions {
    type V = CompletionsView;

    open spec fn view(&self) -> CompletionsView {
        CompletionsView {
            keywords: self.keywords.deep_view(),
            items: self.items.deep_view(),
            variants: self.variants.deep_view(),
        }
    }
}

impl Completions {
    /// An empty accumulator.
    pub fn new() -> (r: Completions)
        ensures
            r@.keywords == Seq::<Seq<char>>::empty(),
            r@.items == Seq::<ScopeEntryView>::empty(),
            r@.variants == Seq::<Seq<char>>::empty(),
    {
        let r = Completions { keywords: Vec::new(), items: Vec::new(), variants: Vec::new() };
        proof {
            assert(r@.keywords =~= Seq::<Seq<char>>::empty());
            assert(r@.items =~= Seq::<ScopeEntryView>::empty());
            assert(r@.variants =~= Seq::<Seq<char>>::empty());
        }
        r
    }

    /// Record a fixed keyword literal as a candidate.
    pub fn add_keyword(&mut self, kw: &str)
        ensures
            final(self)@.keywords == old(self)@.keywords.push(kw@),
            final(self)@.items == old(self)@.items,
            final(self)@.variants == old(self)@.variants,
    {
        self.keywords.push(String::from_str(kw));
        proof {
            assert(self@.keywords =~= old(self)@.keywords.push(kw@));
            assert(self@.items =~= old(self)@.items);
            assert(self@.variants =~= old(self)@.variants);
        }
    }

    /// Record a `(name, kind)` item candidate.
    pub fn add_resolution(&mut self, entry: ScopeEntry)
        ensures
            final(self)@.keywords == old(self)@.keywords,
            final(self)@.items == old(self)@.items.push(entry@),
            final(self)@.variants == old(self)@.variants,
    {
        self.items.push(entry);
        proof {
            assert(self@.keywords =~= old(self)@.keywords);
            assert(self@.items =~= old(self)@.items.push(entry@));
            assert(self@.variants =~= old(self)@.variants);
        }
    }

    /// Record an enum variant as a candidate.
    pub fn add_enum_variant(&mut self, variant: String)
        ensures
            final(self)@.keywords == old(self)@.keywords,
            final(self)@.items == old(self)@.items,
            final(self)@.variants == old(self)@.variants.push(variant@),
    {
        self.variants.push(variant);
        proof {
            assert(self@.keywords =~= old(self)@.keywords);
            assert(self@.items =~= old(self)@.items);
            assert(self@.variants =~= old(self)@.variants.push(variant@));
        }
    }
}

} // verus!
