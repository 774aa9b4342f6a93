//! The data model of a completion request: the classified syntactic shape of
//! the partial import path and the semantic facts already resolved for it.
//!
//! Every value here is built fresh per request from an immutable snapshot of
//! the syntax tree and of the semantic database; nothing is mutated across
//! requests. Each type has a mathematical view (`@` / `deep_view`) that the
//! contracts of the resolver speak about.

use vstd::prelude::*;

verus! {

/// What a name visible in some scope refers to, as far as import-path
/// completion cares. `NotImportable` covers local bindings, generic
/// parameters and self-type references: entities that can never appear
/// after an import path.
#[derive(Clone, Copy, Debug, PartialEq, Eq, Structural)]
pub enum DefKind {
    /// A module; `is_compilation_root` says whether it is the top-level
    /// module of a self-contained compilation unit.
    Module { is_compilation_root: bool },
    /// Any other item that may stand in an import path (a type, a function,
    /// a constant, ...).
    ImportableItem,
    /// A macro.
    Macro,
    /// A name the semantic database has not (yet) bound to an entity.
    Unresolved,
    /// An entity that can never be named by an import path.
    NotImportable,
}

/// One entry of a scope enumeration: a visible name together with what it
/// refers to.
#[derive(Debug, PartialEq, Eq)]
pub struct ScopeEntry {
    pub name: String,
    pub kind: DefKind,
}

/// Mathematical view of a [`ScopeEntry`].
#[verifier::ext_equal]
pub struct ScopeEntryView {
    pub name: Seq<char>,
    pub kind: DefKind,
}

impl View for ScopeEntry {
    type V = ScopeEntryView;

    open spec fn view(&self) -> ScopeEntryView {
        ScopeEntryView { name: self.name@, kind: self.kind }
    }
}

impl DeepView for ScopeEntry {
    type V = ScopeEntryView;

    open spec fn deep_view(&self) -> ScopeEntryView {
        self.view()
    }
}

impl Clone for ScopeEntry {
    fn clone(&self) -> (r: Self)
        ensures
            r == *self,
    {
        ScopeEntry { name: self.name.clone(), kind: self.kind }
    }
}

/// One already-typed segment of the partial path: a plain name or one of
/// the structural path keywords.
#[derive(Debug, PartialEq, Eq)]
pub enum PathSegment {
    Ident(String),
    SelfKw,
    SuperKw,
    CrateKw,
}

/// Mathematical view of a [`PathSegment`].
pub enum PathSegmentView {
    Ident(Seq<char>),
    SelfKw,
    SuperKw,
    CrateKw,
}

impl View for PathSegment {
    type V = PathSegmentView;

    open spec fn view(&self) -> PathSegmentView {
        match self {
            PathSegment::Ident(name) => PathSegmentView::Ident(name@),
            PathSegment::SelfKw => PathSegmentView::SelfKw,
            PathSegment::SuperKw => PathSegmentView::SuperKw,
            PathSegment::CrateKw => PathSegmentView::CrateKw,
        }
    }
}

impl DeepView for PathSegment {
    type V = PathSegmentView;

    open spec fn deep_view(&self) -> PathSegmentView {
        self.view()
    }
}

/// The semantic entity the semantic database bound the typed prefix to,
/// carrying the facts the resolver reads from it: a module together with
/// its enumerated scope, an enum type together with its variant names, or
/// any other entity (which can host no further import segment).
#[derive(Debug)]
pub enum ResolvedEntity {
    /// A module; the payload is the module's scope as the semantic
    /// database enumerates it: every binding visible from the current
    /// position.
    Module(Vec<ScopeEntry>),
    /// An enum type; the payload is its variant names.
    EnumType(Vec<String>),
    /// Any entity that cannot host a further import segment (a function,
    /// a constant, a non-enum type, ...).
    Other,
}

/// Mathematical view of a [`ResolvedEntity`].
pub enum ResolvedEntityView {
    Module(Seq<ScopeEntryView>),
    EnumType(Seq<Seq<char>>),
    Other,
}

impl View for ResolvedEntity {
    type V = ResolvedEntityView;

    open spec fn view(&self) -> ResolvedEntityView {
        match self {
            ResolvedEntity::Module(scope) => ResolvedEntityView::Module(scope.deep_view()),
            ResolvedEntity::EnumType(variants) => ResolvedEntityView::EnumType(
                variants.deep_view(),
            ),
            ResolvedEntity::Other => ResolvedEntityView::Other,
        }
    }
}

impl DeepView for ResolvedEntity {
    type V = ResolvedEntityView;

    open spec fn deep_view(&self) -> ResolvedEntityView {
        self.view()
    }
}

/// The already-typed prefix of the partial path, together with the entity
/// the semantic database bound it to. `resolution` is `None` while the
/// prefix is itself invalid or still being typed; that is a normal state,
/// not an error.
#[derive(Debug)]
pub struct Qualifier {
    /// The typed prefix segments, in source order.
    pub segments: Vec<PathSegment>,
    /// What the prefix resolved to, if the database could bind it.
    pub resolution: Option<ResolvedEntity>,
}

/// Mathematical view of a [`Qualifier`].
#[verifier::ext_equal]
pub struct QualifierView {
    pub segments: Seq<PathSegmentView>,
    pub resolution: Option<ResolvedEntityView>,
}

impl View for Qualifier {
    type V = QualifierView;

    open spec fn view(&self) -> QualifierView {
        QualifierView {
            segments: self.segments.deep_view(),
            resolution: self.resolution.deep_view(),
        }
    }
}

impl DeepView for Qualifier {
    type V = QualifierView;

    open spec fn deep_view(&self) -> QualifierView {
        self.view()
    }
}

/// What sort of path the cursor sits in. Import-path completion only acts
/// on `Use`; every other path position belongs to a sibling component.
#[derive(Clone, Copy, Debug, PartialEq, Eq, Structural)]
pub enum PathKind {
    Use,
    Other,
}

/// The classified syntactic context of the path under the cursor.
#[derive(Debug)]
pub struct PathCompletionContext {
    /// What sort of path this is, if that could be determined.
    pub kind: Option<PathKind>,
    /// True when nothing precedes the cursor segment: no qualifier and no
    /// leading separator.
    pub is_trivial_path: bool,
    /// True when the path lives inside a brace-grouped sub-tree of an
    /// existing import statement, so `self`-relative completions are
    /// meaningful.
    pub use_tree_parent: bool,
    /// The typed prefix, if one precedes the cursor.
    pub qualifier: Option<Qualifier>,
}

/// Mathematical view of a [`PathCompletionContext`].
#[verifier::ext_equal]
pub struct PathCompletionContextView {
    pub kind: Option<PathKind>,
    pub is_trivial_path: bool,
    pub use_tree_parent: bool,
    pub qualifier: Option<QualifierView>,
}

impl View for PathCompletionContext {
    type V = PathCompletionContextView;

    open spec fn view(&self) -> PathCompletionContextView {
        PathCompletionContextView {
            kind: self.kind,
            is_trivial_path: self.is_trivial_path,
            use_tree_parent: self.use_tree_parent,
            qualifier: self.qualifier.deep_view(),
        }
    }
}

impl DeepView for PathCompletionContext {
    type V = PathCompletionContextView;

    open spec fn deep_view(&self) -> PathCompletionContextView {
        self.view()
    }
}

/// Everything one completion request supplies to the resolver: the
/// classified path context, the identifier fragment already typed at the
/// cursor (if it is a plain name reference), and the snapshot of the
/// semantic database's global enumeration of visible names.
#[derive(Debug)]
pub struct CompletionContext {
    /// The classified path context; `None` when the cursor is not inside
    /// a path at all.
    pub path_context: Option<PathCompletionContext>,
    /// The identifier fragment under the cursor, used only for the
    /// self-reference-exclusion rule.
    pub current_typed_name: Option<String>,
    /// The global enumeration of visible names, one snapshot per request.
    pub global_scope: Vec<ScopeEntry>,
}

/// Mathematical view of a [`CompletionContext`].
#[verifier::ext_equal]
pub struct CompletionContextView {
    pub path_context: Option<PathCompletionContextView>,
    pub current_typed_name: Option<Seq<char>>,
    pub global_scope: Seq<ScopeEntryView>,
}

impl View for CompletionContext {
    type V = CompletionContextView;

    open spec fn view(&self) -> CompletionContextView {
        CompletionContextView {
            path_context: self.path_context.deep_view(),
            current_typed_name: self.current_typed_name.deep_view(),
            global_scope: self.global_scope.deep_view(),
        }
    }
}

} // verus!
