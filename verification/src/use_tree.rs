//! The import-path completion resolver.
//!
//! [`complete_use_tree`] classifies the syntactic shape of the partial
//! path (qualified, fresh with a leading separator, or fresh and plain),
//! resolves the already-typed qualifier if one is present, and appends the
//! admissible next-segment candidates to the accumulator. The spec
//! functions in this module state, for every shape, exactly which
//! candidates are emitted.

use vstd::prelude::*;

use crate::completions::{Completions, CompletionsView};
use crate::context::{
    CompletionContext, CompletionContextView, DefKind, PathCompletionContextView, PathKind,
    PathSegment, PathSegmentView, QualifierView, ResolvedEntity, ResolvedEntityView, ScopeEntry,
    ScopeEntryView,
};

verus! {

/// Whether a module-scope entry is admitted as an item candidate while a
/// module qualifier is being completed. Entries the database could not
/// bind are admitted unless they carry the very name being typed at the
/// cursor (the self-reference-exclusion rule); entries that can never
/// stand in an import path are rejected.
pub open spec fn entry_admitted_in_module(
    e: ScopeEntryView,
    current_typed_name: Option<Seq<char>>,
) -> bool {
    match e.kind {
        DefKind::Module { is_compilation_root: _ } => true,
        DefKind::ImportableItem => true,
        DefKind::Macro => true,
        DefKind::Unresolved => current_typed_name != Some(e.name),
        DefKind::NotImportable => false,
    }
}

/// The item candidates emitted for a qualifier resolving to a module with
/// the given scope: the scope filtered by [`entry_admitted_in_module`],
/// in enumeration order.
pub open spec fn module_item_candidates(
    scope: Seq<ScopeEntryView>,
    current_typed_name: Option<Seq<char>>,
) -> Seq<ScopeEntryView> {
    scope.filter(|e: ScopeEntryView| entry_admitted_in_module(e, current_typed_name))
}

/// Whether a globally visible entry is a module.
pub open spec fn entry_is_module(e: ScopeEntryView) -> bool {
    e.kind is Module
}

/// Whether a globally visible entry is a compilation-root module.
pub open spec fn entry_is_root_module(e: ScopeEntryView) -> bool {
    e.kind == (DefKind::Module { is_compilation_root: true })
}

/// The item candidates emitted for a fresh plain path: every module in
/// the global enumeration, at any nesting depth.
pub open spec fn global_module_candidates(global: Seq<ScopeEntryView>) -> Seq<ScopeEntryView> {
    global.filter(|e: ScopeEntryView| entry_is_module(e))
}

/// The item candidates emitted for a fresh path with a leading separator:
/// only the compilation-root modules of the global enumeration.
pub open spec fn global_root_module_candidates(
    global: Seq<ScopeEntryView>,
) -> Seq<ScopeEntryView> {
    global.filter(|e: ScopeEntryView| entry_is_root_module(e))
}

/// Whether the typed prefix consists solely of the parent-scope keyword,
/// at every segment (a "super-chain"). An empty prefix is no chain.
pub open spec fn is_super_chain(segments: Seq<PathSegmentView>) -> bool {
    segments.len() > 0 && (forall|i: int|
        0 <= i < segments.len() ==> segments[i] is SuperKw)
}

/// Whether the last typed segment of the prefix is the `self` keyword.
pub open spec fn last_segment_is_self(segments: Seq<PathSegmentView>) -> bool {
    segments.len() > 0 && segments.last() is SelfKw
}

/// The keywords injected in the qualified branch: `super::` when the
/// prefix is a super-chain, and `self` when the path lives in a nested
/// import sub-tree whose prefix does not already end in `self`. Both
/// rules are independent of what the qualifier resolved to.
pub open spec fn qualified_keywords(
    segments: Seq<PathSegmentView>,
    use_tree_parent: bool,
) -> Seq<Seq<char>> {
    (if is_super_chain(segments) {
        seq!["super::"@]
    } else {
        Seq::<Seq<char>>::empty()
    }) + (if use_tree_parent && !last_segment_is_self(segments) {
        seq!["self"@]
    } else {
        Seq::<Seq<char>>::empty()
    })
}

/// The keywords injected for a fresh plain path: the three root keywords.
pub open spec fn fresh_plain_keywords() -> Seq<Seq<char>> {
    seq!["self::"@, "super::"@, "crate::"@]
}

/// The keyword candidates [`complete_use_tree`] emits for a context.
pub open spec fn use_tree_keywords(ctx: CompletionContextView) -> Seq<Seq<char>> {
    match ctx.path_context {
        Some(pc) => if pc.kind == Some(PathKind::Use) {
            match pc.qualifier {
                Some(q) => qualified_keywords(q.segments, pc.use_tree_parent),
                None => if pc.is_trivial_path {
                    fresh_plain_keywords()
                } else {
                    Seq::<Seq<char>>::empty()
                },
            }
        } else {
            Seq::<Seq<char>>::empty()
        },
        None => Seq::<Seq<char>>::empty(),
    }
}

/// The item candidates [`complete_use_tree`] emits for a context.
pub open spec fn use_tree_items(ctx: CompletionContextView) -> Seq<ScopeEntryView> {
    match ctx.path_context {
        Some(pc) => if pc.kind == Some(PathKind::Use) {
            match pc.qualifier {
                Some(q) => match q.resolution {
                    Some(ResolvedEntityView::Module(scope)) => module_item_candidates(
                        scope,
                        ctx.current_typed_name,
                    ),
                    Some(ResolvedEntityView::EnumType(_)) => Seq::<ScopeEntryView>::empty(),
                    Some(ResolvedEntityView::Other) => Seq::<ScopeEntryView>::empty(),
                    None => Seq::<ScopeEntryView>::empty(),
                },
                None => if pc.is_trivial_path {
                    global_module_candidates(ctx.global_scope)
                } else {
                    global_root_module_candidates(ctx.global_scope)
                },
            }
        } else {
            Seq::<ScopeEntryView>::empty()
        },
        None => Seq::<ScopeEntryView>::empty(),
    }
}

/// The enum-variant candidates [`complete_use_tree`] emits for a context:
/// exactly the qualifier's variants when it resolved to an enum type, and
/// nothing otherwise.
pub open spec fn use_tree_variants(ctx: CompletionContextView) -> Seq<Seq<char>> {
    match ctx.path_context {
        Some(pc) => if pc.kind == Some(PathKind::Use) {
            match pc.qualifier {
                Some(q) => match q.resolution {
                    Some(ResolvedEntityView::EnumType(variants)) => variants,
                    Some(ResolvedEntityView::Module(_)) => Seq::<Seq<char>>::empty(),
                    Some(ResolvedEntityView::Other) => Seq::<Seq<char>>::empty(),
                    None => Seq::<Seq<char>>::empty(),
                },
                None => Seq::<Seq<char>>::empty(),
            }
        } else {
            Seq::<Seq<char>>::empty()
        },
        None => Seq::<Seq<char>>::empty(),
    }
}

/// The accumulator state after one invocation of [`complete_use_tree`],
/// as a function of the state before and of the context alone.
pub open spec fn apply_use_tree(
    before: CompletionsView,
    ctx: CompletionContextView,
) -> CompletionsView {
    CompletionsView {
        keywords: before.keywords + use_tree_keywords(ctx),
        items: before.items + use_tree_items(ctx),
        variants: before.variants + use_tree_variants(ctx),
    }
}

proof fn lemma_module_candidates_step(
    scope: Seq<ScopeEntryView>,
    current_typed_name: Option<Seq<char>>,
    i: int,
)
    requires
        0 <= i < scope.len(),
    ensures
        module_item_candidates(scope.take(i + 1), current_typed_name)
            == if entry_admitted_in_module(scope[i], current_typed_name) {
            module_item_candidates(scope.take(i), current_typed_name).push(scope[i])
        } else {
            module_item_candidates(scope.take(i), current_typed_name)
        },
{
    reveal_with_fuel(Seq::filter, 2);
    assert(scope.take(i + 1).drop_last() =~= scope.take(i));
    assert(scope.take(i + 1).last() == scope[i]);
}

proof fn lemma_global_module_candidates_step(global: Seq<ScopeEntryView>, i: int)
    requires
        0 <= i < global.len(),
    ensures
        global_module_candidates(global.take(i + 1)) == if entry_is_module(global[i]) {
            global_module_candidates(global.take(i)).push(global[i])
        } else {
            global_module_candidates(global.take(i))
        },
{
    reveal_with_fuel(Seq::filter, 2);
    assert(global.take(i + 1).drop_last() =~= global.take(i));
    assert(global.take(i + 1).last() == global[i]);
}

proof fn lemma_global_root_module_candidates_step(global: Seq<ScopeEntryView>, i: int)
    requires
        0 <= i < global.len(),
    ensures
        global_root_module_candidates(global.take(i + 1)) == if entry_is_root_module(global[i]) {
            global_root_module_candidates(global.take(i)).push(global[i])
        } else {
            global_root_module_candidates(global.take(i))
        },
{
    reveal_with_fuel(Seq::filter, 2);
    assert(global.take(i + 1).drop_last() =~= global.take(i));
    assert(global.take(i + 1).last() == global[i]);
}

/// Whether one typed segment is the parent-scope keyword.
pub fn segment_is_super(segment: &PathSegment) -> (r: bool)
    ensures
        r == (segment@ is SuperKw),
{
    match segment {
        PathSegment::SuperKw => true,
        PathSegment::Ident(_) => false,
        PathSegment::SelfKw => false,
        PathSegment::CrateKw => false,
    }
}

/// Whether one typed segment is the `self` keyword.
pub fn segment_is_self(segment: &PathSegment) -> (r: bool)
    ensures
        r == (segment@ is SelfKw),
{
    match segment {
        PathSegment::SelfKw => true,
        PathSegment::Ident(_) => false,
        PathSegment::SuperKw => false,
        PathSegment::CrateKw => false,
    }
}

/// Whether the typed prefix is a super-chain: non-empty and made of the
/// parent-scope keyword at every segment.
pub fn path_is_super_chain(segments: &Vec<PathSegment>) -> (r: bool)
    ensures
        r == is_super_chain(segments.deep_view()),
{
    if segments.len() == 0 {
        return false;
    }
    let mut i: usize = 0;
    while i < segments.len()
        invariant
            i <= segments@.len(),
            forall|j: int| 0 <= j < i ==> segments.deep_view()[j] is SuperKw,
        decreases segments@.len() - i,
    {
        if !segment_is_super(&segments[i]) {
            proof {
                assert(!(segments.deep_view()[i as int] is SuperKw));
            }
            return false;
        }
        i += 1;
    }
    true
}

/// Whether the last typed segment of the prefix is the `self` keyword.
pub fn last_segment_is_self_kw(segments: &Vec<PathSegment>) -> (r: bool)
    ensures
        r == last_segment_is_self(segments.deep_view()),
{
    if segments.len() == 0 {
        false
    } else {
        let r = segment_is_self(&segments[segments.len() - 1]);
        proof {
            assert(segments.deep_view().last() == segments.deep_view()[segments@.len() - 1]);
        }
        r
    }
}

/// Whether a scope entry the database could not bind carries the very
/// name being typed at the cursor.
fn unknown_is_current(current_typed_name: &Option<String>, name: &String) -> (r: bool)
    ensures
        r == (current_typed_name.deep_view() == Some(name@)),
{
    match current_typed_name {
        Some(current) => current.eq(name),
        None => false,
    }
}

/// Append to `acc` the item candidates for a qualifier that resolved to a
/// module with the given scope: every entry admitted by the module-filter
/// rule, in enumeration order.
pub fn add_module_scope_candidates(
    acc: &mut Completions,
    scope: &Vec<ScopeEntry>,
    current_typed_name: &Option<String>,
)
    ensures
        final(acc)@.keywords == old(acc)@.keywords,
        final(acc)@.items == old(acc)@.items + module_item_candidates(
            scope.deep_view(),
            current_typed_name.deep_view(),
        ),
        final(acc)@.variants == old(acc)@.variants,
{
    proof {
        assert(acc@.items =~= old(acc)@.items + module_item_candidates(
            scope.deep_view().take(0),
            current_typed_name.deep_view(),
        ));
    }
    let mut i: usize = 0;
    while i < scope.len()
        invariant
            i <= scope@.len(),
            acc@.keywords == old(acc)@.keywords,
            acc@.variants == old(acc)@.variants,
            acc@.items == old(acc)@.items + module_item_candidates(
                scope.deep_view().take(i as int),
                current_typed_name.deep_view(),
            ),
        decreases scope@.len() - i,
    {
        let entry = &scope[i];
        proof {
            lemma_module_candidates_step(
                scope.deep_view(),
                current_typed_name.deep_view(),
                i as int,
            );
        }
        let keep_entry = match entry.kind {
            DefKind::Unresolved => !unknown_is_current(current_typed_name, &entry.name),
            DefKind::Module { is_compilation_root: _ } => true,
            DefKind::ImportableItem => true,
            DefKind::Macro => true,
            DefKind::NotImportable => false,
        };
        if keep_entry {
            acc.add_resolution(entry.clone());
        }
        proof {
            assert(acc@.items =~= old(acc)@.items + module_item_candidates(
                scope.deep_view().take(i as int + 1),
                current_typed_name.deep_view(),
            ));
        }
        i += 1;
    }
    proof {
        assert(scope.deep_view().take(scope@.len() as int) =~= scope.deep_view());
    }
}

/// Append to `acc` every variant of an enum the qualifier resolved to, as
/// a variant candidate, in declaration order.
pub fn add_enum_variant_candidates(acc: &mut Completions, variants: &Vec<String>)
    ensures
        final(acc)@.keywords == old(acc)@.keywords,
        final(acc)@.items == old(acc)@.items,
        final(acc)@.variants == old(acc)@.variants + variants.deep_view(),
{
    proof {
        assert(acc@.variants =~= old(acc)@.variants + variants.deep_view().take(0));
    }
    let mut i: usize = 0;
    while i < variants.len()
        invariant
            i <= variants@.len(),
            acc@.keywords == old(acc)@.keywords,
            acc@.items == old(acc)@.items,
            acc@.variants == old(acc)@.variants + variants.deep_view().take(i as int),
        decreases variants@.len() - i,
    {
        let variant = &variants[i];
        acc.add_enum_variant(variant.clone());
        proof {
            assert(variants.deep_view().take(i as int + 1) =~= variants.deep_view().take(
                i as int,
            ).push(variants.deep_view()[i as int]));
            assert(acc@.variants =~= old(acc)@.variants + variants.deep_view().take(i as int + 1));
        }
        i += 1;
    }
    proof {
        assert(variants.deep_view().take(variants@.len() as int) =~= variants.deep_view());
    }
}

/// Append to `acc` the modules of the global enumeration: only the
/// compilation-root modules when `crate_roots_only` is set (a fresh path
/// with a leading separator), and modules at any depth otherwise (a fresh
/// plain path).
pub fn add_global_module_candidates(
    acc: &mut Completions,
    global: &Vec<ScopeEntry>,
    crate_roots_only: bool,
)
    ensures
        final(acc)@.keywords == old(acc)@.keywords,
        final(acc)@.items == old(acc)@.items + (if crate_roots_only {
            global_root_module_candidates(global.deep_view())
        } else {
            global_module_candidates(global.deep_view())
        }),
        final(acc)@.variants == old(acc)@.variants,
{
    proof {
        assert(acc@.items =~= old(acc)@.items + global_root_module_candidates(
            global.deep_view().take(0),
        ));
        assert(acc@.items =~= old(acc)@.items + global_module_candidates(
            global.deep_view().take(0),
        ));
    }
    let mut i: usize = 0;
    while i < global.len()
        invariant
            i <= global@.len(),
            acc@.keywords == old(acc)@.keywords,
            acc@.variants == old(acc)@.variants,
            acc@.items == old(acc)@.items + (if crate_roots_only {
                global_root_module_candidates(global.deep_view().take(i as int))
            } else {
                global_module_candidates(global.deep_view().take(i as int))
            }),
        decreases global@.len() - i,
    {
        let entry = &global[i];
        proof {
            lemma_global_module_candidates_step(global.deep_view(), i as int);
            lemma_global_root_module_candidates_step(global.deep_view(), i as int);
        }
        let keep_entry = match entry.kind {
            DefKind::Module { is_compilation_root } => !crate_roots_only || is_compilation_root,
            DefKind::ImportableItem => false,
            DefKind::Macro => false,
            DefKind::Unresolved => false,
            DefKind::NotImportable => false,
        };
        if keep_entry {
            acc.add_resolution(entry.clone());
        }
        proof {
            if crate_roots_only {
                assert(acc@.items =~= old(acc)@.items + global_root_module_candidates(
                    global.deep_view().take(i as int + 1),
                ));
            } else {
                assert(acc@.items =~= old(acc)@.items + global_module_candidates(
                    global.deep_view().take(i as int + 1),
                ));
            }
        }
        i += 1;
    }
    proof {
        assert(global.deep_view().take(global@.len() as int) =~= global.deep_view());
    }
}

/// Resolve one import-path completion request.
///
/// Classifies the shape of the partial path, resolves its typed qualifier
/// if one is present, and appends to `acc` exactly the keyword, item and
/// enum-variant candidates that the shape and the resolved entity admit;
/// a cursor outside an import path, an unresolved qualifier or an entity
/// with no importable members contributes nothing. The result is a pure
/// function of the context: see [`apply_use_tree`].
pub fn complete_use_tree(acc: &mut Completions, ctx: &CompletionContext)
    ensures
        final(acc)@.keywords == old(acc)@.keywords + use_tree_keywords(ctx@),
        final(acc)@.items == old(acc)@.items + use_tree_items(ctx@),
        final(acc)@.variants == old(acc)@.variants + use_tree_variants(ctx@),
        final(acc)@ == apply_use_tree(old(acc)@, ctx@),
{
    let path_ctx = match &ctx.path_context {
        Some(path_ctx) => path_ctx,
        None => {
            proof {
                assert(acc@.keywords =~= old(acc)@.keywords + use_tree_keywords(ctx@));
                assert(acc@.items =~= old(acc)@.items + use_tree_items(ctx@));
                assert(acc@.variants =~= old(acc)@.variants + use_tree_variants(ctx@));
                assert(acc@ =~= apply_use_tree(old(acc)@, ctx@));
            }
            return;
        },
    };
    let is_use_path = matches!(path_ctx.kind, Some(PathKind::Use));
    if !is_use_path {
        proof {
            assert(acc@.keywords =~= old(acc)@.keywords + use_tree_keywords(ctx@));
            assert(acc@.items =~= old(acc)@.items + use_tree_items(ctx@));
            assert(acc@.variants =~= old(acc)@.variants + use_tree_variants(ctx@));
            assert(acc@ =~= apply_use_tree(old(acc)@, ctx@));
        }
        return;
    }
    match &path_ctx.qualifier {
        Some(qualifier) => {
            if path_is_super_chain(&qualifier.segments) {
                acc.add_keyword("super::");
            }
            // offer `self` inside a nested sub-tree only when the prefix does not already end in `self`
            let preceded_by_self = last_segment_is_self_kw(&qualifier.segments);
            if path_ctx.use_tree_parent && !preceded_by_self {
                acc.add_keyword("self");
            }
            match &qualifier.resolution {
                Some(ResolvedEntity::Module(scope)) => {
                    add_module_scope_candidates(acc, scope, &ctx.current_typed_name);
                },
                Some(ResolvedEntity::EnumType(variants)) => {
                    add_enum_variant_candidates(acc, variants);
                },
                Some(ResolvedEntity::Other) => {},
                None => {},
            }
        },
        None => {
            if !path_ctx.is_trivial_path {
                // a leading separator anchors the path at a compilation root
                add_global_module_candidates(acc, &ctx.global_scope, true);
            } else {
                // nothing typed yet: modules at any depth, plus the three root keywords
                add_global_module_candidates(acc, &ctx.global_scope, false);
                acc.add_keyword("self::");
                acc.add_keyword("super::");
                acc.add_keyword("crate::");
            }
        },
    }
    proof {
        assert(acc@.keywords =~= old(acc)@.keywords + use_tree_keywords(ctx@));
        assert(acc@.items =~= old(acc)@.items + use_tree_items(ctx@));
        assert(acc@.variants =~= old(acc)@.variants + use_tree_variants(ctx@));
        assert(acc@ =~= apply_use_tree(old(acc)@, ctx@));
    }
}

/// Self-reference exclusion: while a module qualifier is being
/// completed, no emitted item candidate is an unresolved entry carrying
/// the very name already typed at the cursor.
pub proof fn lemma_current_name_not_suggested(
    scope: Seq<ScopeEntryView>,
    current_typed_name: Seq<char>,
)
    ensures
        forall|i: int|
            0 <= i < module_item_candidates(scope, Some(current_typed_name)).len() ==> !((
            #[trigger] module_item_candidates(scope, Some(current_typed_name))[i]).kind
                is Unresolved && module_item_candidates(scope, Some(current_typed_name))[i].name
                == current_typed_name),
{
    broadcast use vstd::seq_lib::group_filter_ensures;

}

proof fn lemma_module_candidates_in_scope(
    scope: Seq<ScopeEntryView>,
    current_typed_name: Option<Seq<char>>,
)
    ensures
        forall|i: int|
            0 <= i < module_item_candidates(scope, current_typed_name).len() ==> scope.contains(
                #[trigger] module_item_candidates(scope, current_typed_name)[i],
            ),
    decreases scope.len(),
{
    reveal_with_fuel(Seq::filter, 2);
    if scope.len() > 0 {
        let prefix = scope.drop_last();
        lemma_module_candidates_in_scope(prefix, current_typed_name);
        let all_candidates = module_item_candidates(scope, current_typed_name);
        let prefix_candidates = module_item_candidates(prefix, current_typed_name);
        assert forall|i: int|
            0 <= i < all_candidates.len() implies scope.contains(all_candidates[i]) by {
            if i < prefix_candidates.len() {
                assert(prefix.contains(prefix_candidates[i]));
                let j = choose|j: int| 0 <= j < prefix.len() && prefix[j] == prefix_candidates[i];
                assert(scope[j] == all_candidates[i]);
            } else {
                assert(scope[scope.len() - 1] == all_candidates[i]);
            }
        }
    }
}

/// Self-reference exclusion, full form: while the name already typed at
/// the cursor occurs in the module's scope only as entries the database
/// could not bind, no emitted item candidate carries that name at all.
pub proof fn lemma_typed_name_fully_excluded(
    scope: Seq<ScopeEntryView>,
    current_typed_name: Seq<char>,
)
    requires
        forall|j: int|
            0 <= j < scope.len() && (#[trigger] scope[j]).name == current_typed_name
                ==> scope[j].kind is Unresolved,
    ensures
        forall|i: int|
            0 <= i < module_item_candidates(scope, Some(current_typed_name)).len() ==> (
            #[trigger] module_item_candidates(scope, Some(current_typed_name))[i]).name
                != current_typed_name,
{
    broadcast use vstd::seq_lib::group_filter_ensures;

    lemma_module_candidates_in_scope(scope, Some(current_typed_name));
    let candidates = module_item_candidates(scope, Some(current_typed_name));
    assert forall|i: int|
        0 <= i < candidates.len() implies (#[trigger] candidates[i]).name
        != current_typed_name by {
        if candidates[i].name == current_typed_name {
            assert(scope.contains(candidates[i]));
            let j = choose|j: int| 0 <= j < scope.len() && scope[j] == candidates[i];
            assert(scope[j].kind is Unresolved);
            assert(entry_admitted_in_module(candidates[i], Some(current_typed_name)));
        }
    }
}

/// A fresh path with a leading separator emits exactly the
/// compilation-root modules of the global enumeration, and neither
/// keywords nor variants.
pub proof fn lemma_fresh_with_separator(
    ctx: CompletionContextView,
    path_ctx: PathCompletionContextView,
)
    requires
        ctx.path_context == Some(path_ctx),
        path_ctx.kind == Some(PathKind::Use),
        path_ctx.qualifier is None,
        !path_ctx.is_trivial_path,
    ensures
        use_tree_items(ctx) == global_root_module_candidates(ctx.global_scope),
        forall|i: int|
            0 <= i < use_tree_items(ctx).len() ==> entry_is_root_module(
                #[trigger] use_tree_items(ctx)[i],
            ),
        forall|i: int|
            0 <= i < ctx.global_scope.len() && entry_is_root_module(ctx.global_scope[i])
                ==> use_tree_items(ctx).contains(#[trigger] ctx.global_scope[i]),
        use_tree_keywords(ctx) == Seq::<Seq<char>>::empty(),
        use_tree_variants(ctx) == Seq::<Seq<char>>::empty(),
{
    broadcast use vstd::seq_lib::group_filter_ensures;

}

/// A trivial top-level path emits exactly the modules of the global
/// enumeration, at any depth, and exactly the three root keywords.
pub proof fn lemma_fresh_plain(ctx: CompletionContextView, path_ctx: PathCompletionContextView)
    requires
        ctx.path_context == Some(path_ctx),
        path_ctx.kind == Some(PathKind::Use),
        path_ctx.qualifier is None,
        path_ctx.is_trivial_path,
    ensures
        use_tree_items(ctx) == global_module_candidates(ctx.global_scope),
        forall|i: int|
            0 <= i < use_tree_items(ctx).len() ==> entry_is_module(
                #[trigger] use_tree_items(ctx)[i],
            ),
        forall|i: int|
            0 <= i < ctx.global_scope.len() && entry_is_module(ctx.global_scope[i])
                ==> use_tree_items(ctx).contains(#[trigger] ctx.global_scope[i]),
        use_tree_keywords(ctx) == seq!["self::"@, "super::"@, "crate::"@],
        use_tree_variants(ctx) == Seq::<Seq<char>>::empty(),
{
    broadcast use vstd::seq_lib::group_filter_ensures;

}

/// A qualifier that resolved to an enum type emits exactly the enum's
/// variants, no item candidates, and only the keywords the structural
/// rules inject: the resolution step itself contributes no keyword.
pub proof fn lemma_enum_qualifier(
    ctx: CompletionContextView,
    path_ctx: PathCompletionContextView,
    qualifier: QualifierView,
    variants: Seq<Seq<char>>,
)
    requires
        ctx.path_context == Some(path_ctx),
        path_ctx.kind == Some(PathKind::Use),
        path_ctx.qualifier == Some(qualifier),
        qualifier.resolution == Some(ResolvedEntityView::EnumType(variants)),
    ensures
        use_tree_variants(ctx) == variants,
        use_tree_items(ctx) == Seq::<ScopeEntryView>::empty(),
        use_tree_keywords(ctx) == qualified_keywords(
            qualifier.segments,
            path_ctx.use_tree_parent,
        ),
{
}

/// A super-chain qualifier always injects the `super::` keyword, whatever
/// entity the qualifier resolved to, if any.
pub proof fn lemma_super_chain_keyword(
    ctx: CompletionContextView,
    path_ctx: PathCompletionContextView,
    qualifier: QualifierView,
)
    requires
        ctx.path_context == Some(path_ctx),
        path_ctx.kind == Some(PathKind::Use),
        path_ctx.qualifier == Some(qualifier),
        is_super_chain(qualifier.segments),
    ensures
        use_tree_keywords(ctx).contains("super::"@),
{
    assert(use_tree_keywords(ctx)[0] == "super::"@);
}

/// Inside a nested import sub-tree whose typed prefix does not end in
/// the `self` keyword, the `self` keyword is always injected, whatever
/// entity the qualifier resolved to, if any.
pub proof fn lemma_nested_tree_self_keyword(
    ctx: CompletionContextView,
    path_ctx: PathCompletionContextView,
    qualifier: QualifierView,
)
    requires
        ctx.path_context == Some(path_ctx),
        path_ctx.kind == Some(PathKind::Use),
        path_ctx.qualifier == Some(qualifier),
        path_ctx.use_tree_parent,
        !last_segment_is_self(qualifier.segments),
    ensures
        use_tree_keywords(ctx).contains("self"@),
{
    let keywords = use_tree_keywords(ctx);
    assert(keywords[keywords.len() - 1] == "self"@);
}

/// Determinism: the candidate set is a function of the syntactic context
/// and of the database snapshot alone, so two invocations from the same
/// accumulator state are specified to end in the same state.
pub proof fn lemma_deterministic(
    ctx: CompletionContextView,
    before: CompletionsView,
    outcome1: CompletionsView,
    outcome2: CompletionsView,
)
    requires
        outcome1 == apply_use_tree(before, ctx),
        outcome2 == apply_use_tree(before, ctx),
    ensures
        outcome1 == outcome2,
{
}

} // verus!
