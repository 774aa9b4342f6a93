use use_completion::completions::Completions;
use use_completion::context::{
    CompletionContext, DefKind, PathCompletionContext, PathKind, PathSegment, Qualifier,
    ResolvedEntity, ScopeEntry,
};
use use_completion::use_tree::complete_use_tree;

fn entry(name: &str, kind: DefKind) -> ScopeEntry {
    ScopeEntry { name: name.to_string(), kind }
}

fn item_names(acc: &Completions) -> Vec<String> {
    acc.items.iter().map(|e| e.name.clone()).collect()
}

fn use_context(path_context: Option<PathCompletionContext>) -> CompletionContext {
    CompletionContext { path_context, current_typed_name: None, global_scope: Vec::new() }
}

fn sample_global_scope() -> Vec<ScopeEntry> {
    vec![
        entry("alpha", DefKind::Module { is_compilation_root: true }),
        entry("beta", DefKind::Module { is_compilation_root: false }),
        entry("gamma", DefKind::ImportableItem),
        entry("delta", DefKind::Macro),
        entry("epsilon", DefKind::Unresolved),
        entry("zeta", DefKind::NotImportable),
        entry("eta", DefKind::Module { is_compilation_root: true }),
    ]
}

#[test]
fn fresh_plain_path_emits_modules_and_root_keywords() {
    let mut acc = Completions::new();
    let ctx = CompletionContext {
        path_context: Some(PathCompletionContext {
            kind: Some(PathKind::Use),
            is_trivial_path: true,
            use_tree_parent: false,
            qualifier: None,
        }),
        current_typed_name: None,
        global_scope: sample_global_scope(),
    };
    complete_use_tree(&mut acc, &ctx);
    assert_eq!(item_names(&acc), vec!["alpha", "beta", "eta"]);
    assert_eq!(acc.keywords, vec!["self::", "super::", "crate::"]);
    assert!(acc.variants.is_empty());
}

#[test]
fn leading_separator_emits_only_compilation_roots() {
    let mut acc = Completions::new();
    let ctx = CompletionContext {
        path_context: Some(PathCompletionContext {
            kind: Some(PathKind::Use),
            is_trivial_path: false,
            use_tree_parent: false,
            qualifier: None,
        }),
        current_typed_name: None,
        global_scope: sample_global_scope(),
    };
    complete_use_tree(&mut acc, &ctx);
    assert_eq!(item_names(&acc), vec!["alpha", "eta"]);
    assert!(acc.keywords.is_empty());
    assert!(acc.variants.is_empty());
}

#[test]
fn module_qualifier_filters_scope_by_kind() {
    let scope = vec![
        entry("alpha", DefKind::Module { is_compilation_root: false }),
        entry("beta", DefKind::ImportableItem),
        entry("gamma", DefKind::Macro),
        entry("delta", DefKind::Unresolved),
        entry("epsilon", DefKind::NotImportable),
    ];
    let mut acc = Completions::new();
    let ctx = use_context(Some(PathCompletionContext {
        kind: Some(PathKind::Use),
        is_trivial_path: false,
        use_tree_parent: false,
        qualifier: Some(Qualifier {
            segments: vec![PathSegment::Ident("alpha".to_string())],
            resolution: Some(ResolvedEntity::Module(scope)),
        }),
    }));
    complete_use_tree(&mut acc, &ctx);
    assert_eq!(item_names(&acc), vec!["alpha", "beta", "gamma", "delta"]);
    assert!(acc.keywords.is_empty());
    assert!(acc.variants.is_empty());
}

#[test]
fn currently_typed_name_is_not_suggested() {
    let scope = vec![
        entry("foo", DefKind::Unresolved),
        entry("bar", DefKind::Unresolved),
        entry("foo", DefKind::ImportableItem),
    ];
    let mut acc = Completions::new();
    let ctx = CompletionContext {
        path_context: Some(PathCompletionContext {
            kind: Some(PathKind::Use),
            is_trivial_path: false,
            use_tree_parent: false,
            qualifier: Some(Qualifier {
                segments: vec![PathSegment::SelfKw],
                resolution: Some(ResolvedEntity::Module(scope)),
            }),
        }),
        current_typed_name: Some("foo".to_string()),
        global_scope: Vec::new(),
    };
    complete_use_tree(&mut acc, &ctx);
    // the unresolved `foo` is the name being typed and is excluded; the
    // resolved `foo` item and the unrelated `bar` stay
    assert_eq!(acc.items.len(), 2);
    assert_eq!(acc.items[0], entry("bar", DefKind::Unresolved));
    assert_eq!(acc.items[1], entry("foo", DefKind::ImportableItem));
}

#[test]
fn enum_qualifier_emits_exactly_its_variants() {
    let mut acc = Completions::new();
    let ctx = use_context(Some(PathCompletionContext {
        kind: Some(PathKind::Use),
        is_trivial_path: false,
        use_tree_parent: false,
        qualifier: Some(Qualifier {
            segments: vec![PathSegment::Ident("color".to_string())],
            resolution: Some(ResolvedEntity::EnumType(vec![
                "A".to_string(),
                "B".to_string(),
                "C".to_string(),
            ])),
        }),
    }));
    complete_use_tree(&mut acc, &ctx);
    assert_eq!(acc.variants, vec!["A", "B", "C"]);
    assert!(acc.keywords.is_empty());
    assert!(acc.items.is_empty());
}

#[test]
fn super_chain_injects_super_keyword() {
    let mut acc = Completions::new();
    let ctx = use_context(Some(PathCompletionContext {
        kind: Some(PathKind::Use),
        is_trivial_path: false,
        use_tree_parent: false,
        qualifier: Some(Qualifier {
            segments: vec![PathSegment::SuperKw, PathSegment::SuperKw],
            resolution: None,
        }),
    }));
    complete_use_tree(&mut acc, &ctx);
    assert_eq!(acc.keywords, vec!["super::"]);
    assert!(acc.items.is_empty());
    assert!(acc.variants.is_empty());
}

#[test]
fn super_chain_keyword_does_not_depend_on_resolution() {
    let mut acc = Completions::new();
    let ctx = use_context(Some(PathCompletionContext {
        kind: Some(PathKind::Use),
        is_trivial_path: false,
        use_tree_parent: false,
        qualifier: Some(Qualifier {
            segments: vec![PathSegment::SuperKw],
            resolution: Some(ResolvedEntity::Other),
        }),
    }));
    complete_use_tree(&mut acc, &ctx);
    assert_eq!(acc.keywords, vec!["super::"]);
    assert!(acc.items.is_empty());
}

#[test]
fn mixed_prefix_is_no_super_chain() {
    let mut acc = Completions::new();
    let ctx = use_context(Some(PathCompletionContext {
        kind: Some(PathKind::Use),
        is_trivial_path: false,
        use_tree_parent: false,
        qualifier: Some(Qualifier {
            segments: vec![PathSegment::SuperKw, PathSegment::Ident("alpha".to_string())],
            resolution: None,
        }),
    }));
    complete_use_tree(&mut acc, &ctx);
    assert!(acc.keywords.is_empty());
}

#[test]
fn nested_tree_injects_self_keyword() {
    let mut acc = Completions::new();
    let ctx = use_context(Some(PathCompletionContext {
        kind: Some(PathKind::Use),
        is_trivial_path: false,
        use_tree_parent: true,
        qualifier: Some(Qualifier {
            segments: vec![PathSegment::Ident("alpha".to_string())],
            resolution: None,
        }),
    }));
    complete_use_tree(&mut acc, &ctx);
    assert_eq!(acc.keywords, vec!["self"]);
}

#[test]
fn nested_tree_after_self_segment_injects_no_self_keyword() {
    let mut acc = Completions::new();
    let ctx = use_context(Some(PathCompletionContext {
        kind: Some(PathKind::Use),
        is_trivial_path: false,
        use_tree_parent: true,
        qualifier: Some(Qualifier {
            segments: vec![PathSegment::Ident("alpha".to_string()), PathSegment::SelfKw],
            resolution: None,
        }),
    }));
    complete_use_tree(&mut acc, &ctx);
    assert!(acc.keywords.is_empty());
}

#[test]
fn unresolved_qualifier_emits_no_item_candidates() {
    let mut acc = Completions::new();
    let ctx = use_context(Some(PathCompletionContext {
        kind: Some(PathKind::Use),
        is_trivial_path: false,
        use_tree_parent: false,
        qualifier: Some(Qualifier {
            segments: vec![PathSegment::Ident("alpha".to_string())],
            resolution: None,
        }),
    }));
    complete_use_tree(&mut acc, &ctx);
    assert!(acc.keywords.is_empty());
    assert!(acc.items.is_empty());
    assert!(acc.variants.is_empty());
}

#[test]
fn other_entity_emits_no_candidates() {
    let mut acc = Completions::new();
    let ctx = use_context(Some(PathCompletionContext {
        kind: Some(PathKind::Use),
        is_trivial_path: false,
        use_tree_parent: false,
        qualifier: Some(Qualifier {
            segments: vec![PathSegment::Ident("alpha".to_string())],
            resolution: Some(ResolvedEntity::Other),
        }),
    }));
    complete_use_tree(&mut acc, &ctx);
    assert!(acc.keywords.is_empty());
    assert!(acc.items.is_empty());
    assert!(acc.variants.is_empty());
}

#[test]
fn cursor_outside_a_path_emits_nothing() {
    let mut acc = Completions::new();
    let mut ctx = use_context(None);
    ctx.global_scope = sample_global_scope();
    complete_use_tree(&mut acc, &ctx);
    assert!(acc.keywords.is_empty());
    assert!(acc.items.is_empty());
    assert!(acc.variants.is_empty());
}

#[test]
fn non_use_path_emits_nothing() {
    let mut acc = Completions::new();
    let mut ctx = use_context(Some(PathCompletionContext {
        kind: Some(PathKind::Other),
        is_trivial_path: true,
        use_tree_parent: false,
        qualifier: None,
    }));
    ctx.global_scope = sample_global_scope();
    complete_use_tree(&mut acc, &ctx);
    assert!(acc.keywords.is_empty());
    assert!(acc.items.is_empty());

    let mut acc = Completions::new();
    let mut ctx = use_context(Some(PathCompletionContext {
        kind: None,
        is_trivial_path: true,
        use_tree_parent: false,
        qualifier: None,
    }));
    ctx.global_scope = sample_global_scope();
    complete_use_tree(&mut acc, &ctx);
    assert!(acc.keywords.is_empty());
    assert!(acc.items.is_empty());
}

#[test]
fn empty_scopes_emit_no_item_candidates() {
    let mut acc = Completions::new();
    let ctx = CompletionContext {
        path_context: Some(PathCompletionContext {
            kind: Some(PathKind::Use),
            is_trivial_path: true,
            use_tree_parent: false,
            qualifier: None,
        }),
        current_typed_name: None,
        global_scope: Vec::new(),
    };
    complete_use_tree(&mut acc, &ctx);
    assert!(acc.items.is_empty());
    assert_eq!(acc.keywords, vec!["self::", "super::", "crate::"]);

    let mut acc = Completions::new();
    let ctx = use_context(Some(PathCompletionContext {
        kind: Some(PathKind::Use),
        is_trivial_path: false,
        use_tree_parent: false,
        qualifier: Some(Qualifier {
            segments: vec![PathSegment::Ident("alpha".to_string())],
            resolution: Some(ResolvedEntity::Module(Vec::new())),
        }),
    }));
    complete_use_tree(&mut acc, &ctx);
    assert!(acc.items.is_empty());

    let mut acc = Completions::new();
    let ctx = use_context(Some(PathCompletionContext {
        kind: Some(PathKind::Use),
        is_trivial_path: false,
        use_tree_parent: false,
        qualifier: Some(Qualifier {
            segments: vec![PathSegment::Ident("alpha".to_string())],
            resolution: Some(ResolvedEntity::EnumType(Vec::new())),
        }),
    }));
    complete_use_tree(&mut acc, &ctx);
    assert!(acc.variants.is_empty());
}

#[test]
fn resolver_appends_to_earlier_candidates() {
    let mut acc = Completions::new();
    acc.add_keyword("pub");
    acc.add_resolution(entry("seed", DefKind::ImportableItem));
    let ctx = CompletionContext {
        path_context: Some(PathCompletionContext {
            kind: Some(PathKind::Use),
            is_trivial_path: true,
            use_tree_parent: false,
            qualifier: None,
        }),
        current_typed_name: None,
        global_scope: vec![entry("alpha", DefKind::Module { is_compilation_root: true })],
    };
    complete_use_tree(&mut acc, &ctx);
    assert_eq!(acc.keywords, vec!["pub", "self::", "super::", "crate::"]);
    assert_eq!(item_names(&acc), vec!["seed", "alpha"]);
}

#[test]
fn identical_requests_emit_identical_candidates() {
    let ctx = CompletionContext {
        path_context: Some(PathCompletionContext {
            kind: Some(PathKind::Use),
            is_trivial_path: true,
            use_tree_parent: false,
            qualifier: None,
        }),
        current_typed_name: Some("foo".to_string()),
        global_scope: sample_global_scope(),
    };
    let mut first = Completions::new();
    complete_use_tree(&mut first, &ctx);
    let mut second = Completions::new();
    complete_use_tree(&mut second, &ctx);
    assert_eq!(first, second);
}

#[test]
fn lone_unresolved_typed_name_yields_no_candidates() {
    let scope = vec![entry("foo", DefKind::Unresolved)];
    let mut acc = Completions::new();
    let ctx = CompletionContext {
        path_context: Some(PathCompletionContext {
            kind: Some(PathKind::Use),
            is_trivial_path: false,
            use_tree_parent: false,
            qualifier: Some(Qualifier {
                segments: vec![PathSegment::SelfKw],
                resolution: Some(ResolvedEntity::Module(scope)),
            }),
        }),
        current_typed_name: Some("foo".to_string()),
        global_scope: Vec::new(),
    };
    complete_use_tree(&mut acc, &ctx);
    assert!(acc.items.is_empty());
}
