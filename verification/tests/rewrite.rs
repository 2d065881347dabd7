use variable_to_wasm_import::ast::{
    Expr, Ident, ImportDecl, ImportPhase, ModuleItem, Opaque, Pat, Program, Str, VarDecl,
    VarDeclKind, VarDeclarator,
};
use variable_to_wasm_import::visitor::{process_transform, TransformVisitor};

fn name(sym: &str) -> Ident {
    Ident { sym: sym.to_string(), ctxt: 0 }
}

fn text(value: &str, raw: &str) -> Str {
    Str { value: value.to_string(), raw: Some(raw.to_string()) }
}

fn declare(kind: VarDeclKind, sym: &str, value: &str, raw: &str) -> ModuleItem {
    ModuleItem::Var(VarDecl {
        kind,
        decls: vec![VarDeclarator {
            name: Pat::Ident(name(sym)),
            init: Some(Expr::Str(text(value, raw))),
        }],
    })
}

fn import_from(sym: &str, value: &str, raw: &str) -> ModuleItem {
    ModuleItem::Import(ImportDecl {
        local: name(sym),
        src: text(value, raw),
        type_only: false,
        phase: ImportPhase::Evaluation,
    })
}

fn statement(kind: u64) -> ModuleItem {
    ModuleItem::Other(Opaque { kind, bodies: Vec::new() })
}

fn block(kind: u64, bodies: Vec<Vec<ModuleItem>>) -> ModuleItem {
    ModuleItem::Other(Opaque { kind, bodies })
}

fn function_value(body: Vec<ModuleItem>) -> Expr {
    Expr::Other(Opaque { kind: 9, bodies: vec![body] })
}

fn rewritten(mut items: Vec<ModuleItem>) -> Vec<ModuleItem> {
    TransformVisitor.visit_mut_module_items(&mut items);
    items
}

fn scenario() -> Vec<ModuleItem> {
    vec![
        declare(VarDeclKind::Let, "foo", "./wasm_foo-bar.wasm", "'./wasm_foo-bar.wasm'"),
        declare(VarDeclKind::Let, "dummyFoo", "dummy", "'dummy'"),
        declare(VarDeclKind::Var, "bar", "./wasm_foo-bar.wasm", "\"./wasm_foo-bar.wasm\""),
        declare(VarDeclKind::Var, "dummyBar", "dummy", "'dummy'"),
        declare(
            VarDeclKind::Var,
            "wasm_argon2_bg_default",
            "./wasm_argon2_bg-n960sq1e.wasm",
            "\"./wasm_argon2_bg-n960sq1e.wasm\"",
        ),
    ]
}

fn scenario_rewritten() -> Vec<ModuleItem> {
    vec![
        import_from("foo", "./wasm_foo-bar.wasm", "'./wasm_foo-bar.wasm'"),
        declare(VarDeclKind::Let, "dummyFoo", "dummy", "'dummy'"),
        import_from("bar", "./wasm_foo-bar.wasm", "\"./wasm_foo-bar.wasm\""),
        declare(VarDeclKind::Var, "dummyBar", "dummy", "'dummy'"),
        import_from(
            "wasm_argon2_bg_default",
            "./wasm_argon2_bg-n960sq1e.wasm",
            "\"./wasm_argon2_bg-n960sq1e.wasm\"",
        ),
    ]
}

#[test]
fn replace_wasm_variable_to_import() {
    assert_eq!(rewritten(scenario()), scenario_rewritten());
}

#[test]
fn whole_module_is_rewritten() {
    let out = process_transform(Program { body: scenario() });
    assert_eq!(out, Program { body: scenario_rewritten() });
}

#[test]
fn empty_module_stays_empty() {
    assert_eq!(process_transform(Program { body: Vec::new() }), Program { body: Vec::new() });
    assert_eq!(rewritten(Vec::new()), Vec::new());
}

#[test]
fn rewriting_twice_changes_nothing_more() {
    let once = rewritten(scenario());
    let twice = rewritten(rewritten(scenario()));
    assert_eq!(twice, once);
}

#[test]
fn import_declarations_pass_through() {
    let items = vec![
        import_from("a", "./a.wasm", "'./a.wasm'"),
        ModuleItem::Import(ImportDecl {
            local: name("t"),
            src: text("./t.wasm", "'./t.wasm'"),
            type_only: true,
            phase: ImportPhase::Source,
        }),
    ];
    let same = vec![
        import_from("a", "./a.wasm", "'./a.wasm'"),
        ModuleItem::Import(ImportDecl {
            local: name("t"),
            src: text("./t.wasm", "'./t.wasm'"),
            type_only: true,
            phase: ImportPhase::Source,
        }),
    ];
    assert_eq!(rewritten(items), same);
}

#[test]
fn length_and_order_are_kept() {
    let items = vec![
        statement(1),
        declare(VarDeclKind::Const, "a", "./a.wasm", "'./a.wasm'"),
        statement(2),
        statement(3),
        declare(VarDeclKind::Const, "b", "b", "'b'"),
        declare(VarDeclKind::Const, "c", "lib/c.wasm", "'lib/c.wasm'"),
        statement(4),
    ];
    let expected = vec![
        statement(1),
        import_from("a", "./a.wasm", "'./a.wasm'"),
        statement(2),
        statement(3),
        declare(VarDeclKind::Const, "b", "b", "'b'"),
        import_from("c", "lib/c.wasm", "'lib/c.wasm'"),
        statement(4),
    ];
    let out = rewritten(items);
    assert_eq!(out.len(), 7);
    assert_eq!(out, expected);
}

#[test]
fn list_without_candidates_is_unchanged() {
    let items = vec![statement(1), declare(VarDeclKind::Let, "x", "dummy", "'dummy'"), statement(2)];
    let same = vec![statement(1), declare(VarDeclKind::Let, "x", "dummy", "'dummy'"), statement(2)];
    assert_eq!(rewritten(items), same);
}

#[test]
fn several_declarators_stay_together() {
    let pair = || {
        ModuleItem::Var(VarDecl {
            kind: VarDeclKind::Let,
            decls: vec![
                VarDeclarator {
                    name: Pat::Ident(name("a")),
                    init: Some(Expr::Str(text("./a.wasm", "'./a.wasm'"))),
                },
                VarDeclarator {
                    name: Pat::Ident(name("b")),
                    init: Some(Expr::Str(text("./b.wasm", "'./b.wasm'"))),
                },
            ],
        })
    };
    assert_eq!(rewritten(vec![pair()]), vec![pair()]);
}

#[test]
fn destructured_binding_stays_a_declaration() {
    let decl = || {
        ModuleItem::Var(VarDecl {
            kind: VarDeclKind::Let,
            decls: vec![VarDeclarator {
                name: Pat::Other(Opaque { kind: 5, bodies: Vec::new() }),
                init: Some(Expr::Str(text("./x.wasm", "\"./x.wasm\""))),
            }],
        })
    };
    assert_eq!(rewritten(vec![decl()]), vec![decl()]);
}

#[test]
fn template_literal_initializer_stays_a_declaration() {
    let decl = || {
        ModuleItem::Var(VarDecl {
            kind: VarDeclKind::Let,
            decls: vec![VarDeclarator {
                name: Pat::Ident(name("a")),
                init: Some(Expr::Other(Opaque { kind: 6, bodies: Vec::new() })),
            }],
        })
    };
    assert_eq!(rewritten(vec![decl()]), vec![decl()]);
}

#[test]
fn scope_context_survives_the_rewrite() {
    let items = vec![ModuleItem::Var(VarDecl {
        kind: VarDeclKind::Let,
        decls: vec![VarDeclarator {
            name: Pat::Ident(Ident { sym: "w".to_string(), ctxt: 42 }),
            init: Some(Expr::Str(text("./w.wasm", "'./w.wasm'"))),
        }],
    })];
    let expected = vec![ModuleItem::Import(ImportDecl {
        local: Ident { sym: "w".to_string(), ctxt: 42 },
        src: text("./w.wasm", "'./w.wasm'"),
        type_only: false,
        phase: ImportPhase::Evaluation,
    })];
    assert_eq!(rewritten(items), expected);
}

#[test]
fn same_name_in_two_scopes_keeps_two_contexts() {
    let decl = |ctxt: u32| {
        ModuleItem::Var(VarDecl {
            kind: VarDeclKind::Let,
            decls: vec![VarDeclarator {
                name: Pat::Ident(Ident { sym: "w".to_string(), ctxt }),
                init: Some(Expr::Str(text("./w.wasm", "'./w.wasm'"))),
            }],
        })
    };
    let import = |ctxt: u32| {
        ModuleItem::Import(ImportDecl {
            local: Ident { sym: "w".to_string(), ctxt },
            src: text("./w.wasm", "'./w.wasm'"),
            type_only: false,
            phase: ImportPhase::Evaluation,
        })
    };
    let items = vec![decl(1), block(3, vec![vec![decl(2)]])];
    let expected = vec![import(1), block(3, vec![vec![import(2)]])];
    assert_eq!(rewritten(items), expected);
}

#[test]
fn nested_statement_lists_are_rewritten() {
    let items = vec![block(
        1,
        vec![
            vec![statement(2), declare(VarDeclKind::Let, "a", "./a.wasm", "'./a.wasm'")],
            vec![],
            vec![block(3, vec![vec![declare(VarDeclKind::Var, "b", "b.wasm", "'b.wasm'")]])],
        ],
    )];
    let expected = vec![block(
        1,
        vec![
            vec![statement(2), import_from("a", "./a.wasm", "'./a.wasm'")],
            vec![],
            vec![block(3, vec![vec![import_from("b", "b.wasm", "'b.wasm'")]])],
        ],
    )];
    assert_eq!(rewritten(items), expected);
}

#[test]
fn statement_lists_inside_an_initializer_are_rewritten() {
    let items = vec![ModuleItem::Var(VarDecl {
        kind: VarDeclKind::Const,
        decls: vec![VarDeclarator {
            name: Pat::Ident(name("load")),
            init: Some(function_value(vec![
                declare(VarDeclKind::Let, "w", "./w.wasm", "'./w.wasm'"),
                statement(1),
            ])),
        }],
    })];
    let expected = vec![ModuleItem::Var(VarDecl {
        kind: VarDeclKind::Const,
        decls: vec![VarDeclarator {
            name: Pat::Ident(name("load")),
            init: Some(function_value(vec![
                import_from("w", "./w.wasm", "'./w.wasm'"),
                statement(1),
            ])),
        }],
    })];
    assert_eq!(rewritten(items), expected);
}

#[test]
fn statement_lists_inside_a_pattern_are_rewritten() {
    let pattern = |body: Vec<ModuleItem>| Pat::Other(Opaque { kind: 4, bodies: vec![body] });
    let items = vec![ModuleItem::Var(VarDecl {
        kind: VarDeclKind::Let,
        decls: vec![
            VarDeclarator {
                name: pattern(vec![declare(VarDeclKind::Let, "w", "./w.wasm", "'./w.wasm'")]),
                init: None,
            },
            VarDeclarator { name: Pat::Ident(name("z")), init: None },
        ],
    })];
    let expected = vec![ModuleItem::Var(VarDecl {
        kind: VarDeclKind::Let,
        decls: vec![
            VarDeclarator {
                name: pattern(vec![import_from("w", "./w.wasm", "'./w.wasm'")]),
                init: None,
            },
            VarDeclarator { name: Pat::Ident(name("z")), init: None },
        ],
    })];
    assert_eq!(rewritten(items), expected);
}

#[test]
fn tags_of_uninterpreted_nodes_are_kept() {
    let items = vec![statement(0), statement(u64::MAX), block(17, vec![vec![], vec![]])];
    let same = vec![statement(0), statement(u64::MAX), block(17, vec![vec![], vec![]])];
    assert_eq!(rewritten(items), same);
}

#[test]
fn deeply_nested_tree_is_rewritten_throughout() {
    let mut inner = vec![declare(VarDeclKind::Let, "w", "./w.wasm", "'./w.wasm'")];
    let mut expected = vec![import_from("w", "./w.wasm", "'./w.wasm'")];
    for depth in 0..64u64 {
        inner = vec![statement(depth), block(depth, vec![inner])];
        expected = vec![statement(depth), block(depth, vec![expected])];
    }
    assert_eq!(rewritten(inner), expected);
}

fn bound_in(items: &[ModuleItem]) -> Vec<(String, u32)> {
    let mut bound = Vec::new();
    for item in items {
        match item {
            ModuleItem::Var(decl) => {
                for d in &decl.decls {
                    if let Pat::Ident(id) = &d.name {
                        bound.push((id.sym.clone(), id.ctxt));
                    }
                }
            }
            ModuleItem::Import(import) => bound.push((import.local.sym.clone(), import.local.ctxt)),
            ModuleItem::Other(_) => {}
        }
    }
    bound
}

fn with_contexts() -> Vec<ModuleItem> {
    let bind = |sym: &str, ctxt: u32, value: &str| VarDeclarator {
        name: Pat::Ident(Ident { sym: sym.to_string(), ctxt }),
        init: Some(Expr::Str(text(value, value))),
    };
    vec![
        ModuleItem::Var(VarDecl { kind: VarDeclKind::Let, decls: vec![bind("a", 1, "./a.wasm")] }),
        statement(1),
        ModuleItem::Var(VarDecl {
            kind: VarDeclKind::Var,
            decls: vec![bind("b", 2, "./b.wasm"), bind("c", 3, "c")],
        }),
        ModuleItem::Var(VarDecl { kind: VarDeclKind::Const, decls: vec![bind("a", 4, "a.wasm")] }),
        ModuleItem::Var(VarDecl { kind: VarDeclKind::Const, decls: vec![bind("d", 5, "d")] }),
        import_from("e", "./e.wasm", "'./e.wasm'"),
    ]
}

#[test]
fn bindings_of_a_list_are_kept() {
    let before = bound_in(&with_contexts());
    let after = bound_in(&rewritten(with_contexts()));
    assert_eq!(after, before);
    assert_eq!(
        after,
        vec![
            ("a".to_string(), 1),
            ("b".to_string(), 2),
            ("c".to_string(), 3),
            ("a".to_string(), 4),
            ("d".to_string(), 5),
            ("e".to_string(), 0),
        ]
    );
}

#[test]
fn declaration_without_declarators_is_kept() {
    let empty = || ModuleItem::Var(VarDecl { kind: VarDeclKind::Let, decls: Vec::new() });
    assert_eq!(rewritten(vec![empty()]), vec![empty()]);
}

#[test]
fn crate_root_names_the_rewriter() {
    let mut items = scenario();
    variable_to_wasm_import::TransformVisitor.visit_mut_module_items(&mut items);
    assert_eq!(items, scenario_rewritten());
    let out = variable_to_wasm_import::process_transform(Program { body: scenario() });
    assert_eq!(out.body, scenario_rewritten());
}
