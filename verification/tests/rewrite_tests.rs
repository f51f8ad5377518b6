//! Tests of the closure-capture rewrite on concrete trees.

use clone_into_closure::ast::Arm;
use clone_into_closure::ast::Expr;
use clone_into_closure::ast::Pat;
use clone_into_closure::ast::Stmt;
use clone_into_closure::clone_into_closure;
use clone_into_closure::engine::rewrite_expr;
use clone_into_closure::engine::rewrite_stmt;

fn ident(name: &str) -> Pat {
    Pat::Ident { mutable: false, name: name.to_string() }
}

fn path(name: &str) -> Expr {
    Expr::PathRef { name: name.to_string() }
}

fn call(f: &str, args: Vec<Expr>) -> Expr {
    Expr::Call { func: Box::new(path(f)), args }
}

/// `let <name> = <f>();`
fn let_stmt(name: &str, f: &str) -> Stmt {
    Stmt::Local { pat: ident(name), init: Some(Box::new(call(f, vec![]))) }
}

/// The expected synthesized binding `let mut <name> = <name>.clone();`.
fn clone_stmt(name: &str) -> Stmt {
    Stmt::Local {
        pat: Pat::Ident { mutable: true, name: name.to_string() },
        init: Some(Box::new(Expr::MethodCall {
            receiver: Box::new(path(name)),
            method: "clone".to_string(),
            args: vec![],
        })),
    }
}

fn expr_stmt(e: Expr) -> Stmt {
    Stmt::Expr { expr: Box::new(e), semi: true }
}

fn tail_stmt(e: Expr) -> Stmt {
    Stmt::Expr { expr: Box::new(e), semi: false }
}

/// The closure body `{ use(a); use(b); }`.
fn use_body(names: &[&str]) -> Expr {
    Expr::Block {
        body: names.iter().map(|n| expr_stmt(call("use", vec![path(n)]))).collect(),
    }
}

#[test]
fn scenario_two_captures_and_extra_param() {
    // let a = X(); let b = Y(); invoke(move |(a, b), z| { use(a); use(b); }, w);
    let closure = Expr::Closure {
        params: vec![Pat::Tuple { elems: vec![ident("a"), ident("b")] }, ident("z")],
        body: Box::new(use_body(&["a", "b"])),
    };
    let mut body = vec![
        let_stmt("a", "X"),
        let_stmt("b", "Y"),
        expr_stmt(call("invoke", vec![closure, path("w")])),
    ];
    clone_into_closure(&mut body);

    let rewritten = Expr::Block {
        body: vec![
            clone_stmt("a"),
            clone_stmt("b"),
            tail_stmt(Expr::Closure {
                params: vec![ident("z")],
                body: Box::new(use_body(&["a", "b"])),
            }),
        ],
    };
    let expected = vec![
        let_stmt("a", "X"),
        let_stmt("b", "Y"),
        expr_stmt(call("invoke", vec![rewritten, path("w")])),
    ];
    assert_eq!(body, expected);
}

#[test]
fn scenario_tuple_only_param() {
    // move |(a, b)| { ... } with no second parameter: the new closure has
    // zero parameters and two synthesized bindings precede it.
    let closure = Expr::Closure {
        params: vec![Pat::Tuple { elems: vec![ident("a"), ident("b")] }],
        body: Box::new(use_body(&["a", "b"])),
    };
    let out = rewrite_expr(closure);
    let expected = Expr::Block {
        body: vec![
            clone_stmt("a"),
            clone_stmt("b"),
            tail_stmt(Expr::Closure { params: vec![], body: Box::new(use_body(&["a", "b"])) }),
        ],
    };
    assert_eq!(out, expected);
}

#[test]
fn scenario_nested_tuple_untouched() {
    // move |(a, (b, c))| { ... }: the trigger fails because one element is
    // not a plain identifier, so the closure stays; only its body is
    // traversed.
    let params = || {
        let nested = Pat::Tuple { elems: vec![ident("b"), ident("c")] };
        vec![Pat::Tuple { elems: vec![ident("a"), nested] }]
    };
    let inner_trigger = Expr::Closure {
        params: vec![Pat::Tuple { elems: vec![ident("d")] }],
        body: Box::new(use_body(&["d"])),
    };
    let closure = Expr::Closure {
        params: params(),
        body: Box::new(Expr::Block { body: vec![tail_stmt(inner_trigger)] }),
    };
    let out = rewrite_expr(closure);

    let inner_rewritten = Expr::Block {
        body: vec![
            clone_stmt("d"),
            tail_stmt(Expr::Closure { params: vec![], body: Box::new(use_body(&["d"])) }),
        ],
    };
    let expected = Expr::Closure {
        params: params(),
        body: Box::new(Expr::Block { body: vec![tail_stmt(inner_rewritten)] }),
    };
    assert_eq!(out, expected);
}

#[test]
fn three_captures_order_and_arity() {
    // A tuple of three identifiers and two further parameters: exactly
    // three bindings in pattern order, parameter count reduced by one.
    let closure = Expr::Closure {
        params: vec![
            Pat::Tuple { elems: vec![ident("x"), ident("y"), ident("z")] },
            ident("u"),
            ident("v"),
        ],
        body: Box::new(Expr::Lit),
    };
    let out = rewrite_expr(closure);
    match out {
        Expr::Block { body } => {
            assert_eq!(body.len(), 4);
            assert_eq!(body[0], clone_stmt("x"));
            assert_eq!(body[1], clone_stmt("y"));
            assert_eq!(body[2], clone_stmt("z"));
            assert_eq!(
                body[3],
                tail_stmt(Expr::Closure {
                    params: vec![ident("u"), ident("v")],
                    body: Box::new(Expr::Lit),
                })
            );
        }
        other => panic!("expected a block, got {:?}", other),
    }
}

#[test]
fn second_pass_is_noop() {
    let closure = Expr::Closure {
        params: vec![Pat::Tuple { elems: vec![ident("a"), ident("b")] }, ident("z")],
        body: Box::new(use_body(&["a", "b"])),
    };
    let mut body = vec![
        let_stmt("a", "X"),
        expr_stmt(call("invoke", vec![closure, path("w")])),
    ];
    clone_into_closure(&mut body);

    let closure2 = Expr::Closure {
        params: vec![Pat::Tuple { elems: vec![ident("a"), ident("b")] }, ident("z")],
        body: Box::new(use_body(&["a", "b"])),
    };
    let mut twice = vec![
        let_stmt("a", "X"),
        expr_stmt(call("invoke", vec![closure2, path("w")])),
    ];
    clone_into_closure(&mut twice);
    clone_into_closure(&mut twice);

    assert_eq!(twice, body);
}

#[test]
fn nested_trigger_inside_trigger() {
    // A triggering closure inside the body of another triggering closure
    // is rewritten independently, inside the outer block's tail closure.
    let inner = Expr::Closure {
        params: vec![Pat::Tuple { elems: vec![ident("b")] }],
        body: Box::new(use_body(&["b"])),
    };
    let outer = Expr::Closure {
        params: vec![Pat::Tuple { elems: vec![ident("a")] }],
        body: Box::new(Expr::Block {
            body: vec![expr_stmt(call("spawn", vec![inner]))],
        }),
    };
    let out = rewrite_expr(outer);

    let inner_rewritten = Expr::Block {
        body: vec![
            clone_stmt("b"),
            tail_stmt(Expr::Closure { params: vec![], body: Box::new(use_body(&["b"])) }),
        ],
    };
    let expected = Expr::Block {
        body: vec![
            clone_stmt("a"),
            tail_stmt(Expr::Closure {
                params: vec![],
                body: Box::new(Expr::Block {
                    body: vec![expr_stmt(call("spawn", vec![inner_rewritten]))],
                }),
            }),
        ],
    };
    assert_eq!(out, expected);
}

#[test]
fn statements_around_rewrite_kept() {
    // Statement order and content outside the rewritten closure are
    // preserved exactly, including opaque item and macro statements.
    let closure = Expr::Closure {
        params: vec![Pat::Tuple { elems: vec![ident("a")] }],
        body: Box::new(Expr::Lit),
    };
    let mut body = vec![
        Stmt::Item,
        let_stmt("a", "X"),
        Stmt::MacroCall,
        tail_stmt(closure),
        expr_stmt(path("after")),
    ];
    clone_into_closure(&mut body);
    let expected = vec![
        Stmt::Item,
        let_stmt("a", "X"),
        Stmt::MacroCall,
        tail_stmt(Expr::Block {
            body: vec![
                clone_stmt("a"),
                tail_stmt(Expr::Closure { params: vec![], body: Box::new(Expr::Lit) }),
            ],
        }),
        expr_stmt(path("after")),
    ];
    assert_eq!(body, expected);
}

#[test]
fn empty_tuple_does_not_trigger() {
    let closure = Expr::Closure {
        params: vec![Pat::Tuple { elems: vec![] }],
        body: Box::new(Expr::Lit),
    };
    let out = rewrite_expr(closure);
    let expected = Expr::Closure {
        params: vec![Pat::Tuple { elems: vec![] }],
        body: Box::new(Expr::Lit),
    };
    assert_eq!(out, expected);
}

#[test]
fn mut_ident_element_does_not_trigger() {
    // A `mut` qualifier on a tuple element fails the plain-identifier test.
    let params = || {
        vec![Pat::Tuple {
            elems: vec![ident("a"), Pat::Ident { mutable: true, name: "b".to_string() }],
        }]
    };
    let closure = Expr::Closure { params: params(), body: Box::new(Expr::Lit) };
    let out = rewrite_expr(closure);
    assert_eq!(out, Expr::Closure { params: params(), body: Box::new(Expr::Lit) });
}

#[test]
fn opaque_element_does_not_trigger() {
    let params = || vec![Pat::Tuple { elems: vec![ident("a"), Pat::Opaque] }];
    let closure = Expr::Closure { params: params(), body: Box::new(Expr::Lit) };
    let out = rewrite_expr(closure);
    assert_eq!(out, Expr::Closure { params: params(), body: Box::new(Expr::Lit) });
}

#[test]
fn no_parameters_does_not_trigger() {
    let closure = Expr::Closure { params: vec![], body: Box::new(Expr::Lit) };
    let out = rewrite_expr(closure);
    assert_eq!(out, Expr::Closure { params: vec![], body: Box::new(Expr::Lit) });
}

#[test]
fn non_tuple_first_param_descends_body_only() {
    let inner = Expr::Closure {
        params: vec![Pat::Tuple { elems: vec![ident("c")] }],
        body: Box::new(Expr::Lit),
    };
    let closure = Expr::Closure { params: vec![ident("x")], body: Box::new(inner) };
    let out = rewrite_expr(closure);
    let inner_rewritten = Expr::Block {
        body: vec![
            clone_stmt("c"),
            tail_stmt(Expr::Closure { params: vec![], body: Box::new(Expr::Lit) }),
        ],
    };
    assert_eq!(
        out,
        Expr::Closure { params: vec![ident("x")], body: Box::new(inner_rewritten) }
    );
}

#[test]
fn single_capture_no_extra_params() {
    let closure = Expr::Closure {
        params: vec![Pat::Tuple { elems: vec![ident("a")] }],
        body: Box::new(use_body(&["a"])),
    };
    let out = rewrite_expr(closure);
    let expected = Expr::Block {
        body: vec![
            clone_stmt("a"),
            tail_stmt(Expr::Closure { params: vec![], body: Box::new(use_body(&["a"])) }),
        ],
    };
    assert_eq!(out, expected);
}

#[test]
fn trigger_found_under_wrappers() {
    // The walk reaches a closure buried under reference, paren and await
    // wrappers and under a break payload.
    let trigger = Expr::Closure {
        params: vec![Pat::Tuple { elems: vec![ident("a")] }],
        body: Box::new(Expr::Lit),
    };
    let wrapped = Expr::Reference {
        target: Box::new(Expr::Paren {
            inner: Box::new(Expr::Await {
                base: Box::new(Expr::Break { value: Some(Box::new(trigger)) }),
            }),
        }),
    };
    let out = rewrite_expr(wrapped);
    let rewritten = Expr::Block {
        body: vec![
            clone_stmt("a"),
            tail_stmt(Expr::Closure { params: vec![], body: Box::new(Expr::Lit) }),
        ],
    };
    let expected = Expr::Reference {
        target: Box::new(Expr::Paren {
            inner: Box::new(Expr::Await {
                base: Box::new(Expr::Break { value: Some(Box::new(rewritten)) }),
            }),
        }),
    };
    assert_eq!(out, expected);
}

#[test]
fn match_guard_and_arm_body_descended() {
    let guard_trigger = Expr::Closure {
        params: vec![Pat::Tuple { elems: vec![ident("g")] }],
        body: Box::new(Expr::Lit),
    };
    let arm_trigger = Expr::Closure {
        params: vec![Pat::Tuple { elems: vec![ident("h")] }],
        body: Box::new(Expr::Lit),
    };
    let m = Expr::Match {
        scrutinee: Box::new(path("s")),
        arms: vec![Arm {
            pat: Pat::Opaque,
            guard: Some(Box::new(call("check", vec![guard_trigger]))),
            body: Box::new(call("run", vec![arm_trigger])),
        }],
    };
    let out = rewrite_expr(m);

    let g_rewritten = Expr::Block {
        body: vec![
            clone_stmt("g"),
            tail_stmt(Expr::Closure { params: vec![], body: Box::new(Expr::Lit) }),
        ],
    };
    let h_rewritten = Expr::Block {
        body: vec![
            clone_stmt("h"),
            tail_stmt(Expr::Closure { params: vec![], body: Box::new(Expr::Lit) }),
        ],
    };
    let expected = Expr::Match {
        scrutinee: Box::new(path("s")),
        arms: vec![Arm {
            pat: Pat::Opaque,
            guard: Some(Box::new(call("check", vec![g_rewritten]))),
            body: Box::new(call("run", vec![h_rewritten])),
        }],
    };
    assert_eq!(out, expected);
}

#[test]
fn local_without_initializer_kept() {
    let s = Stmt::Local { pat: ident("a"), init: None };
    let out = rewrite_stmt(s);
    assert_eq!(out, Stmt::Local { pat: ident("a"), init: None });
}

#[test]
fn empty_body_unchanged() {
    let mut body: Vec<Stmt> = vec![];
    clone_into_closure(&mut body);
    assert_eq!(body, Vec::<Stmt>::new());
}

#[test]
fn loop_bodies_descended() {
    let trigger = Expr::Closure {
        params: vec![Pat::Tuple { elems: vec![ident("a")] }],
        body: Box::new(Expr::Lit),
    };
    let w = Expr::While {
        cond: Box::new(path("go")),
        body: vec![expr_stmt(call("push", vec![trigger]))],
    };
    let out = rewrite_expr(w);
    let rewritten = Expr::Block {
        body: vec![
            clone_stmt("a"),
            tail_stmt(Expr::Closure { params: vec![], body: Box::new(Expr::Lit) }),
        ],
    };
    let expected = Expr::While {
        cond: Box::new(path("go")),
        body: vec![expr_stmt(call("push", vec![rewritten]))],
    };
    assert_eq!(out, expected);
}

#[test]
fn second_tuple_parameter_becomes_new_trigger() {
    // When a triggering closure's second parameter is itself a tuple of
    // plain identifiers, removing the first parameter exposes it: a second
    // pass rewrites again.  This is the one shape on which re-application
    // is not a no-op.
    let closure = Expr::Closure {
        params: vec![
            Pat::Tuple { elems: vec![ident("a")] },
            Pat::Tuple { elems: vec![ident("c"), ident("d")] },
        ],
        body: Box::new(Expr::Lit),
    };
    let once = rewrite_expr(closure);
    let expected_once = Expr::Block {
        body: vec![
            clone_stmt("a"),
            tail_stmt(Expr::Closure {
                params: vec![Pat::Tuple { elems: vec![ident("c"), ident("d")] }],
                body: Box::new(Expr::Lit),
            }),
        ],
    };
    assert_eq!(once, expected_once);

    let twice = rewrite_expr(once);
    let expected_twice = Expr::Block {
        body: vec![
            clone_stmt("a"),
            tail_stmt(Expr::Block {
                body: vec![
                    clone_stmt("c"),
                    clone_stmt("d"),
                    tail_stmt(Expr::Closure { params: vec![], body: Box::new(Expr::Lit) }),
                ],
            }),
        ],
    };
    assert_eq!(twice, expected_twice);
}
