//! The analysis core exercised on hand-built programs: control-flow
//! facts, the diagnostic context, the run driver and the external-rule
//! boundary.

use lint_core::ast::{BinOp, Expr, Lit, Pat, Program, Stmt, SwitchCase, VarDeclarator};
use lint_core::cfg::ControlFlowGraph;
use lint_core::context::Context;
use lint_core::linter::{run, NativeRule};
use lint_core::plugin::{
    finish_invocation, query_control_flow, ModuleOutcome, PluginDiagnostic, PluginError,
    PluginRunState,
};
use lint_core::rules::no_non_null_assertion::NoNonNullAssertion;
use lint_core::rules::no_sparse_arrays::NoSparseArrays;
use lint_core::rules::prefer_as_const::PreferAsConst;
use lint_core::rules::use_isnan::UseIsNaN;
use lint_core::span::Span;

fn sp(lo: u32, hi: u32) -> Span {
    Span::new(lo, hi)
}

/// The model of `return 1; console.log(2);`.
fn return_then_log() -> Program {
    Program {
        stmts: vec![
            Stmt::Return {
                span: sp(0, 9),
                arg: Some(Expr::Lit { span: sp(7, 8), lit: Lit::Num { text: "1".to_string() } }),
            },
            Stmt::Expr {
                span: sp(10, 25),
                expr: Expr::Call {
                    span: sp(10, 24),
                    callee: Box::new(Expr::Member {
                        span: sp(10, 21),
                        obj: Box::new(Expr::Ident { span: sp(10, 17), sym: "console".to_string() }),
                    }),
                    args: vec![Expr::Lit { span: sp(22, 23), lit: Lit::Num { text: "2".to_string() } }],
                },
            },
        ],
    }
}

/// The model of `while (true) { break; } console.log(1);`.
fn loop_with_break() -> Program {
    Program {
        stmts: vec![
            Stmt::While {
                span: sp(0, 23),
                test: Expr::Lit { span: sp(7, 11), lit: Lit::Bool { value: true } },
                body: Box::new(Stmt::Block {
                    span: sp(13, 23),
                    stmts: vec![Stmt::Break { span: sp(15, 21) }],
                }),
            },
            Stmt::Expr {
                span: sp(24, 39),
                expr: Expr::Ident { span: sp(24, 38), sym: "console".to_string() },
            },
        ],
    }
}

#[test]
fn cfg_reachability_after_return() {
    let program = return_then_log();
    let graph = ControlFlowGraph::build(&program);
    let first = graph.meta(0).unwrap();
    assert!(first.stops_execution);
    assert!(!first.unreachable);
    let second = graph.meta(10).unwrap();
    assert!(second.unreachable);
}

#[test]
fn cfg_loop_restores_reachability() {
    let program = loop_with_break();
    let graph = ControlFlowGraph::build(&program);
    let loop_meta = graph.meta(0).unwrap();
    assert!(!loop_meta.stops_execution);
    let after = graph.meta(24).unwrap();
    assert!(!after.unreachable);
}

#[test]
fn cfg_endless_loop_stops_execution() {
    // `while (true) {}` with no break: the continuation is unreachable.
    let program = Program {
        stmts: vec![
            Stmt::While {
                span: sp(0, 16),
                test: Expr::Lit { span: sp(7, 11), lit: Lit::Bool { value: true } },
                body: Box::new(Stmt::Block { span: sp(14, 16), stmts: vec![] }),
            },
            Stmt::Expr { span: sp(17, 19), expr: Expr::Ident { span: sp(17, 18), sym: "x".to_string() } },
        ],
    };
    let graph = ControlFlowGraph::build(&program);
    assert!(graph.meta(0).unwrap().stops_execution);
    assert!(graph.meta(17).unwrap().unreachable);
}

#[test]
fn cfg_if_else_both_terminal() {
    // `if (x) return; else return; y;` — the continuation is unreachable.
    let program = Program {
        stmts: vec![
            Stmt::If {
                span: sp(0, 28),
                test: Expr::Ident { span: sp(4, 5), sym: "x".to_string() },
                cons: Box::new(Stmt::Return { span: sp(8, 15), arg: None }),
                alt: Some(Box::new(Stmt::Return { span: sp(21, 28), arg: None })),
            },
            Stmt::Expr { span: sp(29, 31), expr: Expr::Ident { span: sp(29, 30), sym: "y".to_string() } },
        ],
    };
    let graph = ControlFlowGraph::build(&program);
    assert!(graph.meta(0).unwrap().stops_execution);
    assert!(graph.meta(29).unwrap().unreachable);
}

#[test]
fn cfg_switch_with_default_all_terminal() {
    // `switch (x) { case 1: return; default: return; } y;`
    let program = Program {
        stmts: vec![
            Stmt::Switch {
                span: sp(0, 48),
                discriminant: Expr::Ident { span: sp(8, 9), sym: "x".to_string() },
                cases: vec![
                    SwitchCase {
                        span: sp(13, 28),
                        test: Some(Expr::Lit { span: sp(18, 19), lit: Lit::Num { text: "1".to_string() } }),
                        cons: vec![Stmt::Return { span: sp(21, 28), arg: None }],
                    },
                    SwitchCase {
                        span: sp(29, 46),
                        test: None,
                        cons: vec![Stmt::Return { span: sp(38, 45), arg: None }],
                    },
                ],
            },
            Stmt::Expr { span: sp(49, 51), expr: Expr::Ident { span: sp(49, 50), sym: "y".to_string() } },
        ],
    };
    let graph = ControlFlowGraph::build(&program);
    assert!(graph.meta(0).unwrap().stops_execution);
    assert!(graph.meta(49).unwrap().unreachable);
}

#[test]
fn cfg_nested_function_scope_is_fresh() {
    // `return; function f() { g(); }` — the nested body starts reachable.
    let program = Program {
        stmts: vec![
            Stmt::Return { span: sp(0, 7), arg: None },
            Stmt::Fn {
                span: sp(8, 30),
                body: vec![Stmt::Expr {
                    span: sp(24, 28),
                    expr: Expr::Ident { span: sp(24, 25), sym: "g".to_string() },
                }],
            },
        ],
    };
    let graph = ControlFlowGraph::build(&program);
    assert!(graph.meta(8).unwrap().unreachable);
    assert!(!graph.meta(24).unwrap().unreachable);
}

#[test]
fn cfg_unknown_position_has_no_information() {
    let graph = ControlFlowGraph::build(&return_then_log());
    assert!(graph.meta(999).is_none());
}

#[test]
fn cfg_build_is_idempotent() {
    let program = return_then_log();
    let g1 = ControlFlowGraph::build(&program);
    let g2 = ControlFlowGraph::build(&program);
    for pos in 0..40u32 {
        assert_eq!(g1.meta(pos), g2.meta(pos));
    }
}

#[test]
fn diagnostic_ordering_follows_rule_order() {
    // The sparse array sits before the NaN comparison in the source, yet
    // with rules `[use-isnan, no-sparse-arrays]` its diagnostic comes last.
    let program = Program {
        stmts: vec![
            Stmt::Expr {
                span: sp(0, 7),
                expr: Expr::Array {
                    span: sp(0, 6),
                    elems: vec![
                        Some(Expr::Lit { span: sp(1, 2), lit: Lit::Num { text: "1".to_string() } }),
                        None,
                        Some(Expr::Lit { span: sp(4, 5), lit: Lit::Num { text: "2".to_string() } }),
                    ],
                },
            },
            Stmt::Expr {
                span: sp(8, 19),
                expr: Expr::Bin {
                    span: sp(8, 18),
                    op: BinOp::EqEq,
                    left: Box::new(Expr::Ident { span: sp(8, 11), sym: "NaN".to_string() }),
                    right: Box::new(Expr::Ident { span: sp(15, 18), sym: "NaN".to_string() }),
                },
            },
        ],
    };
    let rules = vec![
        NativeRule::IsNaN(UseIsNaN::new()),
        NativeRule::SparseArrays(NoSparseArrays::new()),
    ];
    let ds = run(&rules, &program);
    assert_eq!(ds.len(), 3);
    assert_eq!(ds[0].rule_code, "use-isnan");
    assert_eq!(ds[0].span.lo, 8);
    assert_eq!(ds[1].rule_code, "use-isnan");
    assert_eq!(ds[1].span.lo, 8);
    assert_eq!(ds[2].rule_code, "no-sparse-arrays");
    assert_eq!(ds[2].span.lo, 0);
}

fn fresh_context() -> Context {
    Context::new(ControlFlowGraph::build(&Program { stmts: vec![] }))
}

#[test]
fn context_accumulates_in_insertion_order() {
    let mut ctx = fresh_context();
    ctx.add_diagnostic(sp(3, 4), "a".to_string(), "first".to_string());
    ctx.add_diagnostic_with_hint(sp(1, 2), "b".to_string(), "second".to_string(), "h".to_string());
    let ds = ctx.take_diagnostics();
    assert_eq!(ds.len(), 2);
    assert_eq!(ds[0].rule_code, "a");
    assert_eq!(ds[0].message, "first");
    assert_eq!(ds[0].hint, None);
    assert_eq!(ds[1].rule_code, "b");
    assert_eq!(ds[1].hint.as_deref(), Some("h"));
    // Taking hands ownership off: the context is empty afterwards.
    assert!(ctx.take_diagnostics().is_empty());
}

#[test]
fn unknown_rule_code_is_a_noop() {
    // The run asked for {"foo"}, but the loaded module registered nothing
    // and reported nothing: zero diagnostics, no error.
    let mut ctx = fresh_context();
    let state = PluginRunState::new();
    let err = finish_invocation(state, ModuleOutcome::Completed, &mut ctx);
    assert!(err.is_none());
    assert!(ctx.take_diagnostics().is_empty());
}

#[test]
fn boundary_round_trip_preserves_fields() {
    let mut ctx = fresh_context();
    let mut state = PluginRunState::new();
    state.register_rule_code("r".to_string());
    state.report_diagnostics(
        "r".to_string(),
        vec![PluginDiagnostic {
            span: sp(5, 10),
            message: "m".to_string(),
            hint: Some("h".to_string()),
        }],
    );
    let err = finish_invocation(state, ModuleOutcome::Completed, &mut ctx);
    assert!(err.is_none());
    assert_eq!(ctx.plugin_codes().len(), 1);
    assert_eq!(ctx.plugin_codes()[0], "r");
    let ds = ctx.take_diagnostics();
    assert_eq!(ds.len(), 1);
    assert_eq!(ds[0].rule_code, "r");
    assert_eq!(ds[0].span, sp(5, 10));
    assert_eq!(ds[0].message, "m");
    assert_eq!(ds[0].hint.as_deref(), Some("h"));
}

#[test]
fn invocations_are_isolated() {
    // First invocation registers "r" and reports one diagnostic.
    let mut ctx1 = fresh_context();
    let mut first = PluginRunState::new();
    first.register_rule_code("r".to_string());
    first.report_diagnostics(
        "r".to_string(),
        vec![PluginDiagnostic { span: sp(0, 1), message: "once".to_string(), hint: None }],
    );
    finish_invocation(first, ModuleOutcome::Completed, &mut ctx1);
    assert_eq!(ctx1.take_diagnostics().len(), 1);

    // The second invocation of the same module starts from an empty
    // per-invocation map: nothing of the first run leaks into it.
    let mut ctx2 = fresh_context();
    let second = PluginRunState::new();
    finish_invocation(second, ModuleOutcome::Completed, &mut ctx2);
    assert!(ctx2.take_diagnostics().is_empty());
}

#[test]
fn partial_results_survive_a_fault() {
    let mut ctx = fresh_context();
    let mut state = PluginRunState::new();
    state.register_rule_code("r".to_string());
    state.report_diagnostics(
        "r".to_string(),
        vec![PluginDiagnostic { span: sp(2, 3), message: "kept".to_string(), hint: None }],
    );
    let err = finish_invocation(
        state,
        ModuleOutcome::Faulted { error: PluginError::RuntimeFault },
        &mut ctx,
    );
    assert_eq!(err, Some(PluginError::RuntimeFault));
    let ds = ctx.take_diagnostics();
    assert_eq!(ds.len(), 1);
    assert_eq!(ds[0].message, "kept");
}

#[test]
fn each_fault_kind_is_reported() {
    for kind in [PluginError::MalformedInput, PluginError::LoadError, PluginError::RuntimeFault] {
        let mut ctx = fresh_context();
        let state = PluginRunState::new();
        let err = finish_invocation(state, ModuleOutcome::Faulted { error: kind }, &mut ctx);
        assert_eq!(err, Some(kind));
    }
}

#[test]
fn last_report_for_a_code_wins() {
    let mut ctx = fresh_context();
    let mut state = PluginRunState::new();
    state.report_diagnostics(
        "r".to_string(),
        vec![PluginDiagnostic { span: sp(0, 1), message: "old".to_string(), hint: None }],
    );
    state.report_diagnostics(
        "r".to_string(),
        vec![
            PluginDiagnostic { span: sp(1, 2), message: "new1".to_string(), hint: None },
            PluginDiagnostic { span: sp(2, 3), message: "new2".to_string(), hint: None },
        ],
    );
    finish_invocation(state, ModuleOutcome::Completed, &mut ctx);
    let ds = ctx.take_diagnostics();
    assert_eq!(ds.len(), 2);
    assert_eq!(ds[0].message, "new1");
    assert_eq!(ds[1].message, "new2");
}

#[test]
fn empty_rule_code_reports_are_ignored() {
    let mut ctx = fresh_context();
    let mut state = PluginRunState::new();
    state.report_diagnostics(
        "".to_string(),
        vec![PluginDiagnostic { span: sp(0, 1), message: "dropped".to_string(), hint: None }],
    );
    finish_invocation(state, ModuleOutcome::Completed, &mut ctx);
    assert!(ctx.take_diagnostics().is_empty());
}

#[test]
fn control_flow_queries_answer_from_the_graph() {
    let graph = ControlFlowGraph::build(&return_then_log());
    let ctx = Context::new(graph);
    let hit = query_control_flow(&ctx, sp(0, 9));
    assert_eq!(hit.is_reachable, Some(true));
    assert_eq!(hit.stops_execution, Some(true));
    let dead = query_control_flow(&ctx, sp(10, 25));
    assert_eq!(dead.is_reachable, Some(false));
    assert_eq!(dead.stops_execution, Some(false));
    let unknown = query_control_flow(&ctx, sp(500, 501));
    assert_eq!(unknown.is_reachable, None);
    assert_eq!(unknown.stops_execution, None);
}

#[test]
fn empty_program_produces_no_diagnostics() {
    let rules = vec![
        NativeRule::NonNullAssertion(NoNonNullAssertion::new()),
        NativeRule::SparseArrays(NoSparseArrays::new()),
        NativeRule::AsConst(PreferAsConst::new()),
        NativeRule::IsNaN(UseIsNaN::new()),
    ];
    let ds = run(&rules, &Program { stmts: vec![] });
    assert!(ds.is_empty());
}

#[test]
fn cfg_catch_is_potentially_reachable() {
    // `try { throw x; } catch { y; } z;` — the handler body and the
    // statement after the try stay reachable.
    let program = Program {
        stmts: vec![
            Stmt::Try {
                span: sp(0, 33),
                block: vec![Stmt::Throw {
                    span: sp(6, 14),
                    arg: Expr::Ident { span: sp(12, 13), sym: "x".to_string() },
                }],
                handler: Some(vec![Stmt::Expr {
                    span: sp(25, 27),
                    expr: Expr::Ident { span: sp(25, 26), sym: "y".to_string() },
                }]),
                finalizer: None,
            },
            Stmt::Expr { span: sp(34, 36), expr: Expr::Ident { span: sp(34, 35), sym: "z".to_string() } },
        ],
    };
    let graph = ControlFlowGraph::build(&program);
    assert!(!graph.meta(25).unwrap().unreachable);
    assert!(!graph.meta(34).unwrap().unreachable);
    assert!(graph.meta(6).unwrap().stops_execution);
}

#[test]
fn cfg_arrow_body_starts_fresh_scope() {
    // `return; let f = () => { g(); };` — the arrow body is reachable
    // even though the declaration around it is dead code.
    let program = Program {
        stmts: vec![
            Stmt::Return { span: sp(0, 7), arg: None },
            Stmt::VarDecl {
                span: sp(8, 31),
                decls: vec![VarDeclarator {
                    span: sp(12, 30),
                    name: Pat::Ident { span: sp(12, 13), type_ann: None },
                    init: Some(Expr::Arrow {
                        span: sp(16, 30),
                        body: vec![Stmt::Expr {
                            span: sp(24, 28),
                            expr: Expr::Ident { span: sp(24, 25), sym: "g".to_string() },
                        }],
                    }),
                }],
            },
        ],
    };
    let graph = ControlFlowGraph::build(&program);
    assert!(graph.meta(8).unwrap().unreachable);
    assert!(!graph.meta(24).unwrap().unreachable);
}

#[test]
fn native_rule_codes_are_stable() {
    assert_eq!(NativeRule::NonNullAssertion(NoNonNullAssertion::new()).code(), "no-non-null-assertion");
    assert_eq!(NativeRule::SparseArrays(NoSparseArrays::new()).code(), "no-sparse-arrays");
    assert_eq!(NativeRule::AsConst(PreferAsConst::new()).code(), "prefer-as-const");
    assert_eq!(NativeRule::IsNaN(UseIsNaN::new()).code(), "use-isnan");
}
