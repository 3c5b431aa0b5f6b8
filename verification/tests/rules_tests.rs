//! The built-in rules, run over programs parsed by the external parser
//! and adapted into the crate's program model.

use deno_ast::swc::ast as sa;
use deno_ast::swc::common::Spanned;
use lint_core::ast::{BinOp, Expr, Lit, Pat, Program, Stmt, SwitchCase, TsLit, TsType, VarDeclarator};
use lint_core::diagnostic::Diagnostic;
use lint_core::linter::{run, NativeRule};
use lint_core::rules::no_non_null_assertion::NoNonNullAssertion;
use lint_core::rules::no_sparse_arrays::NoSparseArrays;
use lint_core::rules::prefer_as_const::PreferAsConst;
use lint_core::rules::use_isnan::UseIsNaN;
use lint_core::span::Span;

// ---------------------------------------------------------------------
// Adapter: external parse tree -> program model.
// ---------------------------------------------------------------------

fn conv_span(s: deno_ast::swc::common::Span) -> Span {
    // The parser starts every source at byte position 1.
    Span::new(s.lo.0 - 1, s.hi.0 - 1)
}

fn conv_stmts(stmts: &[sa::Stmt]) -> Vec<Stmt> {
    stmts.iter().map(conv_stmt).collect()
}

fn conv_stmt(s: &sa::Stmt) -> Stmt {
    match s {
        sa::Stmt::Expr(es) => Stmt::Expr { span: conv_span(es.span), expr: conv_expr(&es.expr) },
        sa::Stmt::Return(r) => Stmt::Return {
            span: conv_span(r.span),
            arg: r.arg.as_deref().map(conv_expr),
        },
        sa::Stmt::Throw(t) => Stmt::Throw { span: conv_span(t.span), arg: conv_expr(&t.arg) },
        sa::Stmt::Break(b) => Stmt::Break { span: conv_span(b.span) },
        sa::Stmt::Continue(c) => Stmt::Continue { span: conv_span(c.span) },
        sa::Stmt::Block(b) => Stmt::Block { span: conv_span(b.span), stmts: conv_stmts(&b.stmts) },
        sa::Stmt::If(i) => Stmt::If {
            span: conv_span(i.span),
            test: conv_expr(&i.test),
            cons: Box::new(conv_stmt(&i.cons)),
            alt: i.alt.as_deref().map(|a| Box::new(conv_stmt(a))),
        },
        sa::Stmt::While(w) => Stmt::While {
            span: conv_span(w.span),
            test: conv_expr(&w.test),
            body: Box::new(conv_stmt(&w.body)),
        },
        sa::Stmt::Switch(sw) => Stmt::Switch {
            span: conv_span(sw.span),
            discriminant: conv_expr(&sw.discriminant),
            cases: sw.cases.iter().map(conv_case).collect(),
        },
        sa::Stmt::Try(t) => Stmt::Try {
            span: conv_span(t.span),
            block: conv_stmts(&t.block.stmts),
            handler: t.handler.as_ref().map(|h| conv_stmts(&h.body.stmts)),
            finalizer: t.finalizer.as_ref().map(|f| conv_stmts(&f.stmts)),
        },
        sa::Stmt::Decl(sa::Decl::Var(v)) => Stmt::VarDecl {
            span: conv_span(v.span),
            decls: v.decls.iter().map(conv_declarator).collect(),
        },
        sa::Stmt::Decl(sa::Decl::Fn(f)) => Stmt::Fn {
            span: conv_span(f.function.span),
            body: f
                .function
                .body
                .as_ref()
                .map(|b| conv_stmts(&b.stmts))
                .unwrap_or_default(),
        },
        other => Stmt::Other { span: conv_span(other.span()) },
    }
}

fn conv_case(c: &sa::SwitchCase) -> SwitchCase {
    SwitchCase {
        span: conv_span(c.span),
        test: c.test.as_deref().map(conv_expr),
        cons: conv_stmts(&c.cons),
    }
}

fn conv_declarator(d: &sa::VarDeclarator) -> VarDeclarator {
    VarDeclarator {
        span: conv_span(d.span),
        name: conv_pat(&d.name),
        init: d.init.as_deref().map(conv_expr),
    }
}

fn conv_type_ann(ta: &Option<Box<sa::TsTypeAnn>>) -> Option<TsType> {
    ta.as_ref().map(|t| conv_ts_type(&t.type_ann))
}

fn conv_pat(p: &sa::Pat) -> Pat {
    match p {
        sa::Pat::Ident(bi) => Pat::Ident {
            span: conv_span(bi.span()),
            type_ann: conv_type_ann(&bi.type_ann),
        },
        sa::Pat::Array(ap) => Pat::Array {
            span: conv_span(ap.span),
            type_ann: conv_type_ann(&ap.type_ann),
        },
        sa::Pat::Object(op) => Pat::Object {
            span: conv_span(op.span),
            type_ann: conv_type_ann(&op.type_ann),
        },
        other => Pat::Other { span: conv_span(other.span()) },
    }
}

fn num_text(value: f64) -> String {
    value.to_string()
}

fn conv_lit(l: &sa::Lit) -> Lit {
    match l {
        sa::Lit::Str(s) => Lit::Str { value: s.value.to_atom_lossy().to_string() },
        sa::Lit::Num(n) => Lit::Num { text: num_text(n.value) },
        sa::Lit::Bool(b) => Lit::Bool { value: b.value },
        sa::Lit::Null(_) => Lit::Null,
        _ => Lit::Other,
    }
}

fn conv_ts_type(t: &sa::TsType) -> TsType {
    match t {
        sa::TsType::TsLitType(lt) => {
            let lit = match &lt.lit {
                sa::TsLit::Str(s) => TsLit::Str { value: s.value.to_atom_lossy().to_string() },
                sa::TsLit::Number(n) => TsLit::Num { text: num_text(n.value) },
                _ => TsLit::Other,
            };
            TsType::Lit { span: conv_span(lt.span), lit }
        }
        other => TsType::Other { span: conv_span(other.span()) },
    }
}

fn conv_op(op: sa::BinaryOp) -> BinOp {
    match op {
        sa::BinaryOp::EqEq => BinOp::EqEq,
        sa::BinaryOp::NotEq => BinOp::NotEq,
        sa::BinaryOp::EqEqEq => BinOp::EqEqEq,
        sa::BinaryOp::NotEqEq => BinOp::NotEqEq,
        sa::BinaryOp::Lt => BinOp::Lt,
        sa::BinaryOp::LtEq => BinOp::LtEq,
        sa::BinaryOp::Gt => BinOp::Gt,
        sa::BinaryOp::GtEq => BinOp::GtEq,
        _ => BinOp::Other,
    }
}

fn conv_exprs(args: &[sa::ExprOrSpread]) -> Vec<Expr> {
    args.iter().map(|a| conv_expr(&a.expr)).collect()
}

fn conv_expr(e: &sa::Expr) -> Expr {
    match e {
        sa::Expr::Ident(id) => Expr::Ident { span: conv_span(id.span), sym: id.sym.to_string() },
        sa::Expr::Lit(l) => Expr::Lit { span: conv_span(l.span()), lit: conv_lit(l) },
        sa::Expr::Array(a) => Expr::Array {
            span: conv_span(a.span),
            elems: a
                .elems
                .iter()
                .map(|el| el.as_ref().map(|eos| conv_expr(&eos.expr)))
                .collect(),
        },
        sa::Expr::Object(o) => Expr::Object {
            span: conv_span(o.span),
            props: o
                .props
                .iter()
                .filter_map(|p| match p {
                    sa::PropOrSpread::Prop(prop) => match &**prop {
                        sa::Prop::Shorthand(id) => Some(Expr::Ident {
                            span: conv_span(id.span),
                            sym: id.sym.to_string(),
                        }),
                        sa::Prop::KeyValue(kv) => Some(conv_expr(&kv.value)),
                        _ => None,
                    },
                    sa::PropOrSpread::Spread(sp) => Some(conv_expr(&sp.expr)),
                })
                .collect(),
        },
        sa::Expr::Unary(u) => Expr::Unary { span: conv_span(u.span), arg: Box::new(conv_expr(&u.arg)) },
        sa::Expr::Bin(b) => Expr::Bin {
            span: conv_span(b.span),
            op: conv_op(b.op),
            left: Box::new(conv_expr(&b.left)),
            right: Box::new(conv_expr(&b.right)),
        },
        sa::Expr::Member(m) => Expr::Member {
            span: conv_span(m.span),
            obj: Box::new(conv_expr(&m.obj)),
        },
        sa::Expr::OptChain(oc) => Expr::OptChain {
            span: conv_span(oc.span),
            base: Box::new(match &*oc.base {
                sa::OptChainBase::Member(m) => Expr::Member {
                    span: conv_span(m.span),
                    obj: Box::new(conv_expr(&m.obj)),
                },
                sa::OptChainBase::Call(c) => Expr::Call {
                    span: conv_span(c.span),
                    callee: Box::new(conv_expr(&c.callee)),
                    args: conv_exprs(&c.args),
                },
            }),
        },
        sa::Expr::Call(c) => Expr::Call {
            span: conv_span(c.span),
            callee: Box::new(match &c.callee {
                sa::Callee::Expr(ce) => conv_expr(ce),
                other => Expr::Other { span: conv_span(other.span()) },
            }),
            args: conv_exprs(&c.args),
        },
        sa::Expr::TsNonNull(nn) => Expr::NonNull {
            span: conv_span(nn.span),
            expr: Box::new(conv_expr(&nn.expr)),
        },
        sa::Expr::TsAs(a) => Expr::TsAs {
            span: conv_span(a.span),
            expr: Box::new(conv_expr(&a.expr)),
            type_ann: conv_ts_type(&a.type_ann),
        },
        sa::Expr::TsTypeAssertion(a) => Expr::TsTypeAssertion {
            span: conv_span(a.span),
            expr: Box::new(conv_expr(&a.expr)),
            type_ann: conv_ts_type(&a.type_ann),
        },
        sa::Expr::Paren(p) => Expr::Paren { span: conv_span(p.span), expr: Box::new(conv_expr(&p.expr)) },
        sa::Expr::Arrow(ar) => Expr::Arrow {
            span: conv_span(ar.span),
            body: match &*ar.body {
                sa::BlockStmtOrExpr::BlockStmt(b) => conv_stmts(&b.stmts),
                sa::BlockStmtOrExpr::Expr(be) => vec![Stmt::Return {
                    span: conv_span(be.span()),
                    arg: Some(conv_expr(be)),
                }],
            },
        },
        other => Expr::Other { span: conv_span(other.span()) },
    }
}

// ---------------------------------------------------------------------
// Harness.
// ---------------------------------------------------------------------

pub fn parse_model(src: &str) -> Option<Program> {
    let parsed = deno_ast::parse_program(deno_ast::ParseParams {
        specifier: deno_ast::ModuleSpecifier::parse("file:///test_input.ts").unwrap(),
        text: src.into(),
        media_type: deno_ast::MediaType::TypeScript,
        capture_tokens: false,
        scope_analysis: false,
        maybe_syntax: None,
    })
    .ok()?;
    let stmts = match parsed.program_ref() {
        deno_ast::ProgramRef::Module(m) => m
            .body
            .iter()
            .filter_map(|item| match item {
                sa::ModuleItem::Stmt(s) => Some(conv_stmt(s)),
                sa::ModuleItem::ModuleDecl(_) => None,
            })
            .collect(),
        deno_ast::ProgramRef::Script(s) => conv_stmts(&s.body),
    };
    Some(Program { stmts })
}

fn line_col(src: &str, lo: u32) -> (usize, usize) {
    let bytes = src.as_bytes();
    let lo = lo as usize;
    let mut line = 1usize;
    let mut line_start = 0usize;
    for (idx, b) in bytes.iter().enumerate().take(lo) {
        if *b == b'\n' {
            line += 1;
            line_start = idx + 1;
        }
    }
    (line, lo - line_start)
}

struct Expected {
    line: usize,
    col: usize,
    message: &'static str,
    hint: Option<&'static str>,
}

fn exp(line: usize, col: usize, message: &'static str, hint: Option<&'static str>) -> Expected {
    Expected { line, col, message, hint }
}

fn make_rule(code: &str) -> NativeRule {
    match code {
        "no-non-null-assertion" => NativeRule::NonNullAssertion(NoNonNullAssertion::new()),
        "no-sparse-arrays" => NativeRule::SparseArrays(NoSparseArrays::new()),
        "prefer-as-const" => NativeRule::AsConst(PreferAsConst::new()),
        "use-isnan" => NativeRule::IsNaN(UseIsNaN::new()),
        _ => panic!("unknown rule code"),
    }
}

fn lint_source(code: &str, src: &str) -> Vec<Diagnostic> {
    match parse_model(src) {
        Some(p) => run(&vec![make_rule(code)], &p),
        None => Vec::new(),
    }
}

fn assert_lint_ok(code: &str, sources: &[&str]) {
    for src in sources {
        let ds = lint_source(code, src);
        assert!(
            ds.is_empty(),
            "expected no diagnostics for {:?}, got {} at {:?}",
            src,
            ds.len(),
            ds.first().map(|d| d.span.lo)
        );
    }
}

fn assert_lint_err(code: &str, src: &str, expected: &[Expected]) {
    let ds = lint_source(code, src);
    assert_eq!(ds.len(), expected.len(), "diagnostic count for {:?}", src);
    for (d, e) in ds.iter().zip(expected.iter()) {
        assert_eq!(d.rule_code, code, "rule code for {:?}", src);
        let (line, col) = line_col(src, d.span.lo);
        assert_eq!(line, e.line, "line for {:?}", src);
        assert_eq!(col, e.col, "col for {:?}", src);
        assert_eq!(d.message, e.message, "message for {:?}", src);
        assert_eq!(d.hint.as_deref(), e.hint, "hint for {:?}", src);
    }
}

const NN: &str = "no-non-null-assertion";
const NN_MSG: &str = "do not use non-null assertion";
const NSA: &str = "no-sparse-arrays";
const NSA_MSG: &str = "Sparse arrays are not allowed";
const PAC: &str = "prefer-as-const";
const PAC_MSG: &str = "Expected a `const` assertion instead of a literal type annotation";
const PAC_HINT: &str = "Remove a literal type annotation and add `as const`";
const UIN: &str = "use-isnan";
const UIN_CMP: &str = "Use the isNaN function to compare with NaN";
const UIN_SWITCH: &str =
    "'switch(NaN)' can never match a case clause. Use Number.isNaN instead of the switch";
const UIN_CASE: &str = "'case NaN' can never match. Use Number.isNaN before the switch";

// ---------------------------------------------------------------------
// The rule tests.
// ---------------------------------------------------------------------

#[test]
fn no_non_null_assertion_valid() {
    assert_lint_ok(
        NN,
        &[
            "instance.doWork();",
            "foo.bar?.includes('baz')",
            "x;",
            "x.y;",
            "x.y.z;",
            "x?.y.z;",
            "x?.y?.z;",
            "!x;",
        ],
    );
}

#[test]
fn no_non_null_assertion_invalid() {
    assert_lint_err(NN, r#"instance!.doWork()"#, &[exp(1, 0, NN_MSG, None)]);
    assert_lint_err(NN, r#"foo.bar!.includes('baz');"#, &[exp(1, 0, NN_MSG, None)]);
    assert_lint_err(NN, r#"x.y.z!?.();"#, &[exp(1, 0, NN_MSG, None)]);
    assert_lint_err(NN, r#"x!?.y.z;"#, &[exp(1, 0, NN_MSG, None)]);
    assert_lint_err(NN, r#"x!?.[y].z;"#, &[exp(1, 0, NN_MSG, None)]);
    assert_lint_err(NN, r#"x.y.z!!();"#, &[exp(1, 0, NN_MSG, None)]);
    assert_lint_err(NN, r#"x.y!!;"#, &[exp(1, 0, NN_MSG, None)]);
    assert_lint_err(NN, r#"x!!.y;"#, &[exp(1, 0, NN_MSG, None)]);
    assert_lint_err(NN, r#"x!!!;"#, &[exp(1, 0, NN_MSG, None)]);
    assert_lint_err(NN, r#"x.y?.z!();"#, &[exp(1, 0, NN_MSG, None)]);
    assert_lint_err(NN, r#"x.y.z!();"#, &[exp(1, 0, NN_MSG, None)]);
    assert_lint_err(NN, r#"x![y]?.z;"#, &[exp(1, 0, NN_MSG, None)]);
    assert_lint_err(NN, r#"x![y];"#, &[exp(1, 0, NN_MSG, None)]);
    assert_lint_err(NN, r#"!x!.y;"#, &[exp(1, 1, NN_MSG, None)]);
    assert_lint_err(NN, r#"x!.y?.z;"#, &[exp(1, 0, NN_MSG, None)]);
    assert_lint_err(NN, r#"x.y!;"#, &[exp(1, 0, NN_MSG, None)]);
    assert_lint_err(NN, r#"x!.y;"#, &[exp(1, 0, NN_MSG, None)]);
    assert_lint_err(NN, r#"x!;"#, &[exp(1, 0, NN_MSG, None)]);
}

#[test]
fn no_sparse_arrays_valid() {
    assert_lint_ok(NSA, &["const sparseArray1 = [1,null,3];"]);
}

#[test]
fn no_sparse_arrays_invalid() {
    assert_lint_err(
        NSA,
        r#"const sparseArray = [1,,3];"#,
        &[exp(1, 20, NSA_MSG, None)],
    );
}

#[test]
fn prefer_as_const_valid() {
    assert_lint_ok(
        PAC,
        &[
            "let foo = 'baz' as const;",
            "let foo = 1 as const;",
            "let foo = { bar: 'baz' as const };",
            "let foo = { bar: 1 as const };",
            "let foo = { bar: 'baz' };",
            "let foo = { bar: 2 };",
            "let foo = <bar>'bar';",
            "let foo = <string>'bar';",
            "let foo = 'bar' as string;",
            "let foo = `bar` as `bar`;",
            "let foo = `bar` as `foo`;",
            "let foo = `bar` as 'bar';",
            "let foo: string = 'bar';",
            "let foo: number = 1;",
            "let foo: 'bar' = baz;",
            "let foo = 'bar';",
            "class foo { bar: 'baz' = 'baz'; }",
            "class foo { bar = 'baz'; }",
            "let foo: 'bar';",
            "let foo = { bar };",
            "let foo: 'baz' = 'baz' as const;",
            "const",
            "let",
            "var",
        ],
    );
}

#[test]
fn prefer_as_const_invalid() {
    assert_lint_err(
        PAC,
        "let foo = { bar: 'baz' as 'baz' };",
        &[exp(1, 26, PAC_MSG, Some(PAC_HINT))],
    );
    assert_lint_err(
        PAC,
        "let foo = { bar: 1 as 1 };",
        &[exp(1, 22, PAC_MSG, Some(PAC_HINT))],
    );
    assert_lint_err(PAC, "let [x]: 'bar' = 'bar';", &[exp(1, 9, PAC_MSG, Some(PAC_HINT))]);
    assert_lint_err(PAC, "let {x}: 'bar' = 'bar';", &[exp(1, 9, PAC_MSG, Some(PAC_HINT))]);
    assert_lint_err(PAC, "let foo: 'bar' = 'bar';", &[exp(1, 9, PAC_MSG, Some(PAC_HINT))]);
    assert_lint_err(PAC, "let foo: 2 = 2;", &[exp(1, 9, PAC_MSG, Some(PAC_HINT))]);
    assert_lint_err(
        PAC,
        "let foo: 'bar' = 'bar' as 'bar';",
        &[exp(1, 26, PAC_MSG, Some(PAC_HINT))],
    );
    assert_lint_err(PAC, "let foo = <'bar'>'bar';", &[exp(1, 11, PAC_MSG, Some(PAC_HINT))]);
    assert_lint_err(PAC, "let foo = <4>4;", &[exp(1, 11, PAC_MSG, Some(PAC_HINT))]);
    assert_lint_err(PAC, "let foo = 'bar' as 'bar';", &[exp(1, 19, PAC_MSG, Some(PAC_HINT))]);
    assert_lint_err(PAC, "let foo = 5 as 5;", &[exp(1, 15, PAC_MSG, Some(PAC_HINT))]);
    assert_lint_err(
        PAC,
        "let foo: 1.23456 = 1.23456;",
        &[exp(1, 9, PAC_MSG, Some(PAC_HINT))],
    );
    assert_lint_err(
        PAC,
        "let foo: 2 = 2, bar: 3 = 3;",
        &[
            exp(1, 9, PAC_MSG, Some(PAC_HINT)),
            exp(1, 21, PAC_MSG, Some(PAC_HINT)),
        ],
    );
    assert_lint_err(
        PAC,
        "let foo = () => { let x: 'x' = 'x'; };",
        &[exp(1, 25, PAC_MSG, Some(PAC_HINT))],
    );
}

#[test]
fn use_isnan_invalid() {
    assert_lint_err(UIN, "42 === NaN", &[exp(1, 0, UIN_CMP, None)]);
    assert_lint_err(
        UIN,
        "\nswitch (NaN) {\n  case NaN:\n    break;\n  default:\n    break;\n}\n        ",
        &[exp(2, 0, UIN_SWITCH, None), exp(3, 2, UIN_CASE, None)],
    );
}
