//! Prefers a `const` assertion over a literal type annotation that merely
//! repeats the initializer: `let x: 'a' = 'a';` or `'a' as 'a'` is
//! reported at the annotation's span, with a remediation hint. Unlike the
//! other walks, this one always descends into every child, so nested
//! occurrences are found as well.

use vstd::prelude::*;
use crate::ast::{Expr, Lit, Pat, Program, Stmt, SwitchCase, TsLit, TsType, VarDeclarator};
use crate::context::Context;
use crate::diagnostic::DiagData;
use crate::span::Span;

verus! {

pub open spec fn spec_code() -> Seq<char> {
    "prefer-as-const"@
}

pub open spec fn spec_message() -> Seq<char> {
    "Expected a `const` assertion instead of a literal type annotation"@
}

pub open spec fn spec_hint() -> Seq<char> {
    "Remove a literal type annotation and add `as const`"@
}

pub open spec fn pac_diag(span: Span) -> DiagData {
    DiagData { rule_code: spec_code(), span, message: spec_message(), hint: Some(spec_hint()) }
}

/// What comparing an annotation with an expression emits: a diagnostic at
/// the annotation's span when both are the same string literal or the
/// same numeric literal.
pub open spec fn spec_compare(t: TsType, e: Expr) -> Seq<DiagData> {
    match t {
        TsType::Lit { span, lit: tl } => match e {
            Expr::Lit { lit: el, .. } => match el {
                Lit::Str { value: v } => match tl {
                    TsLit::Str { value: tv } => if v@ == tv@ {
                        seq![pac_diag(span)]
                    } else {
                        Seq::empty()
                    },
                    _ => Seq::empty(),
                },
                Lit::Num { text: n } => match tl {
                    TsLit::Num { text: tn } => if n@ == tn@ {
                        seq![pac_diag(span)]
                    } else {
                        Seq::empty()
                    },
                    _ => Seq::empty(),
                },
                _ => Seq::empty(),
            },
            _ => Seq::empty(),
        },
        _ => Seq::empty(),
    }
}

/// What the declaration handler emits for one declarator: its pattern's
/// annotation compared with its initializer, when both are present.
pub open spec fn spec_decl_emit(d: VarDeclarator) -> Seq<DiagData> {
    match d.init {
        Some(e) => match d.name.spec_type_ann() {
            Some(t) => spec_compare(t, e),
            None => Seq::empty(),
        },
        None => Seq::empty(),
    }
}

pub open spec fn spec_decls_emit(ds: Seq<VarDeclarator>, i: int) -> Seq<DiagData>
    decreases ds.len() - i,
{
    if i < 0 || i >= ds.len() {
        Seq::empty()
    } else {
        spec_decl_emit(ds[i]) + spec_decls_emit(ds, i + 1)
    }
}

/// The diagnostics this rule emits for one expression: a handler firing
/// on an `as` expression or a type assertion, then the children.
pub open spec fn spec_pac_expr(e: Expr) -> Seq<DiagData>
    decreases e, 0int,
{
    match e {
        Expr::TsAs { expr, type_ann, .. } => spec_compare(type_ann, *expr) + spec_pac_expr(*expr),
        Expr::TsTypeAssertion { expr, type_ann, .. } => spec_compare(type_ann, *expr)
            + spec_pac_expr(*expr),
        Expr::Array { elems, .. } => spec_pac_opt_exprs(elems@, 0),
        Expr::Object { props, .. } => spec_pac_exprs(props@, 0),
        Expr::Unary { arg, .. } => spec_pac_expr(*arg),
        Expr::Bin { left, right, .. } => spec_pac_expr(*left) + spec_pac_expr(*right),
        Expr::Member { obj, .. } => spec_pac_expr(*obj),
        Expr::OptChain { base, .. } => spec_pac_expr(*base),
        Expr::Call { callee, args, .. } => spec_pac_expr(*callee) + spec_pac_exprs(args@, 0),
        Expr::NonNull { expr, .. } => spec_pac_expr(*expr),
        Expr::Paren { expr, .. } => spec_pac_expr(*expr),
        Expr::Arrow { body, .. } => spec_pac_stmts(body@, 0),
        _ => Seq::empty(),
    }
}

pub open spec fn spec_pac_exprs(es: Seq<Expr>, i: int) -> Seq<DiagData>
    decreases es, es.len() - i,
{
    if i < 0 || i >= es.len() {
        Seq::empty()
    } else {
        spec_pac_expr(es[i]) + spec_pac_exprs(es, i + 1)
    }
}

pub open spec fn spec_pac_opt_exprs(es: Seq<Option<Expr>>, i: int) -> Seq<DiagData>
    decreases es, es.len() - i,
{
    if i < 0 || i >= es.len() {
        Seq::empty()
    } else {
        (match es[i] {
            Some(e) => spec_pac_expr(e),
            None => Seq::empty(),
        }) + spec_pac_opt_exprs(es, i + 1)
    }
}

/// The children of a declarator list: the initializer expressions, walked
/// after the handler has emitted for the whole list.
pub open spec fn spec_pac_decls(ds: Seq<VarDeclarator>, i: int) -> Seq<DiagData>
    decreases ds, ds.len() - i,
{
    if i < 0 || i >= ds.len() {
        Seq::empty()
    } else {
        (match ds[i].init {
            Some(e) => spec_pac_expr(e),
            None => Seq::empty(),
        }) + spec_pac_decls(ds, i + 1)
    }
}

pub open spec fn spec_pac_stmt(s: Stmt) -> Seq<DiagData>
    decreases s, 0int,
{
    match s {
        Stmt::VarDecl { decls, .. } => spec_decls_emit(decls@, 0) + spec_pac_decls(decls@, 0),
        Stmt::Expr { expr, .. } => spec_pac_expr(expr),
        Stmt::Return { arg, .. } => match arg {
            Some(e) => spec_pac_expr(e),
            None => Seq::empty(),
        },
        Stmt::Throw { arg, .. } => spec_pac_expr(arg),
        Stmt::Block { stmts, .. } => spec_pac_stmts(stmts@, 0),
        Stmt::If { test, cons, alt, .. } => spec_pac_expr(test) + spec_pac_stmt(*cons)
            + match alt {
            Some(a) => spec_pac_stmt(*a),
            None => Seq::empty(),
        },
        Stmt::While { test, body, .. } => spec_pac_expr(test) + spec_pac_stmt(*body),
        Stmt::Switch { discriminant, cases, .. } => spec_pac_expr(discriminant) + spec_pac_cases(
            cases@,
            0,
        ),
        Stmt::Try { block, handler, finalizer, .. } => spec_pac_stmts(block@, 0) + (
        match handler {
            Some(h) => spec_pac_stmts(h@, 0),
            None => Seq::empty(),
        }) + (match finalizer {
            Some(f) => spec_pac_stmts(f@, 0),
            None => Seq::empty(),
        }),
        Stmt::Fn { body, .. } => spec_pac_stmts(body@, 0),
        _ => Seq::empty(),
    }
}

pub open spec fn spec_pac_stmts(ss: Seq<Stmt>, i: int) -> Seq<DiagData>
    decreases ss, ss.len() - i,
{
    if i < 0 || i >= ss.len() {
        Seq::empty()
    } else {
        spec_pac_stmt(ss[i]) + spec_pac_stmts(ss, i + 1)
    }
}

pub open spec fn spec_pac_cases(cases: Seq<SwitchCase>, i: int) -> Seq<DiagData>
    decreases cases, cases.len() - i,
{
    if i < 0 || i >= cases.len() {
        Seq::empty()
    } else {
        (match cases[i].test {
            Some(e) => spec_pac_expr(e),
            None => Seq::empty(),
        }) + spec_pac_stmts(cases[i].cons@, 0) + spec_pac_cases(cases, i + 1)
    }
}

/// Every diagnostic this rule emits for one program, in visit order.
pub open spec fn spec_pac_program(p: Program) -> Seq<DiagData> {
    spec_pac_stmts(p.stmts@, 0)
}

fn code_string() -> (c: String)
    ensures
        c@ == spec_code(),
        c@.len() > 0,
{
    proof {
        reveal_strlit("prefer-as-const");
    }
    "prefer-as-const".to_owned()
}

pub struct PreferAsConst;

impl PreferAsConst {
    pub fn new() -> (r: PreferAsConst) {
        PreferAsConst
    }

    pub fn code(&self) -> (c: &'static str)
        ensures
            c@ == spec_code(),
    {
        "prefer-as-const"
    }

    pub fn tags(&self) -> (t: Vec<&'static str>)
        ensures
            t@.len() == 1,
            t@[0]@ == "recommended"@,
    {
        let mut t: Vec<&'static str> = Vec::new();
        t.push("recommended");
        t
    }

    /// Runs the rule over one program: appends exactly the rule's
    /// diagnostics to the context, touching nothing else in it.
    pub fn lint_program(&self, context: &mut Context, program: &Program)
        ensures
            final(context)@.diags == old(context)@.diags + spec_pac_program(*program),
            final(context)@.cfg == old(context)@.cfg,
            final(context)@.plugin_codes == old(context)@.plugin_codes,
    {
        let visitor = PreferAsConstVisitor::new();
        visitor.visit_stmts(context, &program.stmts, 0);
    }
}

pub struct PreferAsConstVisitor;

impl PreferAsConstVisitor {
    pub fn new() -> (v: PreferAsConstVisitor) {
        PreferAsConstVisitor
    }

    fn add_diagnostic_helper(&self, ctx: &mut Context, span: Span)
        ensures
            final(ctx)@.diags == old(ctx)@.diags.push(pac_diag(span)),
            final(ctx)@.cfg == old(ctx)@.cfg,
            final(ctx)@.plugin_codes == old(ctx)@.plugin_codes,
    {
        ctx.add_diagnostic_with_hint(
            span,
            code_string(),
            "Expected a `const` assertion instead of a literal type annotation".to_owned(),
            "Remove a literal type annotation and add `as const`".to_owned(),
        );
    }

    /// The handler shared by the three entry points: compares a literal
    /// type annotation with a literal expression.
    fn compare(&self, ctx: &mut Context, type_ann: &TsType, expr: &Expr)
        ensures
            final(ctx)@.diags == old(ctx)@.diags + spec_compare(*type_ann, *expr),
            final(ctx)@.cfg == old(ctx)@.cfg,
            final(ctx)@.plugin_codes == old(ctx)@.plugin_codes,
    {
        match type_ann {
            TsType::Lit { span, lit: tl } => match expr {
                Expr::Lit { lit: el, .. } => match (el, tl) {
                    (Lit::Str { value: v }, TsLit::Str { value: tv }) => {
                        if *v == *tv {
                            self.add_diagnostic_helper(ctx, *span);
                        }
                    },
                    (Lit::Num { text: n }, TsLit::Num { text: tn }) => {
                        if *n == *tn {
                            self.add_diagnostic_helper(ctx, *span);
                        }
                    },
                    _ => (),
                },
                _ => (),
            },
            _ => (),
        }
        proof {
            assert(ctx@.diags =~= old(ctx)@.diags + spec_compare(*type_ann, *expr));
        }
    }

    fn visit_decls_emit(&self, ctx: &mut Context, ds: &Vec<VarDeclarator>, i: usize)
        ensures
            final(ctx)@.diags == old(ctx)@.diags + spec_decls_emit(ds@, i as int),
            final(ctx)@.cfg == old(ctx)@.cfg,
            final(ctx)@.plugin_codes == old(ctx)@.plugin_codes,
        decreases ds@.len() - i,
    {
        if i >= ds.len() {
            proof {
                assert(ctx@.diags =~= old(ctx)@.diags + spec_decls_emit(ds@, i as int));
            }
            return ;
        }
        match &ds[i].init {
            Some(e) => {
                let ta = match &ds[i].name {
                    Pat::Ident { type_ann, .. } => type_ann,
                    Pat::Array { type_ann, .. } => type_ann,
                    Pat::Object { type_ann, .. } => type_ann,
                    Pat::Other { .. } => &None,
                };
                match ta {
                    Some(t) => self.compare(ctx, t, e),
                    None => (),
                }
            },
            None => (),
        }
        self.visit_decls_emit(ctx, ds, i + 1);
        proof {
            assert(ctx@.diags =~= old(ctx)@.diags + spec_decls_emit(ds@, i as int));
        }
    }

    pub fn visit_expr(&self, ctx: &mut Context, e: &Expr)
        ensures
            final(ctx)@.diags == old(ctx)@.diags + spec_pac_expr(*e),
            final(ctx)@.cfg == old(ctx)@.cfg,
            final(ctx)@.plugin_codes == old(ctx)@.plugin_codes,
        decreases *e, 0int,
    {
        match e {
            Expr::TsAs { expr, type_ann, .. } => {
                self.compare(ctx, type_ann, &**expr);
                self.visit_expr(ctx, &**expr);
            },
            Expr::TsTypeAssertion { expr, type_ann, .. } => {
                self.compare(ctx, type_ann, &**expr);
                self.visit_expr(ctx, &**expr);
            },
            Expr::Array { elems, .. } => self.visit_opt_exprs(ctx, elems, 0),
            Expr::Object { props, .. } => self.visit_exprs(ctx, props, 0),
            Expr::Unary { arg, .. } => self.visit_expr(ctx, &**arg),
            Expr::Bin { left, right, .. } => {
                self.visit_expr(ctx, &**left);
                self.visit_expr(ctx, &**right);
            },
            Expr::Member { obj, .. } => self.visit_expr(ctx, &**obj),
            Expr::OptChain { base, .. } => self.visit_expr(ctx, &**base),
            Expr::Call { callee, args, .. } => {
                self.visit_expr(ctx, &**callee);
                self.visit_exprs(ctx, args, 0);
            },
            Expr::NonNull { expr, .. } => self.visit_expr(ctx, &**expr),
            Expr::Paren { expr, .. } => self.visit_expr(ctx, &**expr),
            Expr::Arrow { body, .. } => self.visit_stmts(ctx, body, 0),
            _ => (),
        }
        proof {
            assert(ctx@.diags =~= old(ctx)@.diags + spec_pac_expr(*e));
        }
    }

    pub fn visit_exprs(&self, ctx: &mut Context, es: &Vec<Expr>, i: usize)
        ensures
            final(ctx)@.diags == old(ctx)@.diags + spec_pac_exprs(es@, i as int),
            final(ctx)@.cfg == old(ctx)@.cfg,
            final(ctx)@.plugin_codes == old(ctx)@.plugin_codes,
        decreases es@, es@.len() - i,
    {
        if i >= es.len() {
            proof {
                assert(ctx@.diags =~= old(ctx)@.diags + spec_pac_exprs(es@, i as int));
            }
            return ;
        }
        self.visit_expr(ctx, &es[i]);
        self.visit_exprs(ctx, es, i + 1);
        proof {
            assert(ctx@.diags =~= old(ctx)@.diags + spec_pac_exprs(es@, i as int));
        }
    }

    pub fn visit_opt_exprs(&self, ctx: &mut Context, es: &Vec<Option<Expr>>, i: usize)
        ensures
            final(ctx)@.diags == old(ctx)@.diags + spec_pac_opt_exprs(es@, i as int),
            final(ctx)@.cfg == old(ctx)@.cfg,
            final(ctx)@.plugin_codes == old(ctx)@.plugin_codes,
        decreases es@, es@.len() - i,
    {
        if i >= es.len() {
            proof {
                assert(ctx@.diags =~= old(ctx)@.diags + spec_pac_opt_exprs(es@, i as int));
            }
            return ;
        }
        match &es[i] {
            Some(e) => self.visit_expr(ctx, e),
            None => (),
        }
        self.visit_opt_exprs(ctx, es, i + 1);
        proof {
            assert(ctx@.diags =~= old(ctx)@.diags + spec_pac_opt_exprs(es@, i as int));
        }
    }

    pub fn visit_decls(&self, ctx: &mut Context, ds: &Vec<VarDeclarator>, i: usize)
        ensures
            final(ctx)@.diags == old(ctx)@.diags + spec_pac_decls(ds@, i as int),
            final(ctx)@.cfg == old(ctx)@.cfg,
            final(ctx)@.plugin_codes == old(ctx)@.plugin_codes,
        decreases ds@, ds@.len() - i,
    {
        if i >= ds.len() {
            proof {
                assert(ctx@.diags =~= old(ctx)@.diags + spec_pac_decls(ds@, i as int));
            }
            return ;
        }
        match &ds[i].init {
            Some(e) => self.visit_expr(ctx, e),
            None => (),
        }
        self.visit_decls(ctx, ds, i + 1);
        proof {
            assert(ctx@.diags =~= old(ctx)@.diags + spec_pac_decls(ds@, i as int));
        }
    }

    pub fn visit_stmt(&self, ctx: &mut Context, s: &Stmt)
        ensures
            final(ctx)@.diags == old(ctx)@.diags + spec_pac_stmt(*s),
            final(ctx)@.cfg == old(ctx)@.cfg,
            final(ctx)@.plugin_codes == old(ctx)@.plugin_codes,
        decreases *s, 0int,
    {
        match s {
            Stmt::VarDecl { decls, .. } => {
                self.visit_decls_emit(ctx, decls, 0);
                self.visit_decls(ctx, decls, 0);
            },
            Stmt::Expr { expr, .. } => self.visit_expr(ctx, expr),
            Stmt::Return { arg, .. } => match arg {
                Some(e) => self.visit_expr(ctx, e),
                None => (),
            },
            Stmt::Throw { arg, .. } => self.visit_expr(ctx, arg),
            Stmt::Block { stmts, .. } => self.visit_stmts(ctx, stmts, 0),
            Stmt::If { test, cons, alt, .. } => {
                self.visit_expr(ctx, test);
                self.visit_stmt(ctx, &**cons);
                match alt {
                    Some(a) => self.visit_stmt(ctx, &**a),
                    None => (),
                }
            },
            Stmt::While { test, body, .. } => {
                self.visit_expr(ctx, test);
                self.visit_stmt(ctx, &**body);
            },
            Stmt::Switch { discriminant, cases, .. } => {
                self.visit_expr(ctx, discriminant);
                self.visit_cases(ctx, cases, 0);
            },
            Stmt::Try { block, handler, finalizer, .. } => {
                self.visit_stmts(ctx, block, 0);
                match handler {
                    Some(h) => self.visit_stmts(ctx, h, 0),
                    None => (),
                }
                match finalizer {
                    Some(f) => self.visit_stmts(ctx, f, 0),
                    None => (),
                }
            },
            Stmt::Fn { body, .. } => self.visit_stmts(ctx, body, 0),
            _ => (),
        }
        proof {
            assert(ctx@.diags =~= old(ctx)@.diags + spec_pac_stmt(*s));
        }
    }

    pub fn visit_stmts(&self, ctx: &mut Context, ss: &Vec<Stmt>, i: usize)
        ensures
            final(ctx)@.diags == old(ctx)@.diags + spec_pac_stmts(ss@, i as int),
            final(ctx)@.cfg == old(ctx)@.cfg,
            final(ctx)@.plugin_codes == old(ctx)@.plugin_codes,
        decreases ss@, ss@.len() - i,
    {
        if i >= ss.len() {
            proof {
                assert(ctx@.diags =~= old(ctx)@.diags + spec_pac_stmts(ss@, i as int));
            }
            return ;
        }
        self.visit_stmt(ctx, &ss[i]);
        self.visit_stmts(ctx, ss, i + 1);
        proof {
            assert(ctx@.diags =~= old(ctx)@.diags + spec_pac_stmts(ss@, i as int));
        }
    }

    pub fn visit_cases(&self, ctx: &mut Context, cases: &Vec<SwitchCase>, i: usize)
        ensures
            final(ctx)@.diags == old(ctx)@.diags + spec_pac_cases(cases@, i as int),
            final(ctx)@.cfg == old(ctx)@.cfg,
            final(ctx)@.plugin_codes == old(ctx)@.plugin_codes,
        decreases cases@, cases@.len() - i,
    {
        if i >= cases.len() {
            proof {
                assert(ctx@.diags =~= old(ctx)@.diags + spec_pac_cases(cases@, i as int));
            }
            return ;
        }
        match &cases[i].test {
            Some(e) => self.visit_expr(ctx, e),
            None => (),
        }
        self.visit_stmts(ctx, &cases[i].cons, 0);
        self.visit_cases(ctx, cases, i + 1);
        proof {
            assert(ctx@.diags =~= old(ctx)@.diags + spec_pac_cases(cases@, i as int));
        }
    }
}

} // verus!
