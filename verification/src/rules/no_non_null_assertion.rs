//! Disallows the non-null assertion operator: every `expr!` form is
//! reported at its own span. The walk does not descend into a reported
//! assertion, so of a stack of assertions only the outermost is reported.

use vstd::prelude::*;
use crate::ast::{Expr, Program, Stmt, SwitchCase, VarDeclarator};
use crate::context::Context;
use crate::diagnostic::DiagData;
use crate::span::Span;

verus! {

pub open spec fn spec_code() -> Seq<char> {
    "no-non-null-assertion"@
}

pub open spec fn spec_message() -> Seq<char> {
    "do not use non-null assertion"@
}

pub open spec fn nn_diag(span: Span) -> DiagData {
    DiagData { rule_code: spec_code(), span, message: spec_message(), hint: None }
}

/// The diagnostics this rule emits for one expression, in visit order.
pub open spec fn spec_nn_expr(e: Expr) -> Seq<DiagData>
    decreases e, 0int,
{
    match e {
        Expr::NonNull { span, .. } => seq![nn_diag(span)],
        Expr::Array { elems, .. } => spec_nn_opt_exprs(elems@, 0),
        Expr::Object { props, .. } => spec_nn_exprs(props@, 0),
        Expr::Unary { arg, .. } => spec_nn_expr(*arg),
        Expr::Bin { left, right, .. } => spec_nn_expr(*left) + spec_nn_expr(*right),
        Expr::Member { obj, .. } => spec_nn_expr(*obj),
        Expr::OptChain { base, .. } => spec_nn_expr(*base),
        Expr::Call { callee, args, .. } => spec_nn_expr(*callee) + spec_nn_exprs(args@, 0),
        Expr::TsAs { expr, .. } => spec_nn_expr(*expr),
        Expr::TsTypeAssertion { expr, .. } => spec_nn_expr(*expr),
        Expr::Paren { expr, .. } => spec_nn_expr(*expr),
        Expr::Arrow { body, .. } => spec_nn_stmts(body@, 0),
        _ => Seq::empty(),
    }
}

pub open spec fn spec_nn_exprs(es: Seq<Expr>, i: int) -> Seq<DiagData>
    decreases es, es.len() - i,
{
    if i < 0 || i >= es.len() {
        Seq::empty()
    } else {
        spec_nn_expr(es[i]) + spec_nn_exprs(es, i + 1)
    }
}

pub open spec fn spec_nn_opt_exprs(es: Seq<Option<Expr>>, i: int) -> Seq<DiagData>
    decreases es, es.len() - i,
{
    if i < 0 || i >= es.len() {
        Seq::empty()
    } else {
        (match es[i] {
            Some(e) => spec_nn_expr(e),
            None => Seq::empty(),
        }) + spec_nn_opt_exprs(es, i + 1)
    }
}

pub open spec fn spec_nn_stmt(s: Stmt) -> Seq<DiagData>
    decreases s, 0int,
{
    match s {
        Stmt::Expr { expr, .. } => spec_nn_expr(expr),
        Stmt::VarDecl { decls, .. } => spec_nn_decls(decls@, 0),
        Stmt::Return { arg, .. } => match arg {
            Some(e) => spec_nn_expr(e),
            None => Seq::empty(),
        },
        Stmt::Throw { arg, .. } => spec_nn_expr(arg),
        Stmt::Block { stmts, .. } => spec_nn_stmts(stmts@, 0),
        Stmt::If { test, cons, alt, .. } => spec_nn_expr(test) + spec_nn_stmt(*cons) + match alt {
            Some(a) => spec_nn_stmt(*a),
            None => Seq::empty(),
        },
        Stmt::While { test, body, .. } => spec_nn_expr(test) + spec_nn_stmt(*body),
        Stmt::Switch { discriminant, cases, .. } => spec_nn_expr(discriminant) + spec_nn_cases(
            cases@,
            0,
        ),
        Stmt::Try { block, handler, finalizer, .. } => spec_nn_stmts(block@, 0) + (match handler {
            Some(h) => spec_nn_stmts(h@, 0),
            None => Seq::empty(),
        }) + (match finalizer {
            Some(f) => spec_nn_stmts(f@, 0),
            None => Seq::empty(),
        }),
        Stmt::Fn { body, .. } => spec_nn_stmts(body@, 0),
        _ => Seq::empty(),
    }
}

pub open spec fn spec_nn_stmts(ss: Seq<Stmt>, i: int) -> Seq<DiagData>
    decreases ss, ss.len() - i,
{
    if i < 0 || i >= ss.len() {
        Seq::empty()
    } else {
        spec_nn_stmt(ss[i]) + spec_nn_stmts(ss, i + 1)
    }
}

pub open spec fn spec_nn_decls(ds: Seq<VarDeclarator>, i: int) -> Seq<DiagData>
    decreases ds, ds.len() - i,
{
    if i < 0 || i >= ds.len() {
        Seq::empty()
    } else {
        (match ds[i].init {
            Some(e) => spec_nn_expr(e),
            None => Seq::empty(),
        }) + spec_nn_decls(ds, i + 1)
    }
}

pub open spec fn spec_nn_cases(cases: Seq<SwitchCase>, i: int) -> Seq<DiagData>
    decreases cases, cases.len() - i,
{
    if i < 0 || i >= cases.len() {
        Seq::empty()
    } else {
        (match cases[i].test {
            Some(e) => spec_nn_expr(e),
            None => Seq::empty(),
        }) + spec_nn_stmts(cases[i].cons@, 0) + spec_nn_cases(cases, i + 1)
    }
}

/// Every diagnostic this rule emits for one program, in visit order.
pub open spec fn spec_nn_program(p: Program) -> Seq<DiagData> {
    spec_nn_stmts(p.stmts@, 0)
}

fn code_string() -> (c: String)
    ensures
        c@ == spec_code(),
        c@.len() > 0,
{
    proof {
        reveal_strlit("no-non-null-assertion");
    }
    "no-non-null-assertion".to_owned()
}

fn message_string() -> (m: String)
    ensures
        m@ == spec_message(),
{
    "do not use non-null assertion".to_owned()
}

pub struct NoNonNullAssertion;

impl NoNonNullAssertion {
    pub fn new() -> (r: NoNonNullAssertion) {
        NoNonNullAssertion
    }

    pub fn code(&self) -> (c: &'static str)
        ensures
            c@ == spec_code(),
    {
        "no-non-null-assertion"
    }

    /// Runs the rule over one program: appends exactly the rule's
    /// diagnostics to the context, touching nothing else in it.
    pub fn lint_program(&self, context: &mut Context, program: &Program)
        ensures
            final(context)@.diags == old(context)@.diags + spec_nn_program(*program),
            final(context)@.cfg == old(context)@.cfg,
            final(context)@.plugin_codes == old(context)@.plugin_codes,
    {
        let visitor = NoNonNullAssertionVisitor::new();
        visitor.visit_stmts(context, &program.stmts, 0);
    }
}

pub struct NoNonNullAssertionVisitor;

impl NoNonNullAssertionVisitor {
    pub fn new() -> (v: NoNonNullAssertionVisitor) {
        NoNonNullAssertionVisitor
    }

    pub fn visit_expr(&self, ctx: &mut Context, e: &Expr)
        ensures
            final(ctx)@.diags == old(ctx)@.diags + spec_nn_expr(*e),
            final(ctx)@.cfg == old(ctx)@.cfg,
            final(ctx)@.plugin_codes == old(ctx)@.plugin_codes,
        decreases *e, 0int,
    {
        match e {
            Expr::NonNull { span, .. } => {
                ctx.add_diagnostic(*span, code_string(), message_string());
            },
            Expr::Array { elems, .. } => self.visit_opt_exprs(ctx, elems, 0),
            Expr::Object { props, .. } => self.visit_exprs(ctx, props, 0),
            Expr::Unary { arg, .. } => self.visit_expr(ctx, &**arg),
            Expr::Bin { left, right, .. } => {
                self.visit_expr(ctx, &**left);
                self.visit_expr(ctx, &**right);
            },
            Expr::Member { obj, .. } => self.visit_expr(ctx, &**obj),
            Expr::OptChain { base, .. } => self.visit_expr(ctx, &**base),
            Expr::Call { callee, args, .. } => {
                self.visit_expr(ctx, &**callee);
                self.visit_exprs(ctx, args, 0);
            },
            Expr::TsAs { expr, .. } => self.visit_expr(ctx, &**expr),
            Expr::TsTypeAssertion { expr, .. } => self.visit_expr(ctx, &**expr),
            Expr::Paren { expr, .. } => self.visit_expr(ctx, &**expr),
            Expr::Arrow { body, .. } => self.visit_stmts(ctx, body, 0),
            _ => (),
        }
        proof {
            assert(ctx@.diags =~= old(ctx)@.diags + spec_nn_expr(*e));
        }
    }

    pub fn visit_exprs(&self, ctx: &mut Context, es: &Vec<Expr>, i: usize)
        ensures
            final(ctx)@.diags == old(ctx)@.diags + spec_nn_exprs(es@, i as int),
            final(ctx)@.cfg == old(ctx)@.cfg,
            final(ctx)@.plugin_codes == old(ctx)@.plugin_codes,
        decreases es@, es@.len() - i,
    {
        if i >= es.len() {
            proof {
                assert(ctx@.diags =~= old(ctx)@.diags + spec_nn_exprs(es@, i as int));
            }
            return ;
        }
        self.visit_expr(ctx, &es[i]);
        self.visit_exprs(ctx, es, i + 1);
        proof {
            assert(ctx@.diags =~= old(ctx)@.diags + spec_nn_exprs(es@, i as int));
        }
    }

    pub fn visit_opt_exprs(&self, ctx: &mut Context, es: &Vec<Option<Expr>>, i: usize)
        ensures
            final(ctx)@.diags == old(ctx)@.diags + spec_nn_opt_exprs(es@, i as int),
            final(ctx)@.cfg == old(ctx)@.cfg,
            final(ctx)@.plugin_codes == old(ctx)@.plugin_codes,
        decreases es@, es@.len() - i,
    {
        if i >= es.len() {
            proof {
                assert(ctx@.diags =~= old(ctx)@.diags + spec_nn_opt_exprs(es@, i as int));
            }
            return ;
        }
        match &es[i] {
            Some(e) => self.visit_expr(ctx, e),
            None => (),
        }
        self.visit_opt_exprs(ctx, es, i + 1);
        proof {
            assert(ctx@.diags =~= old(ctx)@.diags + spec_nn_opt_exprs(es@, i as int));
        }
    }

    pub fn visit_stmt(&self, ctx: &mut Context, s: &Stmt)
        ensures
            final(ctx)@.diags == old(ctx)@.diags + spec_nn_stmt(*s),
            final(ctx)@.cfg == old(ctx)@.cfg,
            final(ctx)@.plugin_codes == old(ctx)@.plugin_codes,
        decreases *s, 0int,
    {
        match s {
            Stmt::Expr { expr, .. } => self.visit_expr(ctx, expr),
            Stmt::VarDecl { decls, .. } => self.visit_decls(ctx, decls, 0),
            Stmt::Return { arg, .. } => match arg {
                Some(e) => self.visit_expr(ctx, e),
                None => (),
            },
            Stmt::Throw { arg, .. } => self.visit_expr(ctx, arg),
            Stmt::Block { stmts, .. } => self.visit_stmts(ctx, stmts, 0),
            Stmt::If { test, cons, alt, .. } => {
                self.visit_expr(ctx, test);
                self.visit_stmt(ctx, &**cons);
                match alt {
                    Some(a) => self.visit_stmt(ctx, &**a),
                    None => (),
                }
            },
            Stmt::While { test, body, .. } => {
                self.visit_expr(ctx, test);
                self.visit_stmt(ctx, &**body);
            },
            Stmt::Switch { discriminant, cases, .. } => {
                self.visit_expr(ctx, discriminant);
                self.visit_cases(ctx, cases, 0);
            },
            Stmt::Try { block, handler, finalizer, .. } => {
                self.visit_stmts(ctx, block, 0);
                match handler {
                    Some(h) => self.visit_stmts(ctx, h, 0),
                    None => (),
                }
                match finalizer {
                    Some(f) => self.visit_stmts(ctx, f, 0),
                    None => (),
                }
            },
            Stmt::Fn { body, .. } => self.visit_stmts(ctx, body, 0),
            _ => (),
        }
        proof {
            assert(ctx@.diags =~= old(ctx)@.diags + spec_nn_stmt(*s));
        }
    }

    pub fn visit_stmts(&self, ctx: &mut Context, ss: &Vec<Stmt>, i: usize)
        ensures
            final(ctx)@.diags == old(ctx)@.diags + spec_nn_stmts(ss@, i as int),
            final(ctx)@.cfg == old(ctx)@.cfg,
            final(ctx)@.plugin_codes == old(ctx)@.plugin_codes,
        decreases ss@, ss@.len() - i,
    {
        if i >= ss.len() {
            proof {
                assert(ctx@.diags =~= old(ctx)@.diags + spec_nn_stmts(ss@, i as int));
            }
            return ;
        }
        self.visit_stmt(ctx, &ss[i]);
        self.visit_stmts(ctx, ss, i + 1);
        proof {
            assert(ctx@.diags =~= old(ctx)@.diags + spec_nn_stmts(ss@, i as int));
        }
    }

    pub fn visit_decls(&self, ctx: &mut Context, ds: &Vec<VarDeclarator>, i: usize)
        ensures
            final(ctx)@.diags == old(ctx)@.diags + spec_nn_decls(ds@, i as int),
            final(ctx)@.cfg == old(ctx)@.cfg,
            final(ctx)@.plugin_codes == old(ctx)@.plugin_codes,
        decreases ds@, ds@.len() - i,
    {
        if i >= ds.len() {
            proof {
                assert(ctx@.diags =~= old(ctx)@.diags + spec_nn_decls(ds@, i as int));
            }
            return ;
        }
        match &ds[i].init {
            Some(e) => self.visit_expr(ctx, e),
            None => (),
        }
        self.visit_decls(ctx, ds, i + 1);
        proof {
            assert(ctx@.diags =~= old(ctx)@.diags + spec_nn_decls(ds@, i as int));
        }
    }

    pub fn visit_cases(&self, ctx: &mut Context, cases: &Vec<SwitchCase>, i: usize)
        ensures
            final(ctx)@.diags == old(ctx)@.diags + spec_nn_cases(cases@, i as int),
            final(ctx)@.cfg == old(ctx)@.cfg,
            final(ctx)@.plugin_codes == old(ctx)@.plugin_codes,
        decreases cases@, cases@.len() - i,
    {
        if i >= cases.len() {
            proof {
                assert(ctx@.diags =~= old(ctx)@.diags + spec_nn_cases(cases@, i as int));
            }
            return ;
        }
        match &cases[i].test {
            Some(e) => self.visit_expr(ctx, e),
            None => (),
        }
        self.visit_stmts(ctx, &cases[i].cons, 0);
        self.visit_cases(ctx, cases, i + 1);
        proof {
            assert(ctx@.diags =~= old(ctx)@.diags + spec_nn_cases(cases@, i as int));
        }
    }
}

} // verus!
