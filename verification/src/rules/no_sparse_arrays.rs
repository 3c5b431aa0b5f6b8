//! Disallows sparse array literals: an array with at least one elided
//! element (a hole) is reported at the array's span. The walk does not
//! descend into array literals, so only the outermost array of a nest is
//! examined.

use vstd::prelude::*;
use crate::ast::{Expr, Program, Stmt, SwitchCase, VarDeclarator};
use crate::context::Context;
use crate::diagnostic::DiagData;
use crate::span::Span;

verus! {

pub open spec fn spec_code() -> Seq<char> {
    "no-sparse-arrays"@
}

pub open spec fn spec_message() -> Seq<char> {
    "Sparse arrays are not allowed"@
}

pub open spec fn nsa_diag(span: Span) -> DiagData {
    DiagData { rule_code: spec_code(), span, message: spec_message(), hint: None }
}

/// Whether some element from position `i` on is a hole.
pub open spec fn spec_has_hole(es: Seq<Option<Expr>>, i: int) -> bool
    decreases es.len() - i,
{
    if i < 0 || i >= es.len() {
        false
    } else {
        es[i] is None || spec_has_hole(es, i + 1)
    }
}

/// The diagnostics this rule emits for one expression, in visit order.
pub open spec fn spec_nsa_expr(e: Expr) -> Seq<DiagData>
    decreases e, 0int,
{
    match e {
        Expr::Array { span, elems, .. } => if spec_has_hole(elems@, 0) {
            seq![nsa_diag(span)]
        } else {
            Seq::empty()
        },
        Expr::Object { props, .. } => spec_nsa_exprs(props@, 0),
        Expr::Unary { arg, .. } => spec_nsa_expr(*arg),
        Expr::Bin { left, right, .. } => spec_nsa_expr(*left) + spec_nsa_expr(*right),
        Expr::Member { obj, .. } => spec_nsa_expr(*obj),
        Expr::OptChain { base, .. } => spec_nsa_expr(*base),
        Expr::Call { callee, args, .. } => spec_nsa_expr(*callee) + spec_nsa_exprs(args@, 0),
        Expr::NonNull { expr, .. } => spec_nsa_expr(*expr),
        Expr::TsAs { expr, .. } => spec_nsa_expr(*expr),
        Expr::TsTypeAssertion { expr, .. } => spec_nsa_expr(*expr),
        Expr::Paren { expr, .. } => spec_nsa_expr(*expr),
        Expr::Arrow { body, .. } => spec_nsa_stmts(body@, 0),
        _ => Seq::empty(),
    }
}

pub open spec fn spec_nsa_exprs(es: Seq<Expr>, i: int) -> Seq<DiagData>
    decreases es, es.len() - i,
{
    if i < 0 || i >= es.len() {
        Seq::empty()
    } else {
        spec_nsa_expr(es[i]) + spec_nsa_exprs(es, i + 1)
    }
}

pub open spec fn spec_nsa_stmt(s: Stmt) -> Seq<DiagData>
    decreases s, 0int,
{
    match s {
        Stmt::Expr { expr, .. } => spec_nsa_expr(expr),
        Stmt::VarDecl { decls, .. } => spec_nsa_decls(decls@, 0),
        Stmt::Return { arg, .. } => match arg {
            Some(e) => spec_nsa_expr(e),
            None => Seq::empty(),
        },
        Stmt::Throw { arg, .. } => spec_nsa_expr(arg),
        Stmt::Block { stmts, .. } => spec_nsa_stmts(stmts@, 0),
        Stmt::If { test, cons, alt, .. } => spec_nsa_expr(test) + spec_nsa_stmt(*cons)
            + match alt {
            Some(a) => spec_nsa_stmt(*a),
            None => Seq::empty(),
        },
        Stmt::While { test, body, .. } => spec_nsa_expr(test) + spec_nsa_stmt(*body),
        Stmt::Switch { discriminant, cases, .. } => spec_nsa_expr(discriminant) + spec_nsa_cases(
            cases@,
            0,
        ),
        Stmt::Try { block, handler, finalizer, .. } => spec_nsa_stmts(block@, 0) + (
        match handler {
            Some(h) => spec_nsa_stmts(h@, 0),
            None => Seq::empty(),
        }) + (match finalizer {
            Some(f) => spec_nsa_stmts(f@, 0),
            None => Seq::empty(),
        }),
        Stmt::Fn { body, .. } => spec_nsa_stmts(body@, 0),
        _ => Seq::empty(),
    }
}

pub open spec fn spec_nsa_stmts(ss: Seq<Stmt>, i: int) -> Seq<DiagData>
    decreases ss, ss.len() - i,
{
    if i < 0 || i >= ss.len() {
        Seq::empty()
    } else {
        spec_nsa_stmt(ss[i]) + spec_nsa_stmts(ss, i + 1)
    }
}

pub open spec fn spec_nsa_decls(ds: Seq<VarDeclarator>, i: int) -> Seq<DiagData>
    decreases ds, ds.len() - i,
{
    if i < 0 || i >= ds.len() {
        Seq::empty()
    } else {
        (match ds[i].init {
            Some(e) => spec_nsa_expr(e),
            None => Seq::empty(),
        }) + spec_nsa_decls(ds, i + 1)
    }
}

pub open spec fn spec_nsa_cases(cases: Seq<SwitchCase>, i: int) -> Seq<DiagData>
    decreases cases, cases.len() - i,
{
    if i < 0 || i >= cases.len() {
        Seq::empty()
    } else {
        (match cases[i].test {
            Some(e) => spec_nsa_expr(e),
            None => Seq::empty(),
        }) + spec_nsa_stmts(cases[i].cons@, 0) + spec_nsa_cases(cases, i + 1)
    }
}

/// Every diagnostic this rule emits for one program, in visit order.
pub open spec fn spec_nsa_program(p: Program) -> Seq<DiagData> {
    spec_nsa_stmts(p.stmts@, 0)
}

fn code_string() -> (c: String)
    ensures
        c@ == spec_code(),
        c@.len() > 0,
{
    proof {
        reveal_strlit("no-sparse-arrays");
    }
    "no-sparse-arrays".to_owned()
}

fn message_string() -> (m: String)
    ensures
        m@ == spec_message(),
{
    "Sparse arrays are not allowed".to_owned()
}

pub struct NoSparseArrays;

impl NoSparseArrays {
    pub fn new() -> (r: NoSparseArrays) {
        NoSparseArrays
    }

    pub fn code(&self) -> (c: &'static str)
        ensures
            c@ == spec_code(),
    {
        "no-sparse-arrays"
    }

    /// Runs the rule over one program: appends exactly the rule's
    /// diagnostics to the context, touching nothing else in it.
    pub fn lint_program(&self, context: &mut Context, program: &Program)
        ensures
            final(context)@.diags == old(context)@.diags + spec_nsa_program(*program),
            final(context)@.cfg == old(context)@.cfg,
            final(context)@.plugin_codes == old(context)@.plugin_codes,
    {
        let visitor = NoSparseArraysVisitor::new();
        visitor.visit_stmts(context, &program.stmts, 0);
    }
}

pub struct NoSparseArraysVisitor;

impl NoSparseArraysVisitor {
    pub fn new() -> (v: NoSparseArraysVisitor) {
        NoSparseArraysVisitor
    }

    fn has_hole(es: &Vec<Option<Expr>>, i: usize) -> (b: bool)
        ensures
            b == spec_has_hole(es@, i as int),
        decreases es@.len() - i,
    {
        if i >= es.len() {
            false
        } else {
            es[i].is_none() || Self::has_hole(es, i + 1)
        }
    }

    pub fn visit_expr(&self, ctx: &mut Context, e: &Expr)
        ensures
            final(ctx)@.diags == old(ctx)@.diags + spec_nsa_expr(*e),
            final(ctx)@.cfg == old(ctx)@.cfg,
            final(ctx)@.plugin_codes == old(ctx)@.plugin_codes,
        decreases *e, 0int,
    {
        match e {
            Expr::Array { span, elems, .. } => {
                if Self::has_hole(elems, 0) {
                    ctx.add_diagnostic(*span, code_string(), message_string());
                }
            },
            Expr::Object { props, .. } => self.visit_exprs(ctx, props, 0),
            Expr::Unary { arg, .. } => self.visit_expr(ctx, &**arg),
            Expr::Bin { left, right, .. } => {
                self.visit_expr(ctx, &**left);
                self.visit_expr(ctx, &**right);
            },
            Expr::Member { obj, .. } => self.visit_expr(ctx, &**obj),
            Expr::OptChain { base, .. } => self.visit_expr(ctx, &**base),
            Expr::Call { callee, args, .. } => {
                self.visit_expr(ctx, &**callee);
                self.visit_exprs(ctx, args, 0);
            },
            Expr::NonNull { expr, .. } => self.visit_expr(ctx, &**expr),
            Expr::TsAs { expr, .. } => self.visit_expr(ctx, &**expr),
            Expr::TsTypeAssertion { expr, .. } => self.visit_expr(ctx, &**expr),
            Expr::Paren { expr, .. } => self.visit_expr(ctx, &**expr),
            Expr::Arrow { body, .. } => self.visit_stmts(ctx, body, 0),
            _ => (),
        }
        proof {
            assert(ctx@.diags =~= old(ctx)@.diags + spec_nsa_expr(*e));
        }
    }

    pub fn visit_exprs(&self, ctx: &mut Context, es: &Vec<Expr>, i: usize)
        ensures
            final(ctx)@.diags == old(ctx)@.diags + spec_nsa_exprs(es@, i as int),
            final(ctx)@.cfg == old(ctx)@.cfg,
            final(ctx)@.plugin_codes == old(ctx)@.plugin_codes,
        decreases es@, es@.len() - i,
    {
        if i >= es.len() {
            proof {
                assert(ctx@.diags =~= old(ctx)@.diags + spec_nsa_exprs(es@, i as int));
            }
            return ;
        }
        self.visit_expr(ctx, &es[i]);
        self.visit_exprs(ctx, es, i + 1);
        proof {
            assert(ctx@.diags =~= old(ctx)@.diags + spec_nsa_exprs(es@, i as int));
        }
    }

    pub fn visit_stmt(&self, ctx: &mut Context, s: &Stmt)
        ensures
            final(ctx)@.diags == old(ctx)@.diags + spec_nsa_stmt(*s),
            final(ctx)@.cfg == old(ctx)@.cfg,
            final(ctx)@.plugin_codes == old(ctx)@.plugin_codes,
        decreases *s, 0int,
    {
        match s {
            Stmt::Expr { expr, .. } => self.visit_expr(ctx, expr),
            Stmt::VarDecl { decls, .. } => self.visit_decls(ctx, decls, 0),
            Stmt::Return { arg, .. } => match arg {
                Some(e) => self.visit_expr(ctx, e),
                None => (),
            },
            Stmt::Throw { arg, .. } => self.visit_expr(ctx, arg),
            Stmt::Block { stmts, .. } => self.visit_stmts(ctx, stmts, 0),
            Stmt::If { test, cons, alt, .. } => {
                self.visit_expr(ctx, test);
                self.visit_stmt(ctx, &**cons);
                match alt {
                    Some(a) => self.visit_stmt(ctx, &**a),
                    None => (),
                }
            },
            Stmt::While { test, body, .. } => {
                self.visit_expr(ctx, test);
                self.visit_stmt(ctx, &**body);
            },
            Stmt::Switch { discriminant, cases, .. } => {
                self.visit_expr(ctx, discriminant);
                self.visit_cases(ctx, cases, 0);
            },
            Stmt::Try { block, handler, finalizer, .. } => {
                self.visit_stmts(ctx, block, 0);
                match handler {
                    Some(h) => self.visit_stmts(ctx, h, 0),
                    None => (),
                }
                match finalizer {
                    Some(f) => self.visit_stmts(ctx, f, 0),
                    None => (),
                }
            },
            Stmt::Fn { body, .. } => self.visit_stmts(ctx, body, 0),
            _ => (),
        }
        proof {
            assert(ctx@.diags =~= old(ctx)@.diags + spec_nsa_stmt(*s));
        }
    }

    pub fn visit_stmts(&self, ctx: &mut Context, ss: &Vec<Stmt>, i: usize)
        ensures
            final(ctx)@.diags == old(ctx)@.diags + spec_nsa_stmts(ss@, i as int),
            final(ctx)@.cfg == old(ctx)@.cfg,
            final(ctx)@.plugin_codes == old(ctx)@.plugin_codes,
        decreases ss@, ss@.len() - i,
    {
        if i >= ss.len() {
            proof {
                assert(ctx@.diags =~= old(ctx)@.diags + spec_nsa_stmts(ss@, i as int));
            }
            return ;
        }
        self.visit_stmt(ctx, &ss[i]);
        self.visit_stmts(ctx, ss, i + 1);
        proof {
            assert(ctx@.diags =~= old(ctx)@.diags + spec_nsa_stmts(ss@, i as int));
        }
    }

    pub fn visit_decls(&self, ctx: &mut Context, ds: &Vec<VarDeclarator>, i: usize)
        ensures
            final(ctx)@.diags == old(ctx)@.diags + spec_nsa_decls(ds@, i as int),
            final(ctx)@.cfg == old(ctx)@.cfg,
            final(ctx)@.plugin_codes == old(ctx)@.plugin_codes,
        decreases ds@, ds@.len() - i,
    {
        if i >= ds.len() {
            proof {
                assert(ctx@.diags =~= old(ctx)@.diags + spec_nsa_decls(ds@, i as int));
            }
            return ;
        }
        match &ds[i].init {
            Some(e) => self.visit_expr(ctx, e),
            None => (),
        }
        self.visit_decls(ctx, ds, i + 1);
        proof {
            assert(ctx@.diags =~= old(ctx)@.diags + spec_nsa_decls(ds@, i as int));
        }
    }

    pub fn visit_cases(&self, ctx: &mut Context, cases: &Vec<SwitchCase>, i: usize)
        ensures
            final(ctx)@.diags == old(ctx)@.diags + spec_nsa_cases(cases@, i as int),
            final(ctx)@.cfg == old(ctx)@.cfg,
            final(ctx)@.plugin_codes == old(ctx)@.plugin_codes,
        decreases cases@, cases@.len() - i,
    {
        if i >= cases.len() {
            proof {
                assert(ctx@.diags =~= old(ctx)@.diags + spec_nsa_cases(cases@, i as int));
            }
            return ;
        }
        match &cases[i].test {
            Some(e) => self.visit_expr(ctx, e),
            None => (),
        }
        self.visit_stmts(ctx, &cases[i].cons, 0);
        self.visit_cases(ctx, cases, i + 1);
        proof {
            assert(ctx@.diags =~= old(ctx)@.diags + spec_nsa_cases(cases@, i as int));
        }
    }
}

} // verus!
