//! Flags comparisons with `NaN` (which are never meaningful) and `switch`
//! statements that discriminate on `NaN` or test a case against it. The
//! walk does not descend into a comparison's operands nor into a switch
//! statement's parts.

use vstd::prelude::*;
use crate::ast::{BinOp, Expr, Program, Stmt, SwitchCase, VarDeclarator};
use crate::context::Context;
use crate::diagnostic::DiagData;
use crate::span::Span;

verus! {

pub open spec fn spec_code() -> Seq<char> {
    "use-isnan"@
}

pub open spec fn spec_comparison_message() -> Seq<char> {
    "Use the isNaN function to compare with NaN"@
}

pub open spec fn spec_switch_message() -> Seq<char> {
    "'switch(NaN)' can never match a case clause. Use Number.isNaN instead of the switch"@
}

pub open spec fn spec_case_message() -> Seq<char> {
    "'case NaN' can never match. Use Number.isNaN before the switch"@
}

pub open spec fn uin_diag(span: Span, message: Seq<char>) -> DiagData {
    DiagData { rule_code: spec_code(), span, message, hint: None }
}

/// The expression is the bare identifier `NaN`.
pub open spec fn spec_is_nan_ident(e: Expr) -> bool {
    match e {
        Expr::Ident { sym, .. } => sym@ == "NaN"@,
        _ => false,
    }
}

/// The operator is one of the comparisons the rule watches; every
/// operator the model does not distinguish is not.
pub open spec fn spec_is_comparison(op: BinOp) -> bool {
    !(op is Other)
}

/// The diagnostics this rule emits for one expression, in visit order:
/// for a watched comparison, the left operand is examined before the
/// right one, and the walk does not continue below the comparison.
pub open spec fn spec_uin_expr(e: Expr) -> Seq<DiagData>
    decreases e, 0int,
{
    match e {
        Expr::Bin { span, op, left, right, .. } => if spec_is_comparison(op) {
            (if spec_is_nan_ident(*left) {
                seq![uin_diag(span, spec_comparison_message())]
            } else {
                Seq::empty()
            }) + (if spec_is_nan_ident(*right) {
                seq![uin_diag(span, spec_comparison_message())]
            } else {
                Seq::empty()
            })
        } else {
            Seq::empty()
        },
        Expr::Array { elems, .. } => spec_uin_opt_exprs(elems@, 0),
        Expr::Object { props, .. } => spec_uin_exprs(props@, 0),
        Expr::Unary { arg, .. } => spec_uin_expr(*arg),
        Expr::Member { obj, .. } => spec_uin_expr(*obj),
        Expr::OptChain { base, .. } => spec_uin_expr(*base),
        Expr::Call { callee, args, .. } => spec_uin_expr(*callee) + spec_uin_exprs(args@, 0),
        Expr::NonNull { expr, .. } => spec_uin_expr(*expr),
        Expr::TsAs { expr, .. } => spec_uin_expr(*expr),
        Expr::TsTypeAssertion { expr, .. } => spec_uin_expr(*expr),
        Expr::Paren { expr, .. } => spec_uin_expr(*expr),
        Expr::Arrow { body, .. } => spec_uin_stmts(body@, 0),
        _ => Seq::empty(),
    }
}

pub open spec fn spec_uin_exprs(es: Seq<Expr>, i: int) -> Seq<DiagData>
    decreases es, es.len() - i,
{
    if i < 0 || i >= es.len() {
        Seq::empty()
    } else {
        spec_uin_expr(es[i]) + spec_uin_exprs(es, i + 1)
    }
}

pub open spec fn spec_uin_opt_exprs(es: Seq<Option<Expr>>, i: int) -> Seq<DiagData>
    decreases es, es.len() - i,
{
    if i < 0 || i >= es.len() {
        Seq::empty()
    } else {
        (match es[i] {
            Some(e) => spec_uin_expr(e),
            None => Seq::empty(),
        }) + spec_uin_opt_exprs(es, i + 1)
    }
}

/// What the switch handler emits for the case clauses from `i` on: one
/// diagnostic at each clause whose test is the identifier `NaN`.
pub open spec fn spec_uin_case_tests(cases: Seq<SwitchCase>, i: int) -> Seq<DiagData>
    decreases cases.len() - i,
{
    if i < 0 || i >= cases.len() {
        Seq::empty()
    } else {
        (match cases[i].test {
            Some(e) => if spec_is_nan_ident(e) {
                seq![uin_diag(cases[i].span, spec_case_message())]
            } else {
                Seq::empty()
            },
            None => Seq::empty(),
        }) + spec_uin_case_tests(cases, i + 1)
    }
}

/// The diagnostics this rule emits for one statement: a switch is
/// examined by the handler alone (no descent below it); every other
/// statement is walked.
pub open spec fn spec_uin_stmt(s: Stmt) -> Seq<DiagData>
    decreases s, 0int,
{
    match s {
        Stmt::Switch { span, discriminant, cases, .. } => (if spec_is_nan_ident(discriminant) {
            seq![uin_diag(span, spec_switch_message())]
        } else {
            Seq::empty()
        }) + spec_uin_case_tests(cases@, 0),
        Stmt::Expr { expr, .. } => spec_uin_expr(expr),
        Stmt::VarDecl { decls, .. } => spec_uin_decls(decls@, 0),
        Stmt::Return { arg, .. } => match arg {
            Some(e) => spec_uin_expr(e),
            None => Seq::empty(),
        },
        Stmt::Throw { arg, .. } => spec_uin_expr(arg),
        Stmt::Block { stmts, .. } => spec_uin_stmts(stmts@, 0),
        Stmt::If { test, cons, alt, .. } => spec_uin_expr(test) + spec_uin_stmt(*cons)
            + match alt {
            Some(a) => spec_uin_stmt(*a),
            None => Seq::empty(),
        },
        Stmt::While { test, body, .. } => spec_uin_expr(test) + spec_uin_stmt(*body),
        Stmt::Try { block, handler, finalizer, .. } => spec_uin_stmts(block@, 0) + (
        match handler {
            Some(h) => spec_uin_stmts(h@, 0),
            None => Seq::empty(),
        }) + (match finalizer {
            Some(f) => spec_uin_stmts(f@, 0),
            None => Seq::empty(),
        }),
        Stmt::Fn { body, .. } => spec_uin_stmts(body@, 0),
        _ => Seq::empty(),
    }
}

pub open spec fn spec_uin_stmts(ss: Seq<Stmt>, i: int) -> Seq<DiagData>
    decreases ss, ss.len() - i,
{
    if i < 0 || i >= ss.len() {
        Seq::empty()
    } else {
        spec_uin_stmt(ss[i]) + spec_uin_stmts(ss, i + 1)
    }
}

pub open spec fn spec_uin_decls(ds: Seq<VarDeclarator>, i: int) -> Seq<DiagData>
    decreases ds, ds.len() - i,
{
    if i < 0 || i >= ds.len() {
        Seq::empty()
    } else {
        (match ds[i].init {
            Some(e) => spec_uin_expr(e),
            None => Seq::empty(),
        }) + spec_uin_decls(ds, i + 1)
    }
}

/// Every diagnostic this rule emits for one program, in visit order.
pub open spec fn spec_uin_program(p: Program) -> Seq<DiagData> {
    spec_uin_stmts(p.stmts@, 0)
}

fn code_string() -> (c: String)
    ensures
        c@ == spec_code(),
        c@.len() > 0,
{
    proof {
        reveal_strlit("use-isnan");
    }
    "use-isnan".to_owned()
}

/// The expression is the bare identifier `NaN`.
pub fn is_nan_identifier(e: &Expr) -> (b: bool)
    ensures
        b == spec_is_nan_ident(*e),
{
    match e {
        Expr::Ident { sym, .. } => {
            let nan: String = "NaN".to_owned();
            *sym == nan
        },
        _ => false,
    }
}

pub struct UseIsNaN;

impl UseIsNaN {
    pub fn new() -> (r: UseIsNaN) {
        UseIsNaN
    }

    pub fn code(&self) -> (c: &'static str)
        ensures
            c@ == spec_code(),
    {
        "use-isnan"
    }

    pub fn tags(&self) -> (t: Vec<&'static str>)
        ensures
            t@.len() == 1,
            t@[0]@ == "recommended"@,
    {
        let mut t: Vec<&'static str> = Vec::new();
        t.push("recommended");
        t
    }

    /// Runs the rule over one program: appends exactly the rule's
    /// diagnostics to the context, touching nothing else in it.
    pub fn lint_program(&self, context: &mut Context, program: &Program)
        ensures
            final(context)@.diags == old(context)@.diags + spec_uin_program(*program),
            final(context)@.cfg == old(context)@.cfg,
            final(context)@.plugin_codes == old(context)@.plugin_codes,
    {
        let visitor = UseIsNaNVisitor::new();
        visitor.visit_stmts(context, &program.stmts, 0);
    }
}

pub struct UseIsNaNVisitor;

impl UseIsNaNVisitor {
    pub fn new() -> (v: UseIsNaNVisitor) {
        UseIsNaNVisitor
    }

    fn comparison_diagnostic(&self, ctx: &mut Context, span: Span)
        ensures
            final(ctx)@.diags == old(ctx)@.diags.push(uin_diag(span, spec_comparison_message())),
            final(ctx)@.cfg == old(ctx)@.cfg,
            final(ctx)@.plugin_codes == old(ctx)@.plugin_codes,
    {
        ctx.add_diagnostic(
            span,
            code_string(),
            "Use the isNaN function to compare with NaN".to_owned(),
        );
    }

    pub fn visit_expr(&self, ctx: &mut Context, e: &Expr)
        ensures
            final(ctx)@.diags == old(ctx)@.diags + spec_uin_expr(*e),
            final(ctx)@.cfg == old(ctx)@.cfg,
            final(ctx)@.plugin_codes == old(ctx)@.plugin_codes,
        decreases *e, 0int,
    {
        match e {
            Expr::Bin { span, op, left, right, .. } => {
                let watched = match op {
                    BinOp::Other => false,
                    _ => true,
                };
                if watched {
                    if is_nan_identifier(&**left) {
                        self.comparison_diagnostic(ctx, *span);
                    }
                    if is_nan_identifier(&**right) {
                        self.comparison_diagnostic(ctx, *span);
                    }
                }
            },
            Expr::Array { elems, .. } => self.visit_opt_exprs(ctx, elems, 0),
            Expr::Object { props, .. } => self.visit_exprs(ctx, props, 0),
            Expr::Unary { arg, .. } => self.visit_expr(ctx, &**arg),
            Expr::Member { obj, .. } => self.visit_expr(ctx, &**obj),
            Expr::OptChain { base, .. } => self.visit_expr(ctx, &**base),
            Expr::Call { callee, args, .. } => {
                self.visit_expr(ctx, &**callee);
                self.visit_exprs(ctx, args, 0);
            },
            Expr::NonNull { expr, .. } => self.visit_expr(ctx, &**expr),
            Expr::TsAs { expr, .. } => self.visit_expr(ctx, &**expr),
            Expr::TsTypeAssertion { expr, .. } => self.visit_expr(ctx, &**expr),
            Expr::Paren { expr, .. } => self.visit_expr(ctx, &**expr),
            Expr::Arrow { body, .. } => self.visit_stmts(ctx, body, 0),
            _ => (),
        }
        proof {
            assert(ctx@.diags =~= old(ctx)@.diags + spec_uin_expr(*e));
        }
    }

    pub fn visit_exprs(&self, ctx: &mut Context, es: &Vec<Expr>, i: usize)
        ensures
            final(ctx)@.diags == old(ctx)@.diags + spec_uin_exprs(es@, i as int),
            final(ctx)@.cfg == old(ctx)@.cfg,
            final(ctx)@.plugin_codes == old(ctx)@.plugin_codes,
        decreases es@, es@.len() - i,
    {
        if i >= es.len() {
            proof {
                assert(ctx@.diags =~= old(ctx)@.diags + spec_uin_exprs(es@, i as int));
            }
            return ;
        }
        self.visit_expr(ctx, &es[i]);
        self.visit_exprs(ctx, es, i + 1);
        proof {
            assert(ctx@.diags =~= old(ctx)@.diags + spec_uin_exprs(es@, i as int));
        }
    }

    pub fn visit_opt_exprs(&self, ctx: &mut Context, es: &Vec<Option<Expr>>, i: usize)
        ensures
            final(ctx)@.diags == old(ctx)@.diags + spec_uin_opt_exprs(es@, i as int),
            final(ctx)@.cfg == old(ctx)@.cfg,
            final(ctx)@.plugin_codes == old(ctx)@.plugin_codes,
        decreases es@, es@.len() - i,
    {
        if i >= es.len() {
            proof {
                assert(ctx@.diags =~= old(ctx)@.diags + spec_uin_opt_exprs(es@, i as int));
            }
            return ;
        }
        match &es[i] {
            Some(e) => self.visit_expr(ctx, e),
            None => (),
        }
        self.visit_opt_exprs(ctx, es, i + 1);
        proof {
            assert(ctx@.diags =~= old(ctx)@.diags + spec_uin_opt_exprs(es@, i as int));
        }
    }

    fn visit_switch(&self, ctx: &mut Context, span: Span, discriminant: &Expr, cases: &Vec<
        SwitchCase,
    >)
        ensures
            final(ctx)@.diags == old(ctx)@.diags + (if spec_is_nan_ident(*discriminant) {
                seq![uin_diag(span, spec_switch_message())]
            } else {
                Seq::<DiagData>::empty()
            }) + spec_uin_case_tests(cases@, 0),
            final(ctx)@.cfg == old(ctx)@.cfg,
            final(ctx)@.plugin_codes == old(ctx)@.plugin_codes,
    {
        if is_nan_identifier(discriminant) {
            ctx.add_diagnostic(
                span,
                code_string(),
                "'switch(NaN)' can never match a case clause. Use Number.isNaN instead of the switch".to_owned(),
            );
        }
        self.visit_case_tests(ctx, cases, 0);
        proof {
            assert(ctx@.diags =~= old(ctx)@.diags + (if spec_is_nan_ident(*discriminant) {
                seq![uin_diag(span, spec_switch_message())]
            } else {
                Seq::<DiagData>::empty()
            }) + spec_uin_case_tests(cases@, 0));
        }
    }

    fn visit_case_tests(&self, ctx: &mut Context, cases: &Vec<SwitchCase>, i: usize)
        ensures
            final(ctx)@.diags == old(ctx)@.diags + spec_uin_case_tests(cases@, i as int),
            final(ctx)@.cfg == old(ctx)@.cfg,
            final(ctx)@.plugin_codes == old(ctx)@.plugin_codes,
        decreases cases@.len() - i,
    {
        if i >= cases.len() {
            proof {
                assert(ctx@.diags =~= old(ctx)@.diags + spec_uin_case_tests(cases@, i as int));
            }
            return ;
        }
        match &cases[i].test {
            Some(e) => {
                if is_nan_identifier(e) {
                    ctx.add_diagnostic(
                        cases[i].span,
                        code_string(),
                        "'case NaN' can never match. Use Number.isNaN before the switch".to_owned(),
                    );
                }
            },
            None => (),
        }
        self.visit_case_tests(ctx, cases, i + 1);
        proof {
            assert(ctx@.diags =~= old(ctx)@.diags + spec_uin_case_tests(cases@, i as int));
        }
    }

    pub fn visit_stmt(&self, ctx: &mut Context, s: &Stmt)
        ensures
            final(ctx)@.diags == old(ctx)@.diags + spec_uin_stmt(*s),
            final(ctx)@.cfg == old(ctx)@.cfg,
            final(ctx)@.plugin_codes == old(ctx)@.plugin_codes,
        decreases *s, 0int,
    {
        match s {
            Stmt::Switch { span, discriminant, cases, .. } => {
                self.visit_switch(ctx, *span, discriminant, cases);
            },
            Stmt::Expr { expr, .. } => self.visit_expr(ctx, expr),
            Stmt::VarDecl { decls, .. } => self.visit_decls(ctx, decls, 0),
            Stmt::Return { arg, .. } => match arg {
                Some(e) => self.visit_expr(ctx, e),
                None => (),
            },
            Stmt::Throw { arg, .. } => self.visit_expr(ctx, arg),
            Stmt::Block { stmts, .. } => self.visit_stmts(ctx, stmts, 0),
            Stmt::If { test, cons, alt, .. } => {
                self.visit_expr(ctx, test);
                self.visit_stmt(ctx, &**cons);
                match alt {
                    Some(a) => self.visit_stmt(ctx, &**a),
                    None => (),
                }
            },
            Stmt::While { test, body, .. } => {
                self.visit_expr(ctx, test);
                self.visit_stmt(ctx, &**body);
            },
            Stmt::Try { block, handler, finalizer, .. } => {
                self.visit_stmts(ctx, block, 0);
                match handler {
                    Some(h) => self.visit_stmts(ctx, h, 0),
                    None => (),
                }
                match finalizer {
                    Some(f) => self.visit_stmts(ctx, f, 0),
                    None => (),
                }
            },
            Stmt::Fn { body, .. } => self.visit_stmts(ctx, body, 0),
            _ => (),
        }
        proof {
            assert(ctx@.diags =~= old(ctx)@.diags + spec_uin_stmt(*s));
        }
    }

    pub fn visit_stmts(&self, ctx: &mut Context, ss: &Vec<Stmt>, i: usize)
        ensures
            final(ctx)@.diags == old(ctx)@.diags + spec_uin_stmts(ss@, i as int),
            final(ctx)@.cfg == old(ctx)@.cfg,
            final(ctx)@.plugin_codes == old(ctx)@.plugin_codes,
        decreases ss@, ss@.len() - i,
    {
        if i >= ss.len() {
            proof {
                assert(ctx@.diags =~= old(ctx)@.diags + spec_uin_stmts(ss@, i as int));
            }
            return ;
        }
        self.visit_stmt(ctx, &ss[i]);
        self.visit_stmts(ctx, ss, i + 1);
        proof {
            assert(ctx@.diags =~= old(ctx)@.diags + spec_uin_stmts(ss@, i as int));
        }
    }

    pub fn visit_decls(&self, ctx: &mut Context, ds: &Vec<VarDeclarator>, i: usize)
        ensures
            final(ctx)@.diags == old(ctx)@.diags + spec_uin_decls(ds@, i as int),
            final(ctx)@.cfg == old(ctx)@.cfg,
            final(ctx)@.plugin_codes == old(ctx)@.plugin_codes,
        decreases ds@, ds@.len() - i,
    {
        if i >= ds.len() {
            proof {
                assert(ctx@.diags =~= old(ctx)@.diags + spec_uin_decls(ds@, i as int));
            }
            return ;
        }
        match &ds[i].init {
            Some(e) => self.visit_expr(ctx, e),
            None => (),
        }
        self.visit_decls(ctx, ds, i + 1);
        proof {
            assert(ctx@.diags =~= old(ctx)@.diags + spec_uin_decls(ds@, i as int));
        }
    }
}

} // verus!
