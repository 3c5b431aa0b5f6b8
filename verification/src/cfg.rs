//! The control-flow graph builder: a single forward pass over one parsed
//! program that computes, for every statement-level position, whether the
//! position is reachable from the entry point and whether control leaves
//! the enclosing structure unconditionally at it.
//!
//! The pass keeps one boolean `reachable`, true at program and function
//! entry. Each statement is recorded *before* its own effect is applied; a
//! terminal statement (return, throw, break, continue, or a construct all
//! of whose branches are terminal) turns `reachable` off for its later
//! siblings. Loop continuations stay reachable unless the loop condition
//! is the literal `true` and the body holds no break for that loop; catch
//! and finally blocks are treated as always potentially reachable; nested
//! function bodies start a fresh scope.

use vstd::prelude::*;
use crate::ast::{Expr, Lit, Program, Stmt, SwitchCase, VarDeclarator};

verus! {

/// Per-position facts, keyed by the `lo` offset of the node they describe.
#[derive(Clone, Copy, PartialEq, Eq, Structural, Debug)]
pub struct ControlFlowMeta {
    pub unreachable: bool,
    pub stops_execution: bool,
}

// ---------------------------------------------------------------------
// What counts as a terminal statement.
// ---------------------------------------------------------------------

/// The loop condition is statically always true: it is the literal `true`.
pub open spec fn spec_test_always_true(e: Expr) -> bool {
    match e {
        Expr::Lit { lit: Lit::Bool { value }, .. } => value,
        _ => false,
    }
}

/// Whether a statement holds a `break` that would leave the directly
/// enclosing loop: nested loops, switches and function bodies absorb
/// their own breaks.
pub open spec fn spec_has_direct_break(s: Stmt) -> bool
    decreases s, 0int,
{
    match s {
        Stmt::Break { .. } => true,
        Stmt::Block { stmts, .. } => spec_seq_has_direct_break(stmts@, 0),
        Stmt::If { cons, alt, .. } => spec_has_direct_break(*cons) || (match alt {
            Some(a) => spec_has_direct_break(*a),
            None => false,
        }),
        Stmt::Try { block, handler, finalizer, .. } => spec_seq_has_direct_break(block@, 0) || (
        match handler {
            Some(h) => spec_seq_has_direct_break(h@, 0),
            None => false,
        }) || (match finalizer {
            Some(f) => spec_seq_has_direct_break(f@, 0),
            None => false,
        }),
        _ => false,
    }
}

pub open spec fn spec_seq_has_direct_break(ss: Seq<Stmt>, i: int) -> bool
    decreases ss, ss.len() - i,
{
    if i < 0 || i >= ss.len() {
        false
    } else {
        spec_has_direct_break(ss[i]) || spec_seq_has_direct_break(ss, i + 1)
    }
}

/// `stops_execution` for one statement: control leaves the enclosing
/// structure unconditionally at or immediately after it.
pub open spec fn spec_stmt_stops(s: Stmt) -> bool
    decreases s, 0int,
{
    match s {
        Stmt::Return { .. } => true,
        Stmt::Throw { .. } => true,
        Stmt::Break { .. } => true,
        Stmt::Continue { .. } => true,
        Stmt::Block { stmts, .. } => spec_seq_stops(stmts@, 0),
        Stmt::If { cons, alt, .. } => match alt {
            Some(a) => spec_stmt_stops(*cons) && spec_stmt_stops(*a),
            None => false,
        },
        Stmt::While { test, body, .. } => spec_test_always_true(test) && !spec_has_direct_break(
            *body,
        ),
        Stmt::Switch { cases, .. } => spec_switch_has_default(cases@, 0) && spec_switch_all_stop(
            cases@,
            0,
        ),
        Stmt::Try { block, handler, finalizer, .. } => (handler is None && spec_seq_stops(
            block@,
            0,
        )) || (match finalizer {
            Some(f) => spec_seq_stops(f@, 0),
            None => false,
        }),
        _ => false,
    }
}

/// A statement sequence stops when some statement in it stops; everything
/// after that statement is dead anyway.
pub open spec fn spec_seq_stops(ss: Seq<Stmt>, i: int) -> bool
    decreases ss, ss.len() - i,
{
    if i < 0 || i >= ss.len() {
        false
    } else {
        spec_stmt_stops(ss[i]) || spec_seq_stops(ss, i + 1)
    }
}

pub open spec fn spec_switch_has_default(cases: Seq<SwitchCase>, i: int) -> bool
    decreases cases, cases.len() - i,
{
    if i < 0 || i >= cases.len() {
        false
    } else {
        cases[i].test is None || spec_switch_has_default(cases, i + 1)
    }
}

/// Every clause of the switch ends terminally. A clause with an empty body
/// falls through and is conservatively treated as not stopping.
pub open spec fn spec_switch_all_stop(cases: Seq<SwitchCase>, i: int) -> bool
    decreases cases, cases.len() - i,
{
    if i < 0 || i >= cases.len() {
        true
    } else {
        spec_seq_stops(cases[i].cons@, 0) && spec_switch_all_stop(cases, i + 1)
    }
}

// ---------------------------------------------------------------------
// What the single pass records.
// ---------------------------------------------------------------------

pub open spec fn spec_meta_of(s: Stmt, reachable: bool) -> (u32, ControlFlowMeta) {
    (
        s.spec_span().lo,
        ControlFlowMeta { unreachable: !reachable, stops_execution: spec_stmt_stops(s) },
    )
}

/// The entries recorded for one statement: its own fact first, then the
/// facts of every statement nested below it, in source order.
pub open spec fn spec_record_stmt(s: Stmt, r: bool) -> Seq<(u32, ControlFlowMeta)>
    decreases s, 0int,
{
    seq![spec_meta_of(s, r)] + match s {
        Stmt::Expr { expr, .. } => spec_record_expr(expr),
        Stmt::VarDecl { decls, .. } => spec_record_decls(decls@, 0),
        Stmt::Return { arg, .. } => match arg {
            Some(e) => spec_record_expr(e),
            None => Seq::empty(),
        },
        Stmt::Throw { arg, .. } => spec_record_expr(arg),
        Stmt::Block { stmts, .. } => spec_record_stmts(stmts@, 0, r),
        Stmt::If { test, cons, alt, .. } => spec_record_expr(test) + spec_record_stmt(*cons, r)
            + match alt {
            Some(a) => spec_record_stmt(*a, r),
            None => Seq::empty(),
        },
        Stmt::While { test, body, .. } => spec_record_expr(test) + spec_record_stmt(*body, r),
        Stmt::Switch { discriminant, cases, .. } => spec_record_expr(discriminant)
            + spec_record_cases(cases@, 0, r),
        Stmt::Try { block, handler, finalizer, .. } => spec_record_stmts(block@, 0, r) + (
        match handler {
            Some(h) => spec_record_stmts(h@, 0, r),
            None => Seq::empty(),
        }) + (match finalizer {
            Some(f) => spec_record_stmts(f@, 0, r),
            None => Seq::empty(),
        }),
        Stmt::Fn { body, .. } => spec_record_stmts(body@, 0, true),
        _ => Seq::empty(),
    }
}

/// Records a statement sequence from position `i` on, threading the
/// `reachable` flag: after a terminal statement the rest of the sequence
/// is unreachable.
pub open spec fn spec_record_stmts(ss: Seq<Stmt>, i: int, r: bool) -> Seq<(u32, ControlFlowMeta)>
    decreases ss, ss.len() - i,
{
    if i < 0 || i >= ss.len() {
        Seq::empty()
    } else {
        spec_record_stmt(ss[i], r) + spec_record_stmts(ss, i + 1, r && !spec_stmt_stops(ss[i]))
    }
}

/// Statements only live inside an expression within a nested function
/// body (an arrow), which starts a fresh reachability scope.
pub open spec fn spec_record_expr(e: Expr) -> Seq<(u32, ControlFlowMeta)>
    decreases e, 0int,
{
    match e {
        Expr::Array { elems, .. } => spec_record_opt_exprs(elems@, 0),
        Expr::Object { props, .. } => spec_record_exprs(props@, 0),
        Expr::Unary { arg, .. } => spec_record_expr(*arg),
        Expr::Bin { left, right, .. } => spec_record_expr(*left) + spec_record_expr(*right),
        Expr::Member { obj, .. } => spec_record_expr(*obj),
        Expr::OptChain { base, .. } => spec_record_expr(*base),
        Expr::Call { callee, args, .. } => spec_record_expr(*callee) + spec_record_exprs(args@, 0),
        Expr::NonNull { expr, .. } => spec_record_expr(*expr),
        Expr::TsAs { expr, .. } => spec_record_expr(*expr),
        Expr::TsTypeAssertion { expr, .. } => spec_record_expr(*expr),
        Expr::Paren { expr, .. } => spec_record_expr(*expr),
        Expr::Arrow { body, .. } => spec_record_stmts(body@, 0, true),
        _ => Seq::empty(),
    }
}

pub open spec fn spec_record_exprs(es: Seq<Expr>, i: int) -> Seq<(u32, ControlFlowMeta)>
    decreases es, es.len() - i,
{
    if i < 0 || i >= es.len() {
        Seq::empty()
    } else {
        spec_record_expr(es[i]) + spec_record_exprs(es, i + 1)
    }
}

pub open spec fn spec_record_opt_exprs(es: Seq<Option<Expr>>, i: int) -> Seq<
    (u32, ControlFlowMeta),
>
    decreases es, es.len() - i,
{
    if i < 0 || i >= es.len() {
        Seq::empty()
    } else {
        (match es[i] {
            Some(e) => spec_record_expr(e),
            None => Seq::empty(),
        }) + spec_record_opt_exprs(es, i + 1)
    }
}

pub open spec fn spec_record_decls(ds: Seq<VarDeclarator>, i: int) -> Seq<(u32, ControlFlowMeta)>
    decreases ds, ds.len() - i,
{
    if i < 0 || i >= ds.len() {
        Seq::empty()
    } else {
        (match ds[i].init {
            Some(e) => spec_record_expr(e),
            None => Seq::empty(),
        }) + spec_record_decls(ds, i + 1)
    }
}

pub open spec fn spec_record_cases(cases: Seq<SwitchCase>, i: int, r: bool) -> Seq<
    (u32, ControlFlowMeta),
>
    decreases cases, cases.len() - i,
{
    if i < 0 || i >= cases.len() {
        Seq::empty()
    } else {
        (match cases[i].test {
            Some(e) => spec_record_expr(e),
            None => Seq::empty(),
        }) + spec_record_stmts(cases[i].cons@, 0, r) + spec_record_cases(cases, i + 1, r)
    }
}

/// Everything the single pass over one program records, in order.
pub open spec fn spec_cfg_entries(p: Program) -> Seq<(u32, ControlFlowMeta)> {
    spec_record_stmts(p.stmts@, 0, true)
}

/// Looking a position up among recorded entries: the last entry recorded
/// for a key wins; an unrecorded position has no information.
pub open spec fn spec_lookup(entries: Seq<(u32, ControlFlowMeta)>, pos: u32) -> Option<
    ControlFlowMeta,
>
    decreases entries.len(),
{
    if entries.len() == 0 {
        None
    } else if entries.last().0 == pos {
        Some(entries.last().1)
    } else {
        spec_lookup(entries.drop_last(), pos)
    }
}

// ---------------------------------------------------------------------
// The graph itself.
// ---------------------------------------------------------------------

/// Owns the mapping from position key to [`ControlFlowMeta`]; built once
/// per program, read-only afterwards.
pub struct ControlFlowGraph {
    entries: Vec<(u32, ControlFlowMeta)>,
}

impl View for ControlFlowGraph {
    type V = Seq<(u32, ControlFlowMeta)>;

    closed spec fn view(&self) -> Seq<(u32, ControlFlowMeta)> {
        self.entries@
    }
}

impl ControlFlowGraph {
    /// Builds the facts for one program. Total: never fails; a construct
    /// the model does not recognize defaults to reachable, non-terminal.
    pub fn build(program: &Program) -> (g: ControlFlowGraph)
        ensures
            g@ == spec_cfg_entries(*program),
    {
        let mut out: Vec<(u32, ControlFlowMeta)> = Vec::new();
        build_stmts(&program.stmts, 0, true, &mut out);
        proof {
            assert(out@ =~= spec_cfg_entries(*program));
        }
        ControlFlowGraph { entries: out }
    }

    /// The facts recorded for the position `pos` (a span's `lo` offset),
    /// or `None` if that position was never recorded. `None` means
    /// "unknown", not "reachable".
    pub fn meta(&self, pos: u32) -> (m: Option<ControlFlowMeta>)
        ensures
            m == spec_lookup(self@, pos),
    {
        let mut j: usize = self.entries.len();
        proof {
            assert(self@.take(j as int) =~= self@);
        }
        while j > 0
            invariant
                j <= self.entries.len(),
                spec_lookup(self@, pos) == spec_lookup(self@.take(j as int), pos),
            decreases j,
        {
            j = j - 1;
            let e = self.entries[j];
            proof {
                assert(self@.take(j as int + 1).last() == self@[j as int]);
                assert(self@.take(j as int + 1).drop_last() =~= self@.take(j as int));
            }
            if e.0 == pos {
                return Some(e.1);
            }
        }
        proof {
            assert(self@.take(0).len() == 0);
        }
        None
    }
}

// ---------------------------------------------------------------------
// The executable pass.
// ---------------------------------------------------------------------

fn test_always_true(e: &Expr) -> (b: bool)
    ensures
        b == spec_test_always_true(*e),
{
    match e {
        Expr::Lit { lit: Lit::Bool { value }, .. } => *value,
        _ => false,
    }
}

fn has_direct_break(s: &Stmt) -> (b: bool)
    ensures
        b == spec_has_direct_break(*s),
    decreases *s, 0int,
{
    match s {
        Stmt::Break { .. } => true,
        Stmt::Block { stmts, .. } => seq_has_direct_break(stmts, 0),
        Stmt::If { cons, alt, .. } => has_direct_break(&**cons) || (match alt {
            Some(a) => has_direct_break(&**a),
            None => false,
        }),
        Stmt::Try { block, handler, finalizer, .. } => seq_has_direct_break(block, 0) || (
        match handler {
            Some(h) => seq_has_direct_break(h, 0),
            None => false,
        }) || (match finalizer {
            Some(f) => seq_has_direct_break(f, 0),
            None => false,
        }),
        _ => false,
    }
}

fn seq_has_direct_break(ss: &Vec<Stmt>, i: usize) -> (b: bool)
    ensures
        b == spec_seq_has_direct_break(ss@, i as int),
    decreases ss@, ss@.len() - i,
{
    if i >= ss.len() {
        false
    } else {
        has_direct_break(&ss[i]) || seq_has_direct_break(ss, i + 1)
    }
}

fn stmt_stops(s: &Stmt) -> (b: bool)
    ensures
        b == spec_stmt_stops(*s),
    decreases *s, 0int,
{
    match s {
        Stmt::Return { .. } => true,
        Stmt::Throw { .. } => true,
        Stmt::Break { .. } => true,
        Stmt::Continue { .. } => true,
        Stmt::Block { stmts, .. } => seq_stops(stmts, 0),
        Stmt::If { cons, alt, .. } => match alt {
            Some(a) => stmt_stops(&**cons) && stmt_stops(&**a),
            None => false,
        },
        Stmt::While { test, body, .. } => test_always_true(test) && !has_direct_break(&**body),
        Stmt::Switch { cases, .. } => switch_has_default(cases, 0) && switch_all_stop(cases, 0),
        Stmt::Try { block, handler, finalizer, .. } => (match handler {
            Some(_) => false,
            None => seq_stops(block, 0),
        }) || (match finalizer {
            Some(f) => seq_stops(f, 0),
            None => false,
        }),
        _ => false,
    }
}

fn seq_stops(ss: &Vec<Stmt>, i: usize) -> (b: bool)
    ensures
        b == spec_seq_stops(ss@, i as int),
    decreases ss@, ss@.len() - i,
{
    if i >= ss.len() {
        false
    } else {
        stmt_stops(&ss[i]) || seq_stops(ss, i + 1)
    }
}

fn switch_has_default(cases: &Vec<SwitchCase>, i: usize) -> (b: bool)
    ensures
        b == spec_switch_has_default(cases@, i as int),
    decreases cases@, cases@.len() - i,
{
    if i >= cases.len() {
        false
    } else {
        cases[i].test.is_none() || switch_has_default(cases, i + 1)
    }
}

fn switch_all_stop(cases: &Vec<SwitchCase>, i: usize) -> (b: bool)
    ensures
        b == spec_switch_all_stop(cases@, i as int),
    decreases cases@, cases@.len() - i,
{
    if i >= cases.len() {
        true
    } else {
        seq_stops(&cases[i].cons, 0) && switch_all_stop(cases, i + 1)
    }
}

fn build_stmt(s: &Stmt, r: bool, out: &mut Vec<(u32, ControlFlowMeta)>)
    ensures
        final(out)@ == old(out)@ + spec_record_stmt(*s, r),
    decreases *s, 0int,
{
    let sp = s.span();
    let st = stmt_stops(s);
    out.push((sp.lo, ControlFlowMeta { unreachable: !r, stops_execution: st }));
    match s {
        Stmt::Expr { expr, .. } => build_expr(expr, out),
        Stmt::VarDecl { decls, .. } => build_decls(decls, 0, out),
        Stmt::Return { arg, .. } => match arg {
            Some(e) => build_expr(e, out),
            None => (),
        },
        Stmt::Throw { arg, .. } => build_expr(arg, out),
        Stmt::Block { stmts, .. } => build_stmts(stmts, 0, r, out),
        Stmt::If { test, cons, alt, .. } => {
            build_expr(test, out);
            build_stmt(&**cons, r, out);
            match alt {
                Some(a) => build_stmt(&**a, r, out),
                None => (),
            }
        },
        Stmt::While { test, body, .. } => {
            build_expr(test, out);
            build_stmt(&**body, r, out);
        },
        Stmt::Switch { discriminant, cases, .. } => {
            build_expr(discriminant, out);
            build_cases(cases, 0, r, out);
        },
        Stmt::Try { block, handler, finalizer, .. } => {
            build_stmts(block, 0, r, out);
            match handler {
                Some(h) => build_stmts(h, 0, r, out),
                None => (),
            }
            match finalizer {
                Some(f) => build_stmts(f, 0, r, out),
                None => (),
            }
        },
        Stmt::Fn { body, .. } => build_stmts(body, 0, true, out),
        _ => (),
    }
    proof {
        assert(out@ =~= old(out)@ + spec_record_stmt(*s, r));
    }
}

fn build_stmts(ss: &Vec<Stmt>, i: usize, r: bool, out: &mut Vec<(u32, ControlFlowMeta)>)
    ensures
        final(out)@ == old(out)@ + spec_record_stmts(ss@, i as int, r),
    decreases ss@, ss@.len() - i,
{
    if i >= ss.len() {
        proof {
            assert(out@ =~= old(out)@ + spec_record_stmts(ss@, i as int, r));
        }
        return ;
    }
    let st = stmt_stops(&ss[i]);
    build_stmt(&ss[i], r, out);
    build_stmts(ss, i + 1, r && !st, out);
    proof {
        assert(out@ =~= old(out)@ + spec_record_stmts(ss@, i as int, r));
    }
}

fn build_expr(e: &Expr, out: &mut Vec<(u32, ControlFlowMeta)>)
    ensures
        final(out)@ == old(out)@ + spec_record_expr(*e),
    decreases *e, 0int,
{
    match e {
        Expr::Array { elems, .. } => build_opt_exprs(elems, 0, out),
        Expr::Object { props, .. } => build_exprs(props, 0, out),
        Expr::Unary { arg, .. } => build_expr(&**arg, out),
        Expr::Bin { left, right, .. } => {
            build_expr(&**left, out);
            build_expr(&**right, out);
        },
        Expr::Member { obj, .. } => build_expr(&**obj, out),
        Expr::OptChain { base, .. } => build_expr(&**base, out),
        Expr::Call { callee, args, .. } => {
            build_expr(&**callee, out);
            build_exprs(args, 0, out);
        },
        Expr::NonNull { expr, .. } => build_expr(&**expr, out),
        Expr::TsAs { expr, .. } => build_expr(&**expr, out),
        Expr::TsTypeAssertion { expr, .. } => build_expr(&**expr, out),
        Expr::Paren { expr, .. } => build_expr(&**expr, out),
        Expr::Arrow { body, .. } => build_stmts(body, 0, true, out),
        _ => (),
    }
    proof {
        assert(out@ =~= old(out)@ + spec_record_expr(*e));
    }
}

fn build_exprs(es: &Vec<Expr>, i: usize, out: &mut Vec<(u32, ControlFlowMeta)>)
    ensures
        final(out)@ == old(out)@ + spec_record_exprs(es@, i as int),
    decreases es@, es@.len() - i,
{
    if i >= es.len() {
        proof {
            assert(out@ =~= old(out)@ + spec_record_exprs(es@, i as int));
        }
        return ;
    }
    build_expr(&es[i], out);
    build_exprs(es, i + 1, out);
    proof {
        assert(out@ =~= old(out)@ + spec_record_exprs(es@, i as int));
    }
}

fn build_opt_exprs(es: &Vec<Option<Expr>>, i: usize, out: &mut Vec<(u32, ControlFlowMeta)>)
    ensures
        final(out)@ == old(out)@ + spec_record_opt_exprs(es@, i as int),
    decreases es@, es@.len() - i,
{
    if i >= es.len() {
        proof {
            assert(out@ =~= old(out)@ + spec_record_opt_exprs(es@, i as int));
        }
        return ;
    }
    match &es[i] {
        Some(e) => build_expr(e, out),
        None => (),
    }
    build_opt_exprs(es, i + 1, out);
    proof {
        assert(out@ =~= old(out)@ + spec_record_opt_exprs(es@, i as int));
    }
}

fn build_decls(ds: &Vec<VarDeclarator>, i: usize, out: &mut Vec<(u32, ControlFlowMeta)>)
    ensures
        final(out)@ == old(out)@ + spec_record_decls(ds@, i as int),
    decreases ds@, ds@.len() - i,
{
    if i >= ds.len() {
        proof {
            assert(out@ =~= old(out)@ + spec_record_decls(ds@, i as int));
        }
        return ;
    }
    match &ds[i].init {
        Some(e) => build_expr(e, out),
        None => (),
    }
    build_decls(ds, i + 1, out);
    proof {
        assert(out@ =~= old(out)@ + spec_record_decls(ds@, i as int));
    }
}

fn build_cases(cases: &Vec<SwitchCase>, i: usize, r: bool, out: &mut Vec<(u32, ControlFlowMeta)>)
    ensures
        final(out)@ == old(out)@ + spec_record_cases(cases@, i as int, r),
    decreases cases@, cases@.len() - i,
{
    if i >= cases.len() {
        proof {
            assert(out@ =~= old(out)@ + spec_record_cases(cases@, i as int, r));
        }
        return ;
    }
    match &cases[i].test {
        Some(e) => build_expr(e, out),
        None => (),
    }
    build_stmts(&cases[i].cons, 0, r, out);
    build_cases(cases, i + 1, r, out);
    proof {
        assert(out@ =~= old(out)@ + spec_record_cases(cases@, i as int, r));
    }
}

// ---------------------------------------------------------------------
// Laws.
// ---------------------------------------------------------------------

/// Building the control-flow graph is a pure function of the program:
/// two graphs built from the same program answer every position query
/// identically.
pub proof fn lemma_cfg_build_idempotent(
    g1: Seq<(u32, ControlFlowMeta)>,
    g2: Seq<(u32, ControlFlowMeta)>,
    p: Program,
    pos: u32,
)
    requires
        g1 == spec_cfg_entries(p),
        g2 == spec_cfg_entries(p),
    ensures
        spec_lookup(g1, pos) == spec_lookup(g2, pos),
{
}

} // verus!
