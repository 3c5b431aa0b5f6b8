//! The run driver: uniform invocation of the selected rules against one
//! program.
//!
//! A registry entry is a tagged union over the two rule variants: native
//! (compiled analysis logic, run in-process by [`run`]) and external (a
//! module descriptor, driven through the boundary in [`crate::plugin`] by
//! the embedding host between or after the native runs, against the same
//! context). One run builds the control-flow graph once, seeds one
//! context with it, invokes every selected rule in the caller's order and
//! takes the diagnostics once at the end.

use vstd::prelude::*;
use crate::ast::Program;
use crate::cfg::ControlFlowGraph;
use crate::context::Context;
use crate::diagnostic::{DiagData, Diagnostic, diags_view};
use crate::plugin::ModuleDescriptor;
use crate::rules::no_non_null_assertion::{NoNonNullAssertion, spec_nn_program};
use crate::rules::no_sparse_arrays::{NoSparseArrays, spec_nsa_program};
use crate::rules::prefer_as_const::{PreferAsConst, spec_pac_program};
use crate::rules::use_isnan::{UseIsNaN, spec_uin_program};

verus! {

/// The compiled-in rules. A native rule that faults is a defect in
/// trusted code and may abort the whole run; nothing here recovers it.
pub enum NativeRule {
    NonNullAssertion(NoNonNullAssertion),
    SparseArrays(NoSparseArrays),
    AsConst(PreferAsConst),
    IsNaN(UseIsNaN),
}

/// One registry entry: immutable configuration, constructed once and
/// reused across runs, owning no per-run state.
pub enum RuleKind {
    Native(NativeRule),
    External(ModuleDescriptor),
}

/// What one native rule emits for one program.
pub open spec fn spec_rule_diags(r: NativeRule, p: Program) -> Seq<DiagData> {
    match r {
        NativeRule::NonNullAssertion(_) => spec_nn_program(p),
        NativeRule::SparseArrays(_) => spec_nsa_program(p),
        NativeRule::AsConst(_) => spec_pac_program(p),
        NativeRule::IsNaN(_) => spec_uin_program(p),
    }
}

/// What a run of the rules from position `i` on emits: each rule's own
/// sequence, concatenated in rule order.
pub open spec fn spec_run_diags(rs: Seq<NativeRule>, i: int, p: Program) -> Seq<DiagData>
    decreases rs.len() - i,
{
    if i < 0 || i >= rs.len() {
        Seq::empty()
    } else {
        spec_rule_diags(rs[i], p) + spec_run_diags(rs, i + 1, p)
    }
}

/// The identifying code of one native rule.
pub open spec fn spec_rule_code(r: NativeRule) -> Seq<char> {
    match r {
        NativeRule::NonNullAssertion(_) => crate::rules::no_non_null_assertion::spec_code(),
        NativeRule::SparseArrays(_) => crate::rules::no_sparse_arrays::spec_code(),
        NativeRule::AsConst(_) => crate::rules::prefer_as_const::spec_code(),
        NativeRule::IsNaN(_) => crate::rules::use_isnan::spec_code(),
    }
}

impl NativeRule {
    pub fn code(&self) -> (c: &'static str)
        ensures
            c@ == spec_rule_code(*self),
    {
        match self {
            NativeRule::NonNullAssertion(r) => r.code(),
            NativeRule::SparseArrays(r) => r.code(),
            NativeRule::AsConst(r) => r.code(),
            NativeRule::IsNaN(r) => r.code(),
        }
    }

    /// Runs this rule against the shared context.
    pub fn lint_program(&self, context: &mut Context, program: &Program)
        ensures
            final(context)@.diags == old(context)@.diags + spec_rule_diags(*self, *program),
            final(context)@.cfg == old(context)@.cfg,
            final(context)@.plugin_codes == old(context)@.plugin_codes,
    {
        match self {
            NativeRule::NonNullAssertion(r) => r.lint_program(context, program),
            NativeRule::SparseArrays(r) => r.lint_program(context, program),
            NativeRule::AsConst(r) => r.lint_program(context, program),
            NativeRule::IsNaN(r) => r.lint_program(context, program),
        }
    }
}

fn run_rules_from(rules: &Vec<NativeRule>, i: usize, context: &mut Context, program: &Program)
    ensures
        final(context)@.diags == old(context)@.diags + spec_run_diags(
            rules@,
            i as int,
            *program,
        ),
        final(context)@.cfg == old(context)@.cfg,
        final(context)@.plugin_codes == old(context)@.plugin_codes,
    decreases rules@.len() - i,
{
    if i >= rules.len() {
        proof {
            assert(context@.diags =~= old(context)@.diags + spec_run_diags(
                rules@,
                i as int,
                *program,
            ));
        }
        return ;
    }
    rules[i].lint_program(context, program);
    run_rules_from(rules, i + 1, context, program);
    proof {
        assert(context@.diags =~= old(context)@.diags + spec_run_diags(
            rules@,
            i as int,
            *program,
        ));
    }
}

/// One whole lint run over native rules: builds the control-flow graph
/// once, seeds one fresh context, invokes every rule in the given order
/// and hands back the accumulated diagnostics — each rule's findings in
/// its own visit order, rule after rule, never re-sorted by position.
pub fn run(rules: &Vec<NativeRule>, program: &Program) -> (ds: Vec<Diagnostic>)
    ensures
        diags_view(ds@) == spec_run_diags(rules@, 0, *program),
{
    let graph = ControlFlowGraph::build(program);
    let mut context = Context::new(graph);
    run_rules_from(rules, 0, &mut context, program);
    let ds = context.take_diagnostics();
    proof {
        assert(diags_view(ds@) =~= spec_run_diags(rules@, 0, *program));
    }
    ds
}

// ---------------------------------------------------------------------
// Laws.
// ---------------------------------------------------------------------

/// Running rules `[a, b]` in that order yields `a`'s diagnostics, in
/// `a`'s own emission order, followed by `b`'s — whatever the spans'
/// positions in the source are.
pub proof fn lemma_diagnostic_ordering(a: NativeRule, b: NativeRule, p: Program)
    ensures
        spec_run_diags(seq![a, b], 0, p) == spec_rule_diags(a, p) + spec_rule_diags(b, p),
{
    let rs = seq![a, b];
    assert(rs.len() == 2 && rs[0] == a && rs[1] == b);
    assert(spec_run_diags(rs, 2, p) == Seq::<DiagData>::empty());
    assert(spec_run_diags(rs, 1, p) == spec_rule_diags(b, p) + Seq::<DiagData>::empty());
    assert(spec_rule_diags(b, p) + Seq::<DiagData>::empty() =~= spec_rule_diags(b, p));
    assert(spec_run_diags(rs, 0, p) == spec_rule_diags(a, p) + spec_rule_diags(b, p));
}

} // verus!
