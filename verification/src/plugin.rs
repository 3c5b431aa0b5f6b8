//! The external-rule boundary: the per-invocation state an externally
//! supplied rule module talks to, and the fold of its results back into
//! the shared diagnostic context.
//!
//! One invocation runs one module against one program inside a fresh,
//! isolated execution environment. The environment itself (a sandboxed
//! runtime, a subprocess, any strongly isolated channel) lives outside
//! this crate; what it is allowed to do is fixed here: register the rule
//! code it owns, report diagnostics for a code, and query control-flow
//! facts. When the environment has settled — or faulted — everything it
//! reported so far is harvested into the context, so partial results
//! survive a fault.

use vstd::prelude::*;
use vstd::pervasive::VecAdditionalExecFns;
use crate::cfg::spec_lookup;
use crate::context::Context;
use crate::diagnostic::DiagData;
use crate::span::Span;

verus! {

/// One `{span, message, hint?}` record as an external module reports it;
/// the code it belongs to is the key it is reported under.
pub struct PluginDiagnostic {
    pub span: Span,
    pub message: String,
    pub hint: Option<String>,
}

/// The mathematical value of a [`PluginDiagnostic`].
pub struct PluginDiagData {
    pub span: Span,
    pub message: Seq<char>,
    pub hint: Option<Seq<char>>,
}

impl View for PluginDiagnostic {
    type V = PluginDiagData;

    open spec fn view(&self) -> PluginDiagData {
        PluginDiagData {
            span: self.span,
            message: self.message@,
            hint: match self.hint {
                Some(h) => Some(h@),
                None => None,
            },
        }
    }
}

pub open spec fn pdiags_view(ds: Seq<PluginDiagnostic>) -> Seq<PluginDiagData> {
    ds.map_values(|d: PluginDiagnostic| d@)
}

/// What a control-flow query returns over the boundary. Both fields are
/// `None` when the position was never recorded: no information is ever
/// fabricated.
#[derive(Clone, Copy, PartialEq, Eq, Structural, Debug)]
pub struct ControlFlowResponse {
    pub is_reachable: Option<bool>,
    pub stops_execution: Option<bool>,
}

/// Why one external rule's invocation failed; recoverable: the run goes
/// on with the remaining rules.
#[derive(Clone, Copy, PartialEq, Eq, Structural, Debug)]
pub enum PluginError {
    /// The serialized tree sent across the boundary could not be decoded.
    MalformedInput,
    /// The module failed to load or evaluate.
    LoadError,
    /// The module's entry point faulted during execution.
    RuntimeFault,
}

/// How one driven invocation ended.
#[derive(Clone, Copy, PartialEq, Eq, Structural, Debug)]
pub enum ModuleOutcome {
    Completed,
    Faulted { error: PluginError },
}

/// Identifies which module to load: immutable, small, freely shareable
/// across concurrent lint runs, which each start their own environment.
pub struct ModuleDescriptor {
    pub specifier: String,
}

/// The mathematical value of a [`PluginRunState`].
pub struct PluginRunData {
    pub codes: Seq<Seq<char>>,
    pub reported: Seq<(Seq<char>, Seq<PluginDiagData>)>,
}

/// Per-invocation state, created fresh for every single invocation of an
/// external rule module against a single program and destroyed at its
/// end: the rule codes the module registered and a diagnostic buffer
/// keyed by code. Nothing persists between invocations.
pub struct PluginRunState {
    registered_codes: Vec<String>,
    reported: Vec<(String, Vec<PluginDiagnostic>)>,
}

impl View for PluginRunState {
    type V = PluginRunData;

    closed spec fn view(&self) -> PluginRunData {
        PluginRunData {
            codes: self.registered_codes@.map_values(|c: String| c@),
            reported: self.reported@.map_values(
                |e: (String, Vec<PluginDiagnostic>)| (e.0@, pdiags_view(e.1@)),
            ),
        }
    }
}

/// Whether `codes` already holds `c`.
pub open spec fn spec_codes_contain(codes: Seq<Seq<char>>, c: Seq<char>, i: int) -> bool
    decreases codes.len() - i,
{
    if i < 0 || i >= codes.len() {
        false
    } else {
        codes[i] == c || spec_codes_contain(codes, c, i + 1)
    }
}

/// Storing a report under a code: the first entry already keyed by the
/// code is overwritten in place — a code reported twice overwrites, it
/// does not merge — and a new code is appended.
pub open spec fn spec_store(
    rep: Seq<(Seq<char>, Seq<PluginDiagData>)>,
    i: int,
    code: Seq<char>,
    ds: Seq<PluginDiagData>,
) -> Seq<(Seq<char>, Seq<PluginDiagData>)>
    decreases rep.len() - i,
{
    if i < 0 || i >= rep.len() {
        rep.push((code, ds))
    } else if rep[i].0 == code {
        rep.update(i, (code, ds))
    } else {
        spec_store(rep, i + 1, code, ds)
    }
}

/// The diagnostics one buffer entry folds into the context: each record
/// under the entry's code, unchanged, in the order it was reported.
pub open spec fn spec_entry_diags(code: Seq<char>, ds: Seq<PluginDiagData>, j: int) -> Seq<
    DiagData,
>
    decreases ds.len() - j,
{
    if j < 0 || j >= ds.len() {
        Seq::empty()
    } else {
        seq![
            DiagData { rule_code: code, span: ds[j].span, message: ds[j].message, hint: ds[j].hint },
        ] + spec_entry_diags(code, ds, j + 1)
    }
}

/// Everything a harvest folds into the context, entry by entry.
pub open spec fn spec_harvest(rep: Seq<(Seq<char>, Seq<PluginDiagData>)>, i: int) -> Seq<DiagData>
    decreases rep.len() - i,
{
    if i < 0 || i >= rep.len() {
        Seq::empty()
    } else {
        spec_entry_diags(rep[i].0, rep[i].1, 0) + spec_harvest(rep, i + 1)
    }
}

impl PluginRunState {
    /// Every buffered code is one the context will accept.
    pub open spec fn wf(self) -> bool {
        forall|i: int| 0 <= i < self@.reported.len() ==> #[trigger] self@.reported[i].0.len() > 0
    }

    /// A fresh per-invocation state: nothing registered, nothing
    /// reported. Every invocation starts here; no state leaks in from an
    /// earlier or concurrent one.
    pub fn new() -> (s: PluginRunState)
        ensures
            s@.codes == Seq::<Seq<char>>::empty(),
            s@.reported == Seq::<(Seq<char>, Seq<PluginDiagData>)>::empty(),
            s.wf(),
    {
        let s = PluginRunState { registered_codes: Vec::new(), reported: Vec::new() };
        proof {
            assert(s@.codes =~= Seq::<Seq<char>>::empty());
            assert(s@.reported =~= Seq::<(Seq<char>, Seq<PluginDiagData>)>::empty());
        }
        s
    }

    fn codes_contain(&self, code: &String, i: usize) -> (b: bool)
        ensures
            b == spec_codes_contain(self@.codes, code@, i as int),
        decreases self@.codes.len() - i,
    {
        if i >= self.registered_codes.len() {
            false
        } else {
            self.registered_codes[i] == *code || self.codes_contain(code, i + 1)
        }
    }

    /// The module declares the diagnostic code it owns; recorded once in
    /// the per-invocation set.
    pub fn register_rule_code(&mut self, code: String)
        ensures
            final(self)@.codes == if spec_codes_contain(old(self)@.codes, code@, 0) {
                old(self)@.codes
            } else {
                old(self)@.codes.push(code@)
            },
            final(self)@.reported == old(self)@.reported,
            old(self).wf() ==> final(self).wf(),
    {
        if !self.codes_contain(&code, 0) {
            self.registered_codes.push(code);
            proof {
                assert(self@.codes =~= old(self)@.codes.push(code@));
                assert(self@.reported =~= old(self)@.reported);
            }
        }
    }

    fn store_from(&mut self, i: usize, code: String, ds: Vec<PluginDiagnostic>)
        requires
            code@.len() > 0,
        ensures
            final(self)@.reported == spec_store(
                old(self)@.reported,
                i as int,
                code@,
                pdiags_view(ds@),
            ),
            final(self)@.codes == old(self)@.codes,
            old(self).wf() ==> final(self).wf(),
        decreases self@.reported.len() - i,
    {
        if i >= self.reported.len() {
            self.reported.push((code, ds));
            proof {
                assert(self@.reported =~= old(self)@.reported.push((code@, pdiags_view(ds@))));
            }
        } else if self.reported[i].0 == code {
            self.reported.set(i, (code, ds));
            proof {
                assert(self@.reported =~= old(self)@.reported.update(
                    i as int,
                    (code@, pdiags_view(ds@)),
                ));
            }
        } else {
            self.store_from(i + 1, code, ds);
        }
    }

    /// The module reports zero or more records for a code it names. The
    /// last write for a given code wins. A code the context would refuse
    /// (the empty one) is ignored.
    pub fn report_diagnostics(&mut self, code: String, diagnostics: Vec<PluginDiagnostic>)
        ensures
            final(self)@.reported == if code@.len() == 0 {
                old(self)@.reported
            } else {
                spec_store(old(self)@.reported, 0, code@, pdiags_view(diagnostics@))
            },
            final(self)@.codes == old(self)@.codes,
            old(self).wf() ==> final(self).wf(),
    {
        let empty = String::new();
        if code == empty {
            proof {
                assert(code@.len() == 0);
            }
            return ;
        }
        proof {
            assert(code@.len() > 0) by {
                if code@.len() == 0 {
                    assert(code@ =~= Seq::<char>::empty());
                }
            }
        }
        self.store_from(0, code, diagnostics);
    }

    /// Folds every buffered entry into the shared context — the records
    /// become ordinary diagnostics, indistinguishable from native ones —
    /// then records the registered codes. Consumes the invocation state:
    /// nothing survives for a later run.
    pub fn harvest_into(self, context: &mut Context)
        requires
            self.wf(),
        ensures
            final(context)@.diags == old(context)@.diags + spec_harvest(self@.reported, 0),
            final(context)@.plugin_codes == self@.codes,
            final(context)@.cfg == old(context)@.cfg,
    {
        proof {
            assert forall|k: int| 0 <= k < self.reported@.len() implies #[trigger] self.reported@[k].0@.len()
                > 0 by {
                assert(self@.reported[k].0 == self.reported@[k].0@);
            }
        }
        harvest_from(&self.reported, 0, context);
        context.set_plugin_codes(self.registered_codes);
    }
}

fn harvest_entry(code: &String, ds: &Vec<PluginDiagnostic>, j: usize, context: &mut Context)
    requires
        code@.len() > 0,
    ensures
        final(context)@.diags == old(context)@.diags + spec_entry_diags(
            code@,
            pdiags_view(ds@),
            j as int,
        ),
        final(context)@.plugin_codes == old(context)@.plugin_codes,
        final(context)@.cfg == old(context)@.cfg,
    decreases ds@.len() - j,
{
    if j >= ds.len() {
        proof {
            assert(context@.diags =~= old(context)@.diags + spec_entry_diags(
                code@,
                pdiags_view(ds@),
                j as int,
            ));
        }
        return ;
    }
    let d = &ds[j];
    match &d.hint {
        Some(h) => context.add_diagnostic_with_hint(
            d.span,
            code.clone(),
            d.message.clone(),
            h.clone(),
        ),
        None => context.add_diagnostic(d.span, code.clone(), d.message.clone()),
    }
    harvest_entry(code, ds, j + 1, context);
    proof {
        assert(context@.diags =~= old(context)@.diags + spec_entry_diags(
            code@,
            pdiags_view(ds@),
            j as int,
        ));
    }
}

fn harvest_from(rep: &Vec<(String, Vec<PluginDiagnostic>)>, i: usize, context: &mut Context)
    requires
        forall|k: int| 0 <= k < rep@.len() ==> #[trigger] rep@[k].0@.len() > 0,
    ensures
        final(context)@.diags == old(context)@.diags + spec_harvest(
            rep@.map_values(|e: (String, Vec<PluginDiagnostic>)| (e.0@, pdiags_view(e.1@))),
            i as int,
        ),
        final(context)@.plugin_codes == old(context)@.plugin_codes,
        final(context)@.cfg == old(context)@.cfg,
    decreases rep@.len() - i,
{
    let ghost repv = rep@.map_values(|e: (String, Vec<PluginDiagnostic>)| (e.0@, pdiags_view(e.1@)));
    if i >= rep.len() {
        proof {
            assert(context@.diags =~= old(context)@.diags + spec_harvest(repv, i as int));
        }
        return ;
    }
    harvest_entry(&rep[i].0, &rep[i].1, 0, context);
    harvest_from(rep, i + 1, context);
    proof {
        assert(context@.diags =~= old(context)@.diags + spec_harvest(repv, i as int));
    }
}

/// Answers one control-flow query from the sandbox: the position's facts
/// from the context's graph, or `None`/`None` when the position was never
/// recorded — never a fabricated default.
pub fn query_control_flow(context: &Context, span: Span) -> (r: ControlFlowResponse)
    ensures
        r == (match spec_lookup(context@.cfg, span.lo) {
            Some(m) => ControlFlowResponse {
                is_reachable: Some(!m.unreachable),
                stops_execution: Some(m.stops_execution),
            },
            None => ControlFlowResponse { is_reachable: None, stops_execution: None },
        }),
{
    match context.control_flow_meta(span.lo) {
        Some(m) => ControlFlowResponse {
            is_reachable: Some(!m.unreachable),
            stops_execution: Some(m.stops_execution),
        },
        None => ControlFlowResponse { is_reachable: None, stops_execution: None },
    }
}

/// Ends one driven invocation: whatever the outcome, everything the
/// module reported before it settled or faulted is harvested — partial
/// results are kept deliberately — and a fault surfaces as a recoverable
/// error for this one rule, so the run can continue with the others.
pub fn finish_invocation(state: PluginRunState, outcome: ModuleOutcome, context: &mut Context) -> (e:
    Option<PluginError>)
    requires
        state.wf(),
    ensures
        final(context)@.diags == old(context)@.diags + spec_harvest(state@.reported, 0),
        final(context)@.plugin_codes == state@.codes,
        final(context)@.cfg == old(context)@.cfg,
        e == (match outcome {
            ModuleOutcome::Completed => None::<PluginError>,
            ModuleOutcome::Faulted { error } => Some(error),
        }),
{
    state.harvest_into(context);
    match outcome {
        ModuleOutcome::Completed => None,
        ModuleOutcome::Faulted { error } => Some(error),
    }
}

// ---------------------------------------------------------------------
// Laws.
// ---------------------------------------------------------------------

/// Every record reported under a code is harvested unchanged, at its own
/// position: same span, same message, same hint, under that code.
pub proof fn lemma_entry_round_trip(code: Seq<char>, ds: Seq<PluginDiagData>, j: int)
    requires
        0 <= j < ds.len(),
    ensures
        spec_entry_diags(code, ds, 0).len() == ds.len(),
        spec_entry_diags(code, ds, 0)[j] == (DiagData {
            rule_code: code,
            span: ds[j].span,
            message: ds[j].message,
            hint: ds[j].hint,
        }),
{
    lemma_entry_len(code, ds, 0);
    lemma_entry_index(code, ds, 0, j);
}

proof fn lemma_entry_len(code: Seq<char>, ds: Seq<PluginDiagData>, j: int)
    requires
        0 <= j <= ds.len(),
    ensures
        spec_entry_diags(code, ds, j).len() == ds.len() - j,
    decreases ds.len() - j,
{
    if j < ds.len() {
        lemma_entry_len(code, ds, j + 1);
    }
}

proof fn lemma_entry_index(code: Seq<char>, ds: Seq<PluginDiagData>, j: int, k: int)
    requires
        0 <= j <= k < ds.len(),
    ensures
        spec_entry_diags(code, ds, j)[k - j] == (DiagData {
            rule_code: code,
            span: ds[k].span,
            message: ds[k].message,
            hint: ds[k].hint,
        }),
    decreases ds.len() - j,
{
    lemma_entry_len(code, ds, j + 1);
    if j < k {
        lemma_entry_index(code, ds, j + 1, k);
    }
}

/// A report stored into a fresh state round-trips whole: harvesting a
/// buffer with that one entry folds in exactly its records, unchanged.
pub proof fn lemma_single_report_harvest(code: Seq<char>, ds: Seq<PluginDiagData>)
    ensures
        spec_store(Seq::empty(), 0, code, ds) == seq![(code, ds)],
        spec_harvest(seq![(code, ds)], 0) == spec_entry_diags(code, ds, 0),
{
    assert(spec_store(Seq::empty(), 0, code, ds) =~= seq![(code, ds)]);
    let rep = seq![(code, ds)];
    assert(spec_harvest(rep, 1) == Seq::<DiagData>::empty());
    assert(spec_entry_diags(rep[0].0, rep[0].1, 0) + Seq::<DiagData>::empty() =~= spec_entry_diags(
        code,
        ds,
        0,
    ));
}

/// An invocation in which nothing was reported contributes no
/// diagnostics: an unknown or unregistered rule code is a no-op, not an
/// error.
pub proof fn lemma_empty_invocation_is_noop(s: PluginRunState)
    requires
        s@.reported.len() == 0,
    ensures
        spec_harvest(s@.reported, 0) == Seq::<DiagData>::empty(),
{
}

} // verus!
