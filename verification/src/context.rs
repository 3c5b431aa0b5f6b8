//! The per-run diagnostic context: the single mutable collection point of
//! one lint run and the only channel through which rule logic, native or
//! external, reports findings.

use vstd::prelude::*;
use crate::cfg::{ControlFlowGraph, ControlFlowMeta, spec_lookup};
use crate::diagnostic::{DiagData, Diagnostic, diags_view};
use crate::span::Span;

verus! {

/// The mathematical value of a [`Context`]: the control-flow entries it
/// answers queries from, the diagnostics gathered so far in insertion
/// order, and the external rule codes recorded for observability.
pub struct ContextData {
    pub cfg: Seq<(u32, ControlFlowMeta)>,
    pub diags: Seq<DiagData>,
    pub plugin_codes: Seq<Seq<char>>,
}

/// Per-run aggregate state: owns the growing diagnostic list and the
/// control-flow facts of the program under analysis. Created at the start
/// of a lint run; its diagnostics are handed off to the caller at the end.
pub struct Context {
    cfg: ControlFlowGraph,
    diagnostics: Vec<Diagnostic>,
    plugin_codes: Vec<String>,
}

impl View for Context {
    type V = ContextData;

    closed spec fn view(&self) -> ContextData {
        ContextData {
            cfg: self.cfg@,
            diags: diags_view(self.diagnostics@),
            plugin_codes: self.plugin_codes@.map_values(|c: String| c@),
        }
    }
}

impl Context {
    /// A fresh context for one run, seeded with that run's control-flow
    /// graph: no diagnostics, no recorded external codes.
    pub fn new(cfg: ControlFlowGraph) -> (ctx: Context)
        ensures
            ctx@.cfg == cfg@,
            ctx@.diags == Seq::<DiagData>::empty(),
            ctx@.plugin_codes == Seq::<Seq<char>>::empty(),
    {
        let ctx = Context { cfg, diagnostics: Vec::new(), plugin_codes: Vec::new() };
        proof {
            assert(ctx@.diags =~= Seq::<DiagData>::empty());
            assert(ctx@.plugin_codes =~= Seq::<Seq<char>>::empty());
        }
        ctx
    }

    /// Appends one diagnostic without a hint. The only validation is that
    /// the rule code is non-empty; the operation never fails.
    pub fn add_diagnostic(&mut self, span: Span, rule_code: String, message: String)
        requires
            rule_code@.len() > 0,
        ensures
            final(self)@.diags == old(self)@.diags.push(
                DiagData { rule_code: rule_code@, span, message: message@, hint: None },
            ),
            final(self)@.cfg == old(self)@.cfg,
            final(self)@.plugin_codes == old(self)@.plugin_codes,
    {
        self.diagnostics.push(Diagnostic { rule_code, span, message, hint: None });
        proof {
            assert(self@.diags =~= old(self)@.diags.push(
                DiagData { rule_code: rule_code@, span, message: message@, hint: None },
            ));
        }
    }

    /// Appends one diagnostic with a remediation hint attached.
    pub fn add_diagnostic_with_hint(
        &mut self,
        span: Span,
        rule_code: String,
        message: String,
        hint: String,
    )
        requires
            rule_code@.len() > 0,
        ensures
            final(self)@.diags == old(self)@.diags.push(
                DiagData { rule_code: rule_code@, span, message: message@, hint: Some(hint@) },
            ),
            final(self)@.cfg == old(self)@.cfg,
            final(self)@.plugin_codes == old(self)@.plugin_codes,
    {
        self.diagnostics.push(Diagnostic { rule_code, span, message, hint: Some(hint) });
        proof {
            assert(self@.diags =~= old(self)@.diags.push(
                DiagData { rule_code: rule_code@, span, message: message@, hint: Some(hint@) },
            ));
        }
    }

    /// Read-only access to the control-flow facts of the current run.
    pub fn control_flow(&self) -> (g: &ControlFlowGraph)
        ensures
            g@ == self@.cfg,
    {
        &self.cfg
    }

    /// Answers a control-flow query by the `lo` offset of a span, as the
    /// external boundary does; `None` means "no information".
    pub fn control_flow_meta(&self, pos: u32) -> (m: Option<ControlFlowMeta>)
        ensures
            m == spec_lookup(self@.cfg, pos),
    {
        self.cfg.meta(pos)
    }

    /// Records which external rule codes were discovered during the run,
    /// for observability; diagnostics are unaffected.
    pub fn set_plugin_codes(&mut self, codes: Vec<String>)
        ensures
            final(self)@.plugin_codes == codes@.map_values(|c: String| c@),
            final(self)@.diags == old(self)@.diags,
            final(self)@.cfg == old(self)@.cfg,
    {
        self.plugin_codes = codes;
    }

    /// The external rule codes recorded for this run.
    pub fn plugin_codes(&self) -> (codes: &Vec<String>)
        ensures
            codes@.map_values(|c: String| c@) == self@.plugin_codes,
    {
        &self.plugin_codes
    }

    /// Hands the accumulated diagnostics, in insertion order, to the
    /// caller, leaving the context empty. Called once at the end of a run.
    pub fn take_diagnostics(&mut self) -> (ds: Vec<Diagnostic>)
        ensures
            diags_view(ds@) == old(self)@.diags,
            final(self)@.diags == Seq::<DiagData>::empty(),
            final(self)@.cfg == old(self)@.cfg,
            final(self)@.plugin_codes == old(self)@.plugin_codes,
    {
        let mut ds: Vec<Diagnostic> = Vec::new();
        core::mem::swap(&mut ds, &mut self.diagnostics);
        proof {
            assert(self@.diags =~= Seq::<DiagData>::empty());
        }
        ds
    }
}

} // verus!
