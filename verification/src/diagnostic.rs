//! One reported rule violation: code, span, message, optional remediation
//! hint.

use vstd::prelude::*;
use crate::span::Span;

verus! {

/// The mathematical value of a [`Diagnostic`]: the same fields over
/// sequences of characters.
pub struct DiagData {
    pub rule_code: Seq<char>,
    pub span: Span,
    pub message: Seq<char>,
    pub hint: Option<Seq<char>>,
}

/// A diagnostic is immutable once created; ownership moves into the
/// per-run diagnostic list, which only ever grows.
pub struct Diagnostic {
    pub rule_code: String,
    pub span: Span,
    pub message: String,
    pub hint: Option<String>,
}

impl View for Diagnostic {
    type V = DiagData;

    open spec fn view(&self) -> DiagData {
        DiagData {
            rule_code: self.rule_code@,
            span: self.span,
            message: self.message@,
            hint: match self.hint {
                Some(h) => Some(h@),
                None => None,
            },
        }
    }
}

/// The view of a whole diagnostic list.
pub open spec fn diags_view(ds: Seq<Diagnostic>) -> Seq<DiagData> {
    ds.map_values(|d: Diagnostic| d@)
}

impl Diagnostic {
    pub fn new(span: Span, rule_code: String, message: String, hint: Option<String>) -> (d:
        Diagnostic)
        ensures
            d@ == (DiagData {
                rule_code: rule_code@,
                span,
                message: message@,
                hint: match hint {
                    Some(h) => Some(h@),
                    None => None,
                },
            }),
    {
        Diagnostic { rule_code, span, message, hint }
    }
}

} // verus!
