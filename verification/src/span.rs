//! Byte-offset ranges over the original source text: the addressing scheme
//! used by every other component.

use vstd::prelude::*;

verus! {

/// A byte-offset range `[lo, hi)` into the source buffer.
///
/// Spans are plain values: they are never mutated after creation, and the
/// control-flow graph is keyed by a span's `lo` offset.
#[derive(Clone, Copy, PartialEq, Eq, Structural, Debug)]
pub struct Span {
    pub lo: u32,
    pub hi: u32,
}

impl Span {
    /// A well-formed span never ends before it starts.
    pub open spec fn wf(self) -> bool {
        self.lo <= self.hi
    }

    pub fn new(lo: u32, hi: u32) -> (s: Span)
        requires
            lo <= hi,
        ensures
            s == (Span { lo, hi }),
            s.wf(),
    {
        Span { lo, hi }
    }
}

} // verus!
