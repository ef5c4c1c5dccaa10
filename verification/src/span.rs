//! Source spans: half-open byte ranges into the original program text.
//!
//! Spans reference, never own, a location in the source; every diagnostic
//! carries one so that failures point at the exact expression at fault.

use vstd::prelude::*;

verus! {

/// A half-open range `[start, end)` of byte offsets into the source text.
#[derive(Clone, Copy, Debug, PartialEq, Eq, Structural)]
pub struct Span {
    pub start: usize,
    pub end: usize,
}

impl Span {
    /// Builds the span covering bytes `start` up to (excluding) `end`.
    pub fn new(start: usize, end: usize) -> (r: Span)
        ensures
            r == (Span { start, end }),
    {
        Span { start, end }
    }
}

} // verus!
