//! Half-open ranges into the source text, and the formula wrapper.
//!
//! Every other structure in this crate refers to source text only through a
//! `Span`; none of them owns a copy of the text.

use vstd::prelude::*;

verus! {

/// A half-open range `start..end` of positions in the source text.
#[derive(Clone, Copy, Debug, PartialEq, Eq, Structural)]
pub struct Span {
    pub start: usize,
    pub end: usize,
}

impl Span {
    /// A span is well formed when its bounds are ordered.
    pub open spec fn wf(self) -> bool {
        self.start <= self.end
    }

    /// True when the span lies inside a text of length `len`.
    pub open spec fn in_bounds(self, len: nat) -> bool {
        self.start <= self.end && self.end <= len
    }

    pub fn new(start: usize, end: usize) -> (r: Span)
        ensures
            r == (Span { start, end }),
    {
        Span { start, end }
    }
}

/// A formula: a span of source text delimited by `$` characters on both ends.
#[derive(Clone, Copy, Debug, PartialEq, Eq, Structural)]
pub struct Formula(pub Span);

impl Formula {
    /// The span of the formula text proper, with the two delimiter
    /// characters stripped.
    pub fn inner(&self) -> (r: Span)
        requires
            self.0.start + 2 <= self.0.end,
        ensures
            r.start == self.0.start + 1,
            r.end == self.0.end - 1,
    {
        Span { start: self.0.start + 1, end: self.0.end - 1 }
    }
}

} // verus!
