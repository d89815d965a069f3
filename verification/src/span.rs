//! Half-open intervals over the original source text.

use crate::TextSize;
use vstd::prelude::*;
use vstd::string::StrSliceExecFns;

verus! {

/// A half-open interval `[start, end)` of character offsets into the
/// original source text. A span in circulation is never empty and never
/// inverted (`start < end`); every construction site checks this.
#[derive(Clone, Copy, PartialEq, Eq, Structural, Debug)]
pub struct Span(pub TextSize, pub TextSize);

impl Span {
    /// A span is well formed when it is non-empty and not inverted.
    pub open spec fn wf(self) -> bool {
        self.0 < self.1
    }

    pub fn start(&self) -> (r: TextSize)
        ensures
            r == self.0,
    {
        self.0
    }

    pub fn end(&self) -> (r: TextSize)
        ensures
            r == self.1,
    {
        self.1
    }

    /// The substring of `source` covered by this span. The caller must hand
    /// in the same text the span's offsets were computed against; beyond the
    /// bounds check below, that is the caller's contract to uphold.
    pub fn text<'a>(&self, source: &'a str) -> (r: &'a str)
        requires
            self.0 <= self.1,
            self.1 <= source@.len(),
        ensures
            r@ == source@.subrange(self.0 as int, self.1 as int),
    {
        source.substring_char(self.0 as usize, self.1 as usize)
    }
}

} // verus!
