//! Source-qualified byte ranges.
use vstd::prelude::*;

verus! {

/// Identifies one source file.
#[derive(Debug, Clone, Copy, PartialEq, Eq, Structural)]
pub struct SourceId(pub u32);

/// A half-open byte range `start..end` in one source file.
#[derive(Debug, Clone, Copy, PartialEq, Eq, Structural)]
pub struct Span {
    /// The file the range lies in.
    pub source: SourceId,
    /// The first byte of the range.
    pub start: usize,
    /// One past the last byte of the range.
    pub end: usize,
}

impl Span {
    /// A span is well formed when it does not end before it starts.
    pub open spec fn wf(self) -> bool {
        self.start <= self.end
    }

    /// The number of bytes the span covers.
    pub open spec fn spec_len(self) -> int {
        self.end - self.start
    }

    /// Creates a span from `start` to `end` in `source`.
    pub fn new(source: SourceId, start: usize, end: usize) -> (r: Span)
        requires
            start <= end,
        ensures
            r == (Span { source, start, end }),
            r.wf(),
    {
        Span { source, start, end }
    }

    /// The number of bytes the span covers.
    pub fn len(&self) -> (r: usize)
        requires
            self.wf(),
        ensures
            r == self.spec_len(),
    {
        self.end - self.start
    }
}

} // verus!
