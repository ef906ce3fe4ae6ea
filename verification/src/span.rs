use vstd::prelude::*;

verus! {

/// A region of source text, by the byte offsets where it starts and ends.
#[derive(Clone, Copy, Debug, PartialEq, Eq, Structural)]
pub struct Span {
    pub start: usize,
    pub end: usize,
}

impl Span {
    pub fn new(start: usize, end: usize) -> (span: Span)
        ensures
            span == (Span { start, end }),
    {
        Span { start, end }
    }

    /// The span of values that come from no source text.
    pub fn unknown() -> (span: Span)
        ensures
            span == (Span { start: 0, end: 0 }),
    {
        Span { start: 0, end: 0 }
    }

    /// The span that example and test values carry.
    pub fn test_data() -> (span: Span)
        ensures
            span == (Span { start: 0, end: 0 }),
    {
        Span::unknown()
    }
}

/// An item together with the place in the source where it was written.
#[derive(Clone, Debug, PartialEq, Eq)]
pub struct Spanned<T> {
    pub item: T,
    pub span: Span,
}

} // verus!
