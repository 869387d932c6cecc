//! Source locations.

use vstd::prelude::*;

verus! {

/// A byte range of one source file.
#[derive(Copy, Clone, Debug, PartialEq, Eq, Structural, Hash)]
pub struct Span {
    /// File number.
    pub file: u32,
    /// First byte.
    pub start: u32,
    /// One past the last byte.
    pub end: u32,
}

impl Span {
    /// The location of compiler-made nodes that have no source text.
    pub open spec fn dummy_span() -> Span {
        Span { file: 0, start: 0, end: 0 }
    }

    /// The location of compiler-made nodes that have no source text.
    pub fn dummy() -> (r: Span)
        ensures
            r == Span::dummy_span(),
    {
        Span { file: 0, start: 0, end: 0 }
    }
}

} // verus!
