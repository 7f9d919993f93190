//! Source spans and the marks that passes attach to them.

use vstd::prelude::*;

verus! {

/// A marker that a pass attaches to spans: a set of flag bits.
///
/// Each pass owns one bit (or a few); the root mark owns none.
#[derive(Clone, Copy, Debug, PartialEq, Eq, Structural)]
pub struct Mark(pub u64);

/// A range of source positions, with the marks that passes have attached.
#[derive(Clone, Copy, Debug, PartialEq, Eq, Structural)]
pub struct Span {
    pub lo: u32,
    pub hi: u32,
    /// The union of the marks applied so far.
    pub ctxt: u64,
}

/// The span of a node that stands for no source text.
pub open spec fn dummy_sp() -> Span {
    Span { lo: 0, hi: 0, ctxt: 0 }
}

impl Mark {
    /// The mark that marks nothing.
    pub fn root() -> (m: Mark)
        ensures
            m == Mark(0),
    {
        Mark(0)
    }
}

impl Span {
    /// This span with `mark` added to its marks.
    pub open spec fn marked(self, mark: Mark) -> Span {
        Span { lo: self.lo, hi: self.hi, ctxt: self.ctxt | mark.0 }
    }

    /// Whether every bit of `mark` is among this span's marks, and `mark` is
    /// not the root mark.
    pub open spec fn carries(self, mark: Mark) -> bool {
        mark.0 != 0 && self.ctxt & mark.0 == mark.0
    }

    /// The span of a node that stands for no source text.
    pub fn dummy() -> (s: Span)
        ensures
            s == dummy_sp(),
    {
        Span { lo: 0, hi: 0, ctxt: 0 }
    }

    /// Adds `mark` to the marks of this span; positions stay as they are.
    pub fn apply_mark(self, mark: Mark) -> (s: Span)
        ensures
            s == self.marked(mark),
    {
        Span { lo: self.lo, hi: self.hi, ctxt: self.ctxt | mark.0 }
    }

    /// Tells whether `mark` was applied to this span.
    pub fn has_mark(self, mark: Mark) -> (b: bool)
        ensures
            b == self.carries(mark),
    {
        mark.0 != 0 && self.ctxt & mark.0 == mark.0
    }
}

/// A span carries a mark once that mark was applied, keeps every mark it
/// carried before, and gains no other: a mark that shares no bit with the one
/// applied is carried after exactly when it was carried before.
pub proof fn marks_accumulate(span: Span, mark: Mark, other: Mark)
    ensures
        mark.0 != 0 ==> span.marked(mark).carries(mark),
        span.carries(other) ==> span.marked(mark).carries(other),
        other.0 & mark.0 == 0 ==> (span.marked(mark).carries(other) <==> span.carries(other)),
        span.marked(mark).marked(mark) == span.marked(mark),
        span.marked(mark).marked(other) == span.marked(other).marked(mark),
{
    let c = span.ctxt;
    let m = mark.0;
    let o = other.0;
    assert((c | m) & m == m) by (bit_vector);
    assert(c & o == o ==> (c | m) & o == o) by (bit_vector);
    assert(o & m == 0 ==> ((c | m) & o == o <==> c & o == o)) by (bit_vector);
    assert((c | m) | m == c | m) by (bit_vector);
    assert((c | m) | o == (c | o) | m) by (bit_vector);
}

} // verus!
