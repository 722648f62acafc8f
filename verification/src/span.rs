//! Byte ranges into the file buffer of a working set.

use vstd::prelude::*;

verus! {

/// A half-open byte range `start..end` into the file buffer.
#[derive(Clone, Copy, Debug, PartialEq, Eq, Structural)]
pub struct Span {
    pub start: usize,
    pub end: usize,
}

impl Span {
    pub fn new(start: usize, end: usize) -> (s: Span)
        ensures
            s.start == start,
            s.end == end,
    {
        Span { start, end }
    }

    /// The empty range right after `self`: where a missing token would stand.
    pub open spec fn spec_past(self) -> Span {
        Span { start: self.end, end: self.end }
    }

    #[verifier::when_used_as_spec(spec_past)]
    pub fn past(self) -> (s: Span)
        ensures
            s == self.spec_past(),
    {
        Span { start: self.end, end: self.end }
    }
}

/// The range that covers a list of spans: from the start of the first to the
/// end of the last, and `0..0` for an empty list.
pub open spec fn covering(spans: Seq<Span>) -> Span {
    if spans.len() == 0 {
        Span { start: 0, end: 0 }
    } else {
        Span { start: spans[0].start, end: spans[spans.len() - 1].end }
    }
}

/// Computes the span that covers `spans`.
pub fn span(spans: &[Span]) -> (s: Span)
    ensures
        s == covering(spans@),
{
    let length: usize = spans.len();
    if length == 0 {
        Span { start: 0, end: 0 }
    } else {
        Span { start: spans[0].start, end: spans[length - 1].end }
    }
}

/// A fresh vector with the spans of `spans`.
pub fn spans_to_vec(spans: &[Span]) -> (copy: Vec<Span>)
    ensures
        copy@ == spans@,
{
    let mut copy: Vec<Span> = Vec::new();
    let mut i: usize = 0;
    while i < spans.len()
        invariant
            i <= spans@.len(),
            copy@ == spans@.take(i as int),
        decreases spans@.len() - i,
    {
        copy.push(spans[i]);
        assert(spans@.take(i + 1) =~= spans@.take(i as int).push(spans@[i as int]));
        i += 1;
    }
    assert(spans@.take(i as int) =~= spans@);
    copy
}

} // verus!
