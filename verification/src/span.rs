//! A `Copy` value describing a half-open interval `[start, end)` over
//! sequence positions, with derived-span operations and conversion to and
//! from the native `Range<usize>` representation.

use core::ops::Range;
use vstd::prelude::*;

verus! {

/// A half-open interval `[start, end)` over sequence positions.
///
/// No invariant ties `start` to `end`: an inverted span (`start > end`) is a
/// legal value, and misuse only surfaces later, when such a span is used to
/// index a sequence.
#[derive(Clone, Copy, Debug, PartialEq, Eq, Structural)]
pub struct Span {
    pub start: usize,
    pub end: usize,
}

/// The span with the same endpoints as a native half-open range.
pub open spec fn span_of_range(r: Range<usize>) -> Span {
    Span { start: r.start, end: r.end }
}

/// The native half-open range with the same endpoints as a span.
pub open spec fn range_of_span(s: Span) -> Range<usize> {
    Range { start: s.start, end: s.end }
}

impl Span {
    /// True when `pos` lies inside the span: at or after `start`, strictly
    /// before `end`. An inverted or zero-width span contains no position.
    pub open spec fn spec_contains(self, pos: usize) -> bool {
        self.start <= pos < self.end
    }

    /// True when the spans overlap: either holds the other's start. A
    /// zero-width span at another span's start overlaps with it, though it
    /// covers no position of its own.
    pub open spec fn spec_overlaps_with(self, other: Span) -> bool {
        self.spec_contains(other.start) || other.spec_contains(self.start)
    }

    /// The zero-width span at a certain position.
    pub fn at(pos: usize) -> (r: Self)
        ensures
            r.start == pos,
            r.end == pos,
    {
        Span { start: pos, end: pos }
    }

    /// The zero-width span at the start of this span.
    pub fn span_at(self) -> (r: Self)
        ensures
            r.start == self.start,
            r.end == self.start,
    {
        Span { start: self.start, end: self.start }
    }

    /// The zero-width span at the end of this span.
    pub fn span_after(self) -> (r: Self)
        ensures
            r.start == self.end,
            r.end == self.end,
    {
        Span { start: self.end, end: self.end }
    }

    /// Sets the length of the span without changing its start.
    pub fn with_len(self, len: usize) -> (r: Self)
        requires
            self.start + len <= usize::MAX,
        ensures
            r.start == self.start,
            r.end == self.start + len,
    {
        Span { start: self.start, end: self.start + len }
    }

    /// Sets the start of the span without changing its end.
    pub fn with_start(self, start: usize) -> (r: Self)
        ensures
            r.start == start,
            r.end == self.end,
    {
        Span { start, end: self.end }
    }

    /// Sets the end of the span without changing its start.
    pub fn with_end(self, end: usize) -> (r: Self)
        ensures
            r.start == self.start,
            r.end == end,
    {
        Span { start: self.start, end }
    }

    /// Checks whether this span overlaps with another span.
    pub fn overlaps_with(self, other: Self) -> (r: bool)
        ensures
            r == self.spec_overlaps_with(other),
    {
        (self.start <= other.start && other.start < self.end) || (other.start <= self.start
            && self.start < other.end)
    }

    /// Converts a native half-open range into the span with the same
    /// endpoints.
    pub fn from_range(r: Range<usize>) -> (s: Self)
        ensures
            s == span_of_range(r),
    {
        Span { start: r.start, end: r.end }
    }

    /// Converts the span back into the native half-open range with the same
    /// endpoints.
    pub fn into_range(self) -> (r: Range<usize>)
        ensures
            r == range_of_span(self),
    {
        Range { start: self.start, end: self.end }
    }

    /// Starts iterating over the positions the span covers, in ascending
    /// order.
    pub fn into_iter(self) -> (r: SpanIterator)
        ensures
            r.remaining() == self.spec_positions(),
    {
        SpanIterator { cur: self.start, end: self.end }
    }

    /// The ascending positions `start, start + 1, ..., end - 1` the span
    /// covers; empty when `start >= end`.
    pub open spec fn spec_positions(self) -> Seq<usize> {
        Seq::new(
            if self.start <= self.end {
                (self.end - self.start) as nat
            } else {
                0
            },
            |i: int| (self.start + i) as usize,
        )
    }
}

/// Round trip: converting a native range to the span representation and back
/// is the identity, and so is the opposite direction, for every pair of
/// endpoints, inverted pairs included.
pub proof fn lemma_span_range_round_trip(start: usize, end: usize)
    ensures
        range_of_span(span_of_range(Range { start, end })) == (Range { start, end }),
        span_of_range(range_of_span(Span { start, end })) == (Span { start, end }),
{
}

/// Iterates over the positions a span covers, in ascending order.
#[derive(Clone, Copy)]
pub struct SpanIterator {
    cur: usize,
    end: usize,
}

impl SpanIterator {
    /// The positions not yet produced, in the order they will come.
    pub closed spec fn remaining(self) -> Seq<usize> {
        Span { start: self.cur, end: self.end }.spec_positions()
    }

    /// Produces the next position, or nothing once the span is exhausted;
    /// after that, every further call produces nothing.
    pub fn next(&mut self) -> (r: Option<usize>)
        ensures
            old(self).remaining().len() == 0 ==> r is None && final(self).remaining()
                == old(self).remaining(),
            old(self).remaining().len() > 0 ==> r == Some(old(self).remaining()[0])
                && final(self).remaining() == old(self).remaining().skip(1),
    {
        if self.cur < self.end {
            let r = self.cur;
            self.cur = self.cur + 1;
            proof {
                assert(old(self).remaining().skip(1) =~= self.remaining());
            }
            Some(r)
        } else {
            None
        }
    }
}

} // verus!
