//! Lazy segmentation of a duplicable cursor around the elements a predicate
//! matches, in an exclusive flavor (the separator is dropped) and an
//! inclusive one (the separator ends its segment).
//!
//! Pulling a segment from the splitter advances the splitter past the next
//! separator and hands out a sub-sequence that re-scans the same elements
//! from its own copy of the cursor, stopping under the same rule. Splitter
//! and segments are single-pass: once exhausted, they stay exhausted.

use crate::cursor::Cursor;
use vstd::prelude::*;

verus! {

/// The predicate can be asked about any element at all.
pub open spec fn pred_total<T, F: Fn(T) -> bool>(f: F) -> bool {
    forall|x: T| #[trigger] call_requires(f, (x,))
}

/// The predicate admitted `false` for each of the first `k` elements of `s`.
pub open spec fn pred_false_upto<T, F: Fn(T) -> bool>(f: F, s: Seq<T>, k: int) -> bool {
    forall|i: int| #![trigger s[i]] 0 <= i < k ==> call_ensures(f, (s[i],), false)
}

/// The splitter advanced past one segment of `s` and left `rest`: see
/// [`split_advance`] for the shape of one such step.
pub open spec fn split_advanced<T, F: Fn(T) -> bool>(f: F, s: Seq<T>, rest: Option<Seq<T>>) -> bool {
    exists|k: int| #[trigger] split_advance(f, s, k, rest)
}

/// How a splitter advances past one segment of `s`: the predicate admitted
/// `false` for the `k` elements before the separator, and either a
/// separator was found at `k` and `rest` continues right after it, or the
/// source ran out and `rest` is absent.
pub open spec fn split_advance<T, F: Fn(T) -> bool>(
    f: F,
    s: Seq<T>,
    k: int,
    rest: Option<Seq<T>>,
) -> bool {
    &&& 0 <= k <= s.len()
    &&& pred_false_upto(f, s, k)
    &&& if k < s.len() {
        call_ensures(f, (s[k],), true) && rest == Some(s.skip(k + 1))
    } else {
        rest is None
    }
}

/// How one pull from an exclusive segment relates the elements still ahead
/// (`before`) to the element produced and the elements left (`after`): an
/// exhausted segment stays exhausted and produces nothing; a separator at
/// the front is consumed, not produced, and closes the segment for good;
/// any other front element is produced.
pub open spec fn segment_step<T, F: Fn(T) -> bool>(
    f: F,
    before: Option<Seq<T>>,
    produced: Option<T>,
    after: Option<Seq<T>>,
) -> bool {
    match before {
        None => produced is None && after is None,
        Some(s) => if s.len() == 0 {
            produced is None && after == Some(s)
        } else {
            exists|b: bool|
                #[trigger] call_ensures(f, (s[0],), b) && if b {
                    produced is None && after is None
                } else {
                    produced == Some(s[0]) && after == Some(s.skip(1))
                }
        },
    }
}

/// How one pull from an inclusive segment relates the elements still ahead
/// to the element produced and the elements left: as with the exclusive
/// flavor, except that a separator at the front is produced as the
/// segment's last element.
pub open spec fn segment_step_inclusive<T, F: Fn(T) -> bool>(
    f: F,
    before: Option<Seq<T>>,
    produced: Option<T>,
    after: Option<Seq<T>>,
) -> bool {
    match before {
        None => produced is None && after is None,
        Some(s) => if s.len() == 0 {
            produced is None && after == Some(s)
        } else {
            exists|b: bool|
                #[trigger] call_ensures(f, (s[0],), b) && produced == Some(s[0]) && if b {
                    after is None
                } else {
                    after == Some(s.skip(1))
                }
        },
    }
}

/// The exclusive splitter: a lazy sequence of segments, each a lazy
/// sub-sequence of the source's elements strictly between two separators.
pub struct Split<'a, T, F> where F: Fn(T) -> bool {
    iter: Option<Cursor<'a, T>>,
    pred: F,
}

/// One segment issued by [`Split`]: produces the elements up to, and not
/// including, the next separator.
pub struct SplitIterator<'a, T, F> where F: Fn(T) -> bool {
    iter: Option<Cursor<'a, T>>,
    pred: F,
}

/// The inclusive splitter: as [`Split`], except that each separator is kept
/// as the final element of the segment it closes.
pub struct SplitInclusive<'a, T, F> where F: Fn(T) -> bool {
    iter: Option<Cursor<'a, T>>,
    pred: F,
}

/// One segment issued by [`SplitInclusive`]: produces the elements up to,
/// and including, the next separator.
pub struct InclusiveSplitIterator<'a, T, F> where F: Fn(T) -> bool {
    iter: Option<Cursor<'a, T>>,
    pred: F,
}

impl<'a, T, F> Split<'a, T, F> where F: Fn(T) -> bool {
    /// The cursor, where one is still held, stands inside its slice.
    pub closed spec fn wf(self) -> bool {
        self.iter matches Some(c) ==> c.wf()
    }

    /// The source elements not yet scanned, or nothing once the splitter is
    /// exhausted.
    pub closed spec fn remaining(self) -> Option<Seq<T>> {
        match self.iter {
            Some(c) => Some(c.remaining()),
            None => None,
        }
    }

    /// The predicate that marks separator elements.
    pub closed spec fn predicate(self) -> F {
        self.pred
    }

    /// Starts splitting the elements of a cursor at the elements the
    /// predicate matches, dropping the separators.
    pub fn new(iter: Cursor<'a, T>, pred: F) -> (r: Self)
        requires
            iter.wf(),
        ensures
            r.wf(),
            r.remaining() == Some(iter.remaining()),
            r.predicate() == pred,
    {
        Split { iter: Some(iter), pred }
    }
}

impl<'a, T: Copy, F> Split<'a, T, F> where F: Fn(T) -> bool + Copy {
    /// Produces the next segment, advancing this splitter past the next
    /// separator (or to the end of the source), or produces nothing once
    /// the splitter is exhausted; after that, every further call produces
    /// nothing.
    pub fn next(&mut self) -> (r: Option<SplitIterator<'a, T, F>>)
        requires
            old(self).wf(),
            pred_total(old(self).predicate()),
        ensures
            final(self).wf(),
            final(self).predicate() == old(self).predicate(),
            old(self).remaining() is None ==> r is None && final(self).remaining() is None,
            old(self).remaining() matches Some(s) ==> (r matches Some(seg) && seg.wf()
                && seg.remaining() == Some(s) && seg.predicate() == old(self).predicate()
                && split_advanced(old(self).predicate(), s, final(self).remaining())),
    {
        let seg_cursor = match self.iter {
            Some(c) => c,
            None => {
                return None;
            },
        };
        let ghost s = seg_cursor.remaining();
        let mut scan = seg_cursor;
        let ghost mut k: int = 0;
        let p = self.pred;
        loop
            invariant
                scan.wf(),
                0 <= k <= s.len(),
                scan.remaining() == s.skip(k),
                pred_false_upto(p, s, k),
                pred_total(p),
                *self == *old(self),
                self.iter == Some(seg_cursor),
                seg_cursor.wf(),
                s == seg_cursor.remaining(),
                p == self.pred,
            decreases s.len() - k,
        {
            match scan.next() {
                None => {
                    self.iter = None;
                    let seg = SplitIterator { iter: Some(seg_cursor), pred: p };
                    proof {
                        assert(split_advance(old(self).predicate(), s, k, self.remaining()));
                        assert(split_advanced(old(self).predicate(), s, self.remaining()));
                    }
                    return Some(seg);
                },
                Some(x) => {
                    if p(x) {
                        self.iter = Some(scan);
                        let seg = SplitIterator { iter: Some(seg_cursor), pred: p };
                        proof {
                            assert(s.skip(k).skip(1) =~= s.skip(k + 1));
                            assert(split_advance(old(self).predicate(), s, k, self.remaining()));
                            assert(split_advanced(old(self).predicate(), s, self.remaining()));
                        }
                        return Some(seg);
                    }
                    proof {
                        assert(s.skip(k).skip(1) =~= s.skip(k + 1));
                        k = k + 1;
                    }
                },
            }
        }
    }
}

impl<'a, T, F> SplitIterator<'a, T, F> where F: Fn(T) -> bool {
    /// The cursor, where one is still held, stands inside its slice.
    pub closed spec fn wf(self) -> bool {
        self.iter matches Some(c) ==> c.wf()
    }

    /// The elements still ahead of this segment's own cursor, or nothing
    /// once the segment has been closed by a separator.
    pub closed spec fn remaining(self) -> Option<Seq<T>> {
        match self.iter {
            Some(c) => Some(c.remaining()),
            None => None,
        }
    }

    /// The predicate that marks separator elements.
    pub closed spec fn predicate(self) -> F {
        self.pred
    }
}

impl<'a, T: Copy, F> SplitIterator<'a, T, F> where F: Fn(T) -> bool + Copy {
    /// Produces the next element of the segment; a separator is consumed,
    /// not produced, and ends the segment for good.
    pub fn next(&mut self) -> (r: Option<T>)
        requires
            old(self).wf(),
            pred_total(old(self).predicate()),
        ensures
            final(self).wf(),
            final(self).predicate() == old(self).predicate(),
            segment_step(old(self).predicate(), old(self).remaining(), r, final(self).remaining()),
    {
        let mut c = match self.iter {
            Some(c) => c,
            None => {
                return None;
            },
        };
        match c.next() {
            None => None,
            Some(x) => {
                let p = self.pred;
                if p(x) {
                    self.iter = None;
                    None
                } else {
                    self.iter = Some(c);
                    Some(x)
                }
            },
        }
    }
}

impl<'a, T, F> SplitInclusive<'a, T, F> where F: Fn(T) -> bool {
    /// The cursor, where one is still held, stands inside its slice.
    pub closed spec fn wf(self) -> bool {
        self.iter matches Some(c) ==> c.wf()
    }

    /// The source elements not yet scanned, or nothing once the splitter is
    /// exhausted.
    pub closed spec fn remaining(self) -> Option<Seq<T>> {
        match self.iter {
            Some(c) => Some(c.remaining()),
            None => None,
        }
    }

    /// The predicate that marks separator elements.
    pub closed spec fn predicate(self) -> F {
        self.pred
    }

    /// Starts splitting the elements of a cursor at the elements the
    /// predicate matches, keeping each separator as the last element of its
    /// segment.
    pub fn new(iter: Cursor<'a, T>, pred: F) -> (r: Self)
        requires
            iter.wf(),
        ensures
            r.wf(),
            r.remaining() == Some(iter.remaining()),
            r.predicate() == pred,
    {
        SplitInclusive { iter: Some(iter), pred }
    }
}

impl<'a, T: Copy, F> SplitInclusive<'a, T, F> where F: Fn(T) -> bool + Copy {
    /// Produces the next segment, advancing this splitter past the next
    /// separator (or to the end of the source), or produces nothing once
    /// the splitter is exhausted; after that, every further call produces
    /// nothing.
    pub fn next(&mut self) -> (r: Option<InclusiveSplitIterator<'a, T, F>>)
        requires
            old(self).wf(),
            pred_total(old(self).predicate()),
        ensures
            final(self).wf(),
            final(self).predicate() == old(self).predicate(),
            old(self).remaining() is None ==> r is None && final(self).remaining() is None,
            old(self).remaining() matches Some(s) ==> (r matches Some(seg) && seg.wf()
                && seg.remaining() == Some(s) && seg.predicate() == old(self).predicate()
                && split_advanced(old(self).predicate(), s, final(self).remaining())),
    {
        let seg_cursor = match self.iter {
            Some(c) => c,
            None => {
                return None;
            },
        };
        let ghost s = seg_cursor.remaining();
        let mut scan = seg_cursor;
        let ghost mut k: int = 0;
        let p = self.pred;
        loop
            invariant
                scan.wf(),
                0 <= k <= s.len(),
                scan.remaining() == s.skip(k),
                pred_false_upto(p, s, k),
                pred_total(p),
                *self == *old(self),
                self.iter == Some(seg_cursor),
                seg_cursor.wf(),
                s == seg_cursor.remaining(),
                p == self.pred,
            decreases s.len() - k,
        {
            match scan.next() {
                None => {
                    self.iter = None;
                    let seg = InclusiveSplitIterator { iter: Some(seg_cursor), pred: p };
                    proof {
                        assert(split_advance(old(self).predicate(), s, k, self.remaining()));
                        assert(split_advanced(old(self).predicate(), s, self.remaining()));
                    }
                    return Some(seg);
                },
                Some(x) => {
                    if p(x) {
                        self.iter = Some(scan);
                        let seg = InclusiveSplitIterator { iter: Some(seg_cursor), pred: p };
                        proof {
                            assert(s.skip(k).skip(1) =~= s.skip(k + 1));
                            assert(split_advance(old(self).predicate(), s, k, self.remaining()));
                            assert(split_advanced(old(self).predicate(), s, self.remaining()));
                        }
                        return Some(seg);
                    }
                    proof {
                        assert(s.skip(k).skip(1) =~= s.skip(k + 1));
                        k = k + 1;
                    }
                },
            }
        }
    }
}

impl<'a, T, F> InclusiveSplitIterator<'a, T, F> where F: Fn(T) -> bool {
    /// The cursor, where one is still held, stands inside its slice.
    pub closed spec fn wf(self) -> bool {
        self.iter matches Some(c) ==> c.wf()
    }

    /// The elements still ahead of this segment's own cursor, or nothing
    /// once the segment has been closed by a separator.
    pub closed spec fn remaining(self) -> Option<Seq<T>> {
        match self.iter {
            Some(c) => Some(c.remaining()),
            None => None,
        }
    }

    /// The predicate that marks separator elements.
    pub closed spec fn predicate(self) -> F {
        self.pred
    }
}

impl<'a, T: Copy, F> InclusiveSplitIterator<'a, T, F> where F: Fn(T) -> bool + Copy {
    /// Produces the next element of the segment; a separator is produced as
    /// the segment's last element and ends the segment for good.
    pub fn next(&mut self) -> (r: Option<T>)
        requires
            old(self).wf(),
            pred_total(old(self).predicate()),
        ensures
            final(self).wf(),
            final(self).predicate() == old(self).predicate(),
            segment_step_inclusive(
                old(self).predicate(),
                old(self).remaining(),
                r,
                final(self).remaining(),
            ),
    {
        let mut c = match self.iter {
            Some(c) => c,
            None => {
                return None;
            },
        };
        match c.next() {
            None => None,
            Some(x) => {
                let p = self.pred;
                if p(x) {
                    self.iter = None;
                } else {
                    self.iter = Some(c);
                }
                Some(x)
            },
        }
    }
}

impl<'a, T: Copy> Cursor<'a, T> {
    /// Splits the cursor's elements into lazy segments around the elements
    /// the predicate matches, dropping the separators.
    pub fn split<F: Fn(T) -> bool>(self, pred: F) -> (r: Split<'a, T, F>)
        requires
            self.wf(),
        ensures
            r.wf(),
            r.remaining() == Some(self.remaining()),
            r.predicate() == pred,
    {
        Split::new(self, pred)
    }

    /// Splits the cursor's elements into lazy segments around the elements
    /// the predicate matches, keeping each separator as the last element of
    /// its segment.
    pub fn split_inclusive<F: Fn(T) -> bool>(self, pred: F) -> (r: SplitInclusive<'a, T, F>)
        requires
            self.wf(),
        ensures
            r.wf(),
            r.remaining() == Some(self.remaining()),
            r.predicate() == pred,
    {
        SplitInclusive::new(self, pred)
    }
}

} // verus!
