//! A lazy, non-allocating pass over a borrowed slice that strips every
//! non-overlapping, leftmost occurrence of a fixed pattern.

use super::is_prefix_of;
use super::starts_with;
use vstd::laws_eq::obeys_concrete_eq;
use vstd::prelude::*;

verus! {

broadcast use vstd::slice::group_slice_axioms;

/// What is left of `r` after greedily stripping every occurrence of `q`
/// standing at its very front, one after the other.
pub open spec fn strip_leading<T>(q: Seq<T>, r: Seq<T>) -> Seq<T>
    recommends
        q.len() > 0,
    decreases r.len(),
    when q.len() > 0
{
    if is_prefix_of(q, r) {
        strip_leading(q, r.skip(q.len() as int))
    } else {
        r
    }
}

/// A lazy pass over a borrowed slice that, at each pull, first skips every
/// occurrence of the pattern standing at the front of the unscanned suffix,
/// then hands out the next surviving element. The removal is greedy,
/// leftmost and non-overlapping, computed in one forward scan.
pub struct WithSequenceRemoved<'a, T> {
    sequence: &'a [T],
    rest: &'a [T],
}

impl<'a, T> WithSequenceRemoved<'a, T> {
    /// The pattern is never empty: stripping an empty pattern from the
    /// front would never stop.
    pub closed spec fn wf(self) -> bool {
        self.sequence@.len() > 0
    }

    /// The pattern being removed.
    pub closed spec fn pattern(self) -> Seq<T> {
        self.sequence@
    }

    /// The yet-unscanned suffix of the source.
    pub closed spec fn remaining(self) -> Seq<T> {
        self.rest@
    }

    /// Starts the pass at the beginning of `slice`. The pattern must not be
    /// empty.
    pub fn new(slice: &'a [T], sequence: &'a [T]) -> (r: Self)
        requires
            sequence@.len() > 0,
        ensures
            r.wf(),
            r.remaining() == slice@,
            r.pattern() == sequence@,
    {
        WithSequenceRemoved { sequence, rest: slice }
    }
}

impl<'a, T: Copy + PartialEq> WithSequenceRemoved<'a, T> {
    /// Skips every occurrence of the pattern at the front of the unscanned
    /// suffix, then produces the next element, or nothing once the suffix
    /// runs out; after that, every further call produces nothing.
    pub fn next(&mut self) -> (r: Option<T>)
        requires
            old(self).wf(),
        ensures
            final(self).wf(),
            final(self).pattern() == old(self).pattern(),
            obeys_concrete_eq::<T>() ==> {
                let stripped = strip_leading(old(self).pattern(), old(self).remaining());
                if stripped.len() == 0 {
                    r is None && final(self).remaining() == stripped
                } else {
                    r == Some(stripped[0]) && final(self).remaining() == stripped.skip(1)
                }
            },
    {
        loop
            invariant
                self.wf(),
                self.sequence == old(self).sequence,
                obeys_concrete_eq::<T>() ==> strip_leading(self.pattern(), self.remaining())
                    == strip_leading(old(self).pattern(), old(self).remaining()),
            decreases self.rest@.len(),
        {
            if starts_with(self.rest, self.sequence) {
                let ghost before = self.rest@;
                let n = self.sequence.len();
                self.rest = vstd::slice::slice_subrange(self.rest, n, self.rest.len());
                proof {
                    assert(self.rest@ =~= before.skip(n as int));
                    if obeys_concrete_eq::<T>() {
                        assert(strip_leading(self.pattern(), before) == strip_leading(
                            self.pattern(),
                            self.remaining(),
                        ));
                    }
                }
            } else if self.rest.len() == 0 {
                proof {
                    if obeys_concrete_eq::<T>() {
                        assert(strip_leading(self.pattern(), self.remaining()) == self.remaining());
                    }
                }
                return None;
            } else {
                let x = *vstd::slice::slice_index_get(self.rest, 0);
                let ghost before = self.rest@;
                self.rest = vstd::slice::slice_subrange(self.rest, 1, self.rest.len());
                proof {
                    assert(self.rest@ =~= before.skip(1));
                    if obeys_concrete_eq::<T>() {
                        assert(strip_leading(self.pattern(), before) == before);
                    }
                }
                return Some(x);
            }
        }
    }
}

} // verus!
