//! A duplicable read cursor over a borrowed slice: the concrete form of a
//! lazy sequence whose position can be cheaply copied into an independently
//! advancing twin over the same storage.

use vstd::prelude::*;

verus! {

broadcast use vstd::slice::group_slice_axioms;

/// A lazy sequence of the elements of a borrowed slice, from the current
/// position on. The cursor is `Copy`: a copy advances independently and
/// shares no mutable state with the original. It never copies or mutates the
/// underlying storage.
#[derive(Clone, Copy)]
pub struct Cursor<'a, T> {
    s: &'a [T],
    pos: usize,
}

impl<'a, T> Cursor<'a, T> {
    /// The cursor's position never passes the end of the slice.
    pub closed spec fn wf(self) -> bool {
        self.pos <= self.s@.len()
    }

    /// The elements not yet produced, in the order they will come.
    pub closed spec fn remaining(self) -> Seq<T> {
        self.s@.skip(self.pos as int)
    }

    /// Starts a cursor at the beginning of a slice.
    pub fn new(s: &'a [T]) -> (r: Self)
        ensures
            r.wf(),
            r.remaining() == s@,
    {
        let r = Cursor { s, pos: 0 };
        proof {
            assert(r.remaining() =~= s@);
        }
        r
    }
}

impl<'a, T: Copy> Cursor<'a, T> {
    /// Produces the next element and advances past it, or produces nothing
    /// once the slice is exhausted; after that, every further call produces
    /// nothing.
    pub fn next(&mut self) -> (r: Option<T>)
        requires
            old(self).wf(),
        ensures
            final(self).wf(),
            old(self).remaining().len() == 0 ==> r is None && *final(self) == *old(self),
            old(self).remaining().len() > 0 ==> r == Some(old(self).remaining()[0])
                && final(self).remaining() == old(self).remaining().skip(1),
    {
        if self.pos < self.s.len() {
            let x = *vstd::slice::slice_index_get(self.s, self.pos);
            self.pos = self.pos + 1;
            proof {
                assert(old(self).remaining().skip(1) =~= self.remaining());
            }
            Some(x)
        } else {
            None
        }
    }

    /// Pulls exactly `n` elements into a vector, or produces nothing if
    /// fewer are available; in that case the cursor is left exhausted.
    pub fn collect_n(&mut self, n: usize) -> (r: Option<Vec<T>>)
        requires
            old(self).wf(),
        ensures
            final(self).wf(),
            n <= old(self).remaining().len() ==> (r matches Some(v)
                && v@ == old(self).remaining().take(n as int)
                && final(self).remaining() == old(self).remaining().skip(n as int)),
            n > old(self).remaining().len() ==> r is None && final(self).remaining().len() == 0,
    {
        let mut out: Vec<T> = Vec::new();
        let mut i: usize = 0;
        while i < n
            invariant
                i <= n,
                self.wf(),
                out@.len() == i,
                i <= old(self).remaining().len(),
                out@ == old(self).remaining().take(i as int),
                self.remaining() == old(self).remaining().skip(i as int),
            decreases n - i,
        {
            match self.next() {
                Some(x) => {
                    out.push(x);
                    i = i + 1;
                    proof {
                        assert(out@ =~= old(self).remaining().take(i as int));
                        assert(self.remaining() =~= old(self).remaining().skip(i as int));
                    }
                },
                None => {
                    return None;
                },
            }
        }
        proof {
            assert(out@ =~= old(self).remaining().take(n as int));
        }
        Some(out)
    }
}

} // verus!
