//! Sliding-window subsequence search over borrowed slices: the leftmost
//! occurrence of a subslice, the content bracketed by two subslices, and a
//! lazy pass that strips every non-overlapping occurrence of a pattern.
//!
//! The element type only promises a `PartialEq`; the contracts state the
//! exact result wherever that equality is the structural one
//! ([`obeys_concrete_eq`]), which holds of the primitive types.

mod with_sequence_removed;

pub use with_sequence_removed::strip_leading;
pub use with_sequence_removed::WithSequenceRemoved;

use vstd::laws_eq::obeys_concrete_eq;
use vstd::prelude::*;

verus! {

broadcast use vstd::slice::group_slice_axioms;

/// The needle occurs in the haystack at position `i`: the window of the
/// needle's length starting there holds exactly the needle's elements.
pub open spec fn matches_at<T>(hay: Seq<T>, needle: Seq<T>, i: int) -> bool {
    &&& 0 <= i
    &&& i + needle.len() <= hay.len()
    &&& forall|j: int| 0 <= j < needle.len() ==> hay[i + j] == #[trigger] needle[j]
}

/// The needle occurs somewhere in the haystack.
pub open spec fn has_match<T>(hay: Seq<T>, needle: Seq<T>) -> bool {
    exists|i: int| #[trigger] matches_at(hay, needle, i)
}

/// `i` is the smallest position at which the needle occurs in the haystack.
pub open spec fn found_at<T>(hay: Seq<T>, needle: Seq<T>, i: int) -> bool {
    &&& matches_at(hay, needle, i)
    &&& forall|i2: int| 0 <= i2 < i ==> !#[trigger] matches_at(hay, needle, i2)
}

/// `p` is a prefix of `s`.
pub open spec fn is_prefix_of<T>(p: Seq<T>, s: Seq<T>) -> bool {
    p.len() <= s.len() && p == s.take(p.len() as int)
}

/// Whether the slice begins with the given prefix, element for element.
pub(crate) fn starts_with<T: PartialEq>(s: &[T], prefix: &[T]) -> (r: bool)
    ensures
        obeys_concrete_eq::<T>() ==> r == is_prefix_of(prefix@, s@),
        r ==> prefix@.len() <= s@.len(),
{
    let n = prefix.len();
    if n > s.len() {
        proof {
            if obeys_concrete_eq::<T>() {
                assert(!is_prefix_of(prefix@, s@));
            }
        }
        return false;
    }
    let mut j: usize = 0;
    let mut all_eq = true;
    while j < n
        invariant
            j <= n,
            n <= s@.len(),
            n == prefix@.len(),
            obeys_concrete_eq::<T>() ==> (all_eq <==> forall|jj: int|
                0 <= jj < j ==> s@[jj] == #[trigger] prefix@[jj]),
        decreases n - j,
    {
        let a = vstd::slice::slice_index_get(s, j);
        let b = vstd::slice::slice_index_get(prefix, j);
        let same = a.eq(b);
        proof {
            if obeys_concrete_eq::<T>() {
                reveal(vstd::laws_eq::obeys_concrete_eq);
                assert(same <==> s@[j as int] == prefix@[j as int]);
            }
        }
        if !same {
            all_eq = false;
        }
        j = j + 1;
    }
    proof {
        if obeys_concrete_eq::<T>() {
            if all_eq {
                assert(prefix@ =~= s@.take(n as int));
            } else {
                assert(prefix@ != s@.take(n as int)) by {
                    let jj = choose|jj: int| 0 <= jj < n && s@[jj] != prefix@[jj];
                    assert(s@.take(n as int)[jj] != prefix@[jj]);
                }
            }
        }
    }
    all_eq
}

/// Returns the starting index of the leftmost occurrence of `needle` in
/// `haystack`, or nothing when `needle` occurs nowhere in it. An empty
/// needle occurs trivially at index 0.
pub fn find<T: PartialEq>(haystack: &[T], needle: &[T]) -> (r: Option<usize>)
    ensures
        r matches Some(i) ==> i + needle@.len() <= haystack@.len(),
        obeys_concrete_eq::<T>() ==> match r {
            Some(i) => found_at(haystack@, needle@, i as int),
            None => !has_match(haystack@, needle@),
        },
{
    let n = needle.len();
    let m = haystack.len();
    if n > m {
        proof {
            assert forall|i: int| !#[trigger] matches_at(haystack@, needle@, i) by {}
        }
        return None;
    }
    if n == 0 {
        proof {
            assert(matches_at(haystack@, needle@, 0));
        }
        return Some(0);
    }
    let mut i: usize = 0;
    while i <= m - n
        invariant
            n <= m,
            m == haystack@.len(),
            n == needle@.len(),
            i <= m - n + 1,
            1 <= n,
            obeys_concrete_eq::<T>() ==> forall|i2: int|
                0 <= i2 < i ==> !#[trigger] matches_at(haystack@, needle@, i2),
        decreases m - n + 1 - i,
    {
        let mut j: usize = 0;
        let mut window_eq = true;
        while j < n
            invariant
                j <= n,
                i + n <= m,
                m == haystack@.len(),
                n == needle@.len(),
                obeys_concrete_eq::<T>() ==> (window_eq <==> forall|jj: int|
                    0 <= jj < j ==> haystack@[i + jj] == #[trigger] needle@[jj]),
            decreases n - j,
        {
            let a = vstd::slice::slice_index_get(haystack, i + j);
            let b = vstd::slice::slice_index_get(needle, j);
            let same = a.eq(b);
            proof {
                if obeys_concrete_eq::<T>() {
                    reveal(vstd::laws_eq::obeys_concrete_eq);
                    assert(same <==> haystack@[i + j] == needle@[j as int]);
                }
            }
            if !same {
                window_eq = false;
            }
            j = j + 1;
        }
        if window_eq {
            proof {
                if obeys_concrete_eq::<T>() {
                    assert(matches_at(haystack@, needle@, i as int));
                }
            }
            return Some(i);
        }
        i = i + 1;
    }
    proof {
        if obeys_concrete_eq::<T>() {
            assert forall|i2: int| !#[trigger] matches_at(haystack@, needle@, i2) by {
                if 0 <= i2 <= m - n {
                    assert(!matches_at(haystack@, needle@, i2));
                }
            }
        }
    }
    None
}

/// Returns the content strictly between the first occurrence of `slice1`
/// and the first occurrence of `slice2` after it, or nothing when either
/// occurrence is missing. `slice2` is searched only in the part after
/// `slice1`'s occurrence, never before it.
pub fn get_slice_between<'a, T: PartialEq>(
    haystack: &'a [T],
    slice1: &[T],
    slice2: &[T],
) -> (r: Option<&'a [T]>)
    ensures
        obeys_concrete_eq::<T>() ==> match r {
            Some(sub) => exists|i: int, j: int|
                {
                    &&& #[trigger] found_at(haystack@, slice1@, i)
                    &&& #[trigger] found_at(haystack@.skip(i + slice1@.len()), slice2@, j)
                    &&& sub@ == haystack@.skip(i + slice1@.len()).take(j)
                },
            None => !has_match(haystack@, slice1@) || exists|i: int|
                #[trigger] found_at(haystack@, slice1@, i) && !has_match(
                    haystack@.skip(i + slice1@.len()),
                    slice2@,
                ),
        },
{
    let i = match find(haystack, slice1) {
        Some(i) => i,
        None => {
            return None;
        },
    };
    let hay_len = haystack.len();
    let start = i + slice1.len();
    let tail = vstd::slice::slice_subrange(haystack, start, hay_len);
    proof {
        assert(tail@ =~= haystack@.skip(i + slice1@.len()));
    }
    let j = match find(tail, slice2) {
        Some(j) => j,
        None => {
            return None;
        },
    };
    let sub = vstd::slice::slice_subrange(tail, 0, j);
    proof {
        assert(sub@ =~= tail@.take(j as int));
    }
    Some(sub)
}

/// Starts a lazy pass over `slice` that strips every non-overlapping,
/// leftmost occurrence of `sequence`, handing the surviving elements out
/// one at a time. The pattern must not be empty.
pub fn with_sequence_removed<'a, T: PartialEq>(
    slice: &'a [T],
    sequence: &'a [T],
) -> (r: WithSequenceRemoved<'a, T>)
    requires
        sequence@.len() > 0,
    ensures
        r.wf(),
        r.remaining() == slice@,
        r.pattern() == sequence@,
{
    WithSequenceRemoved::new(slice, sequence)
}

} // verus!
