//! Byte spans and character boundaries of borrowed text: where a substring
//! view sits inside its parent string, and the byte span of the single
//! character starting at a given byte offset.

use crate::span::Span;
use vstd::prelude::*;
use vstd::string::StringSliceAdditionalSpecFns;
use vstd::utf8::is_char_boundary;

verus! {

broadcast use vstd::slice::group_slice_axioms;

/// The position of the first character boundary of `bytes` at or after
/// `j`, or the end of the sequence when no boundary follows.
pub open spec fn next_boundary(bytes: Seq<u8>, j: int) -> int
    decreases bytes.len() - j,
    when 0 <= j <= bytes.len()
{
    if j >= bytes.len() || is_char_boundary(bytes, j) {
        j
    } else {
        next_boundary(bytes, j + 1)
    }
}

proof fn lemma_next_boundary_of_scan(bytes: Seq<u8>, i: int, j: int)
    requires
        0 <= i <= j <= bytes.len(),
        forall|m: int| i <= m < j ==> !is_char_boundary(bytes, m),
        j == bytes.len() || is_char_boundary(bytes, j),
    ensures
        next_boundary(bytes, i) == j,
    decreases j - i,
{
    if i < j {
        lemma_next_boundary_of_scan(bytes, i + 1, j);
    }
}

/// Relies on str::as_ptr for the address of the first byte of the text.
/// An address depends on where the allocator put the data, so nothing is
/// promised of the result.
#[verifier::external_body]
fn str_addr(s: &str) -> usize {
    s.as_ptr() as usize
}

/// The distance from `hay_addr` forward to `sub_addr`, wrapping around the
/// address space: `sub_addr - hay_addr` modulo one more than `usize::MAX`.
pub open spec fn addr_distance(hay_addr: usize, sub_addr: usize) -> usize {
    if sub_addr >= hay_addr {
        (sub_addr - hay_addr) as usize
    } else {
        (sub_addr - hay_addr + usize::MAX + 1) as usize
    }
}

/// Computes the byte span of a substring from the two texts' starting
/// addresses and byte lengths. The wrapping address difference is the
/// candidate start; the span is returned exactly when start and end lie
/// within the haystack's length, and nothing otherwise — in particular
/// whenever the addresses come from unrelated storage, so that the
/// difference falls out of range.
pub fn span_from_addrs(hay_addr: usize, sub_addr: usize, hay_len: usize, sub_len: usize) -> (r:
    Option<Span>)
    ensures
        ({
            let d = addr_distance(hay_addr, sub_addr);
            if d <= hay_len && sub_len <= hay_len - d {
                r == Some((Span { start: d, end: (d + sub_len) as usize }))
            } else {
                r is None
            }
        }),
{
    let start = sub_addr.wrapping_sub(hay_addr);
    proof {
        assert(start == addr_distance(hay_addr, sub_addr));
    }
    if start > hay_len {
        return None;
    }
    if sub_len > hay_len - start {
        return None;
    }
    Some(Span { start, end: start + sub_len })
}

/// Computes the byte span at which `substr` sits inside `haystack`, by the
/// distance between the two texts' addresses. The result designates the
/// specific occurrence the caller already holds, so it is meaningful only
/// when `substr` is a genuine sub-view of `haystack`'s own storage; a
/// separately allocated text of equal content gives an address distance
/// that falls out of range, and nothing is returned. The addresses
/// themselves are beyond what a contract can see, so this function pins
/// only the returned span's shape; everything after the address read —
/// the distance test and the span construction — is [`span_from_addrs`],
/// whose contract is exact.
pub fn substr_pos(haystack: &str, substr: &str) -> (r: Option<Span>)
    ensures
        r matches Some(sp) ==> sp.start + substr.spec_bytes().len() == sp.end && sp.end
            <= haystack.spec_bytes().len(),
{
    let hay_addr = str_addr(haystack);
    let sub_addr = str_addr(substr);
    span_from_addrs(hay_addr, sub_addr, haystack.as_bytes().len(), substr.as_bytes().len())
}

/// Returns the byte length of the single character starting at
/// `byte_index`: the distance to the next character boundary after it, or
/// to the end of the text. Nothing is returned when `byte_index` does not
/// land on the starting byte of a character, or is past the last one.
pub fn char_length(s: &str, byte_index: usize) -> (r: Option<usize>)
    ensures
        r is Some <==> byte_index < s.spec_bytes().len() && is_char_boundary(
            s.spec_bytes(),
            byte_index as int,
        ),
        r matches Some(l) ==> 1 <= l && byte_index + l == next_boundary(
            s.spec_bytes(),
            byte_index + 1,
        ) && byte_index + l <= s.spec_bytes().len() && byte_index + l <= usize::MAX,
{
    let bytes = s.as_bytes();
    let n = bytes.len();
    if byte_index >= n {
        return None;
    }
    if !s.is_char_boundary(byte_index) {
        return None;
    }
    let mut j: usize = byte_index + 1;
    loop
        invariant
            byte_index < j <= n,
            n == s.spec_bytes().len(),
            forall|m: int| byte_index < m < j ==> !is_char_boundary(s.spec_bytes(), m),
        ensures
            byte_index < j <= n,
            n == s.spec_bytes().len(),
            forall|m: int| byte_index < m < j ==> !is_char_boundary(s.spec_bytes(), m),
            j == n || is_char_boundary(s.spec_bytes(), j as int),
        decreases n - j,
    {
        if j >= n {
            break ;
        }
        if s.is_char_boundary(j) {
            break ;
        }
        j = j + 1;
    }
    proof {
        lemma_next_boundary_of_scan(s.spec_bytes(), byte_index + 1, j as int);
    }
    Some(j - byte_index)
}

/// Returns the byte span occupied by the single character starting at
/// `byte_index`: the zero-width span there, widened by that character's
/// byte length. Nothing is returned under the same conditions as for
/// [`char_length`].
pub fn char_span(s: &str, byte_index: usize) -> (r: Option<Span>)
    ensures
        r is Some <==> byte_index < s.spec_bytes().len() && is_char_boundary(
            s.spec_bytes(),
            byte_index as int,
        ),
        r matches Some(sp) ==> sp.start == byte_index && byte_index < sp.end == next_boundary(
            s.spec_bytes(),
            byte_index + 1,
        ),
{
    match char_length(s, byte_index) {
        Some(l) => Some(Span::at(byte_index).with_len(l)),
        None => None,
    }
}

} // verus!
