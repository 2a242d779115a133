use wutil::find;
use wutil::get_slice_between;
use wutil::with_sequence_removed;

fn collect_removed(slice: &[u8], sequence: &[u8]) -> Vec<u8> {
    let mut pass = with_sequence_removed(slice, sequence);
    let mut out: Vec<u8> = Vec::new();
    while let Some(x) = pass.next() {
        out.push(x);
    }
    out
}

#[test]
fn find_leftmost_occurrence() {
    assert_eq!(find(b"Mississippi", b"ss"), Some(2));
    assert_eq!(find(b"Mississippi", b"Miss"), Some(0));
    assert_eq!(find(b"Mississippi", b"pi"), Some(9));
    assert_eq!(find(b"Mississippi", b"izz"), None);
}

#[test]
fn find_empty_needle_matches_at_zero() {
    assert_eq!(find(b"abc", b""), Some(0));
    assert_eq!(find(b"", b""), Some(0));
}

#[test]
fn find_needle_longer_than_haystack() {
    assert_eq!(find(b"ab", b"abc"), None);
    assert_eq!(find(b"", b"a"), None);
}

#[test]
fn sequence_removed_examples() {
    assert_eq!(collect_removed(b"Mississippi", b"is"), b"Mssippi".to_vec());
    assert_eq!(collect_removed(b"aabb", b"ab"), b"ab".to_vec());
    assert_eq!(collect_removed(b"aaaaa", b"aa"), b"a".to_vec());
}

#[test]
fn sequence_removed_is_single_pass() {
    let mut pass = with_sequence_removed(b"aa", b"aa");
    assert_eq!(pass.next(), None);
    assert_eq!(pass.next(), None);
}

#[test]
fn get_slice_between_examples() {
    let text: &[u8] = b"<a>foo</a> bar 'biz'] [bax] <a>bang</a>";

    assert_eq!(get_slice_between(text, b"<a>", b"</a>"), Some(&b"foo"[..]));
    assert_eq!(get_slice_between(text, b"'", b"'"), Some(&b"biz"[..]));
    assert_eq!(get_slice_between(text, b"[", b"]"), Some(&b"bax"[..]));
}

#[test]
fn get_slice_between_missing_brackets() {
    let text: &[u8] = b"<a>foo</a>";
    assert_eq!(get_slice_between(text, b"<b>", b"</a>"), None);
    assert_eq!(get_slice_between(text, b"<a>", b"</b>"), None);
    // The closing bracket counts only after the opening one.
    assert_eq!(get_slice_between(b"]ab[", b"[", b"]"), None);
}
