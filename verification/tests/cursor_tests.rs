use wutil::Cursor;

#[test]
fn cursor_walks_the_slice_in_order() {
    let data: &[u32] = &[1, 2, 3];
    let mut c = Cursor::new(data);
    assert_eq!(c.next(), Some(1));
    assert_eq!(c.next(), Some(2));
    assert_eq!(c.next(), Some(3));
    assert_eq!(c.next(), None);
    assert_eq!(c.next(), None);
}

#[test]
fn copied_cursor_advances_independently() {
    let data: &[u32] = &[1, 2, 3];
    let mut a = Cursor::new(data);
    assert_eq!(a.next(), Some(1));
    let mut b = a;
    assert_eq!(b.next(), Some(2));
    assert_eq!(b.next(), Some(3));
    // The original still stands where it was when the copy was taken.
    assert_eq!(a.next(), Some(2));
}

#[test]
fn collect_n_takes_exactly_n() {
    let data: &[u32] = &[0, 10, 20, 30, 40];
    let mut c = Cursor::new(data);
    assert_eq!(c.collect_n(5), Some(vec![0, 10, 20, 30, 40]));
    assert_eq!(c.next(), None);

    let mut d = Cursor::new(data);
    assert_eq!(d.collect_n(2), Some(vec![0, 10]));
    assert_eq!(d.next(), Some(20));
}

#[test]
fn collect_n_fails_when_fewer_are_available() {
    let data: &[u32] = &[1, 2];
    let mut c = Cursor::new(data);
    assert_eq!(c.collect_n(3), None);
    // The failed attempt consumed what was there.
    assert_eq!(c.next(), None);

    let mut e = Cursor::new(data);
    assert_eq!(e.collect_n(0), Some(vec![]));
}

#[test]
fn split_method_mirrors_the_constructor() {
    let data: &[u32] = &[1, 0, 2];
    let mut s = Cursor::new(data).split(|n: u32| n == 0);
    let mut first = s.next().unwrap();
    assert_eq!(first.next(), Some(1));
    assert_eq!(first.next(), None);

    let mut si = Cursor::new(data).split_inclusive(|n: u32| n == 0);
    let mut head = si.next().unwrap();
    assert_eq!(head.next(), Some(1));
    assert_eq!(head.next(), Some(0));
    assert_eq!(head.next(), None);
}
