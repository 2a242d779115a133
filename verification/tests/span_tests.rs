use wutil::Span;

#[test]
fn at_is_a_zero_width_span() {
    assert_eq!(Span::at(5), Span::from_range(5..5));
    assert_eq!(Span::at(0), Span::from_range(0..0));
    assert_eq!(Span::at(50), Span::from_range(50..50));
}

#[test]
fn derived_spans() {
    let span = Span::from_range(3..8);
    assert_eq!(span.span_at(), Span::from_range(3..3));
    assert_eq!(span.span_after(), Span::from_range(8..8));
    assert_eq!(span.with_len(2), Span::from_range(3..5));
    assert_eq!(span.with_start(1), Span::from_range(1..8));
    assert_eq!(span.with_end(4), Span::from_range(3..4));
}

#[test]
fn overlaps() {
    let foo = Span::from_range(0..3);
    let bar = Span::from_range(2..4);
    let biz = Span::from_range(3..6);

    assert!(!foo.overlaps_with(biz));
    assert!(foo.overlaps_with(bar));
    assert!(bar.overlaps_with(biz));

    assert!(foo.overlaps_with(Span::from_range(0..0)));
}

#[test]
fn range_round_trip() {
    assert_eq!(Span::from_range(2..9).into_range(), 2..9);
    assert_eq!(Span::from_range(0..0).into_range(), 0..0);
    // An inverted pair survives the round trip unchanged too.
    assert_eq!(Span::from_range(9..2).into_range(), 9..2);
    assert_eq!(
        Span::from_range(usize::MAX..0).into_range(),
        usize::MAX..0
    );
}

#[test]
fn span_iteration_is_ascending() {
    let mut it = Span::from_range(3..6).into_iter();
    assert_eq!(it.next(), Some(3));
    assert_eq!(it.next(), Some(4));
    assert_eq!(it.next(), Some(5));
    assert_eq!(it.next(), None);
    assert_eq!(it.next(), None);
}

#[test]
fn inverted_span_iterates_nothing() {
    let mut it = Span::from_range(6..3).into_iter();
    assert_eq!(it.next(), None);
    let mut zero = Span::at(4).into_iter();
    assert_eq!(zero.next(), None);
}
