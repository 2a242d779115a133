use wutil::Cursor;
use wutil::Split;
use wutil::SplitInclusive;

fn collect_split(input: &[u32]) -> Vec<Vec<u32>> {
    let mut splitter = Split::new(Cursor::new(input), |n: u32| n == 0);
    let mut out: Vec<Vec<u32>> = Vec::new();
    while let Some(mut seg) = splitter.next() {
        let mut segment: Vec<u32> = Vec::new();
        while let Some(x) = seg.next() {
            segment.push(x);
        }
        out.push(segment);
    }
    out
}

fn collect_split_inclusive(input: &[u32]) -> Vec<Vec<u32>> {
    let mut splitter = SplitInclusive::new(Cursor::new(input), |n: u32| n == 0);
    let mut out: Vec<Vec<u32>> = Vec::new();
    while let Some(mut seg) = splitter.next() {
        let mut segment: Vec<u32> = Vec::new();
        while let Some(x) = seg.next() {
            segment.push(x);
        }
        out.push(segment);
    }
    out
}

#[test]
fn split() {
    let tests: &[(&[u32], &[&[u32]])] = &[
        (
            &[0, 10, 20, 0, 0, 50, 0],
            &[&[], &[10, 20], &[], &[50], &[]],
        ),
        (
            &[0, 10, 20, 0, 0, 50, 0, 2],
            &[&[], &[10, 20], &[], &[50], &[2]],
        ),
    ];

    for (input, expected) in tests {
        let split_nums = collect_split(input);
        assert_eq!(&split_nums, expected);
    }
}

#[test]
fn split_inclusive() {
    let tests: &[(&[u32], &[&[u32]])] = &[
        (
            &[0, 10, 20, 0, 0, 50, 0],
            &[&[0], &[10, 20, 0], &[0], &[50, 0], &[]],
        ),
        (
            &[0, 10, 20, 0, 0, 50, 0, 2],
            &[&[0], &[10, 20, 0], &[0], &[50, 0], &[2]],
        ),
    ];

    for (input, expected_output) in tests {
        let split_nums = collect_split_inclusive(input);
        assert_eq!(&split_nums, expected_output);
    }
}

#[test]
fn split_without_separators_is_one_segment() {
    assert_eq!(collect_split(&[7, 8, 9]), vec![vec![7, 8, 9]]);
    assert_eq!(collect_split_inclusive(&[7, 8, 9]), vec![vec![7, 8, 9]]);
}

#[test]
fn split_of_empty_source_is_one_empty_segment() {
    let empty: Vec<Vec<u32>> = vec![vec![]];
    assert_eq!(collect_split(&[]), empty);
    assert_eq!(collect_split_inclusive(&[]), empty);
}

#[test]
fn consumed_splitter_yields_no_further_segments() {
    let input: &[u32] = &[0, 1];
    let mut splitter = Split::new(Cursor::new(input), |n: u32| n == 0);
    while let Some(_) = splitter.next() {}
    assert!(splitter.next().is_none());
    assert!(splitter.next().is_none());

    let mut inclusive = SplitInclusive::new(Cursor::new(input), |n: u32| n == 0);
    while let Some(_) = inclusive.next() {}
    assert!(inclusive.next().is_none());
    assert!(inclusive.next().is_none());
}

#[test]
fn consumed_segment_yields_no_further_items() {
    let input: &[u32] = &[1, 2, 0, 3];
    let mut splitter = Split::new(Cursor::new(input), |n: u32| n == 0);
    let mut seg = splitter.next().unwrap();
    while let Some(_) = seg.next() {}
    assert!(seg.next().is_none());
    assert!(seg.next().is_none());

    let mut inclusive = SplitInclusive::new(Cursor::new(input), |n: u32| n == 0);
    let mut iseg = inclusive.next().unwrap();
    while let Some(_) = iseg.next() {}
    assert!(iseg.next().is_none());
    assert!(iseg.next().is_none());
}
