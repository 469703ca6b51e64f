use region_reference::{resolve_selection, AxisSelection, AxisSlab, SelectionError};

fn slice(start: i64, end: Option<i64>, step: i64) -> AxisSelection {
    AxisSelection::Slice { start, end, step }
}

fn slab(start: u64, stride: u64, count: u64) -> AxisSlab {
    AxisSlab { start, stride, count }
}

#[test]
fn index_selects_one_position() {
    assert_eq!(AxisSelection::Index(0).resolve(1, 0), Ok(slab(0, 1, 1)));
    assert_eq!(AxisSelection::Index(6).resolve(7, 2), Ok(slab(6, 1, 1)));
}

#[test]
fn index_outside_the_axis_is_refused() {
    assert_eq!(AxisSelection::Index(7).resolve(7, 2), Err(SelectionError::OutOfBounds { axis: 2 }));
    assert_eq!(AxisSelection::Index(-1).resolve(7, 0), Err(SelectionError::OutOfBounds { axis: 0 }));
    assert_eq!(AxisSelection::Index(0).resolve(0, 1), Err(SelectionError::OutOfBounds { axis: 1 }));
}

#[test]
fn range_counts_its_positions() {
    assert_eq!(slice(0, Some(1), 1).resolve(1, 0), Ok(slab(0, 1, 1)));
    assert_eq!(slice(2, Some(9), 1).resolve(10, 0), Ok(slab(2, 1, 7)));
    assert_eq!(slice(1, Some(10), 3).resolve(10, 0), Ok(slab(1, 3, 3)));
    assert_eq!(slice(1, Some(11), 3).resolve(11, 0), Ok(slab(1, 3, 4)));
    assert_eq!(slice(0, Some(5), 2).resolve(5, 0), Ok(slab(0, 2, 3)));
    assert_eq!(slice(0, Some(4), 2).resolve(5, 0), Ok(slab(0, 2, 2)));
    assert_eq!(slice(0, Some(5), 100).resolve(5, 0), Ok(slab(0, 100, 1)));
}

#[test]
fn open_range_runs_to_the_end() {
    assert_eq!(slice(0, None, 1).resolve(6, 0), Ok(slab(0, 1, 6)));
    assert_eq!(slice(4, None, 2).resolve(9, 0), Ok(slab(4, 2, 3)));
    assert_eq!(slice(0, None, 1).resolve(u64::MAX, 0), Ok(slab(0, 1, u64::MAX)));
}

#[test]
fn empty_range_selects_nothing() {
    assert_eq!(slice(3, Some(3), 1).resolve(5, 0), Ok(slab(3, 1, 0)));
    assert_eq!(slice(5, None, 4).resolve(5, 0), Ok(slab(5, 4, 0)));
    assert_eq!(slice(0, None, 1).resolve(0, 0), Ok(slab(0, 1, 0)));
}

#[test]
fn range_outside_the_axis_is_refused() {
    let oob = |axis| Err(SelectionError::OutOfBounds { axis });
    assert_eq!(slice(1, Some(2), 1).resolve(1, 0), oob(0));
    assert_eq!(slice(0, Some(6), 1).resolve(5, 3), oob(3));
    assert_eq!(slice(-1, Some(3), 1).resolve(5, 0), oob(0));
    assert_eq!(slice(0, Some(-1), 1).resolve(5, 0), oob(0));
    assert_eq!(slice(4, Some(2), 1).resolve(5, 0), oob(0));
    assert_eq!(slice(6, None, 1).resolve(5, 0), oob(0));
}

#[test]
fn step_below_one_is_refused() {
    let bad = |axis| Err(SelectionError::NonPositiveStride { axis });
    assert_eq!(slice(0, Some(1), 0).resolve(1, 0), bad(0));
    assert_eq!(slice(0, Some(1), -1).resolve(1, 4), bad(4));
    assert_eq!(slice(0, None, i64::MIN).resolve(1, 0), bad(0));
}

#[test]
fn bad_step_is_told_before_bad_bound() {
    assert_eq!(
        slice(3, Some(9), 0).resolve(1, 0),
        Err(SelectionError::NonPositiveStride { axis: 0 })
    );
}

#[test]
fn selection_resolves_axis_by_axis() {
    let shape = vec![4, 6, 9];
    let selection = vec![AxisSelection::Index(3), slice(0, None, 1), slice(1, Some(8), 3)];
    assert_eq!(
        resolve_selection(&shape, &selection),
        Ok(vec![slab(3, 1, 1), slab(0, 1, 6), slab(1, 3, 3)])
    );
}

#[test]
fn scalar_shape_takes_the_empty_selection() {
    assert_eq!(resolve_selection(&vec![], &vec![]), Ok(vec![]));
}

#[test]
fn rank_mismatch_is_told_with_both_ranks() {
    assert_eq!(
        resolve_selection(&vec![1], &vec![slice(0, Some(1), 1), slice(0, Some(1), 1)]),
        Err(SelectionError::RankMismatch { expected: 1, found: 2 })
    );
    assert_eq!(
        resolve_selection(&vec![2, 2], &vec![AxisSelection::Index(0)]),
        Err(SelectionError::RankMismatch { expected: 2, found: 1 })
    );
}

#[test]
fn rank_mismatch_is_told_before_any_axis() {
    assert_eq!(
        resolve_selection(&vec![1], &vec![slice(0, Some(1), 0), AxisSelection::Index(9)]),
        Err(SelectionError::RankMismatch { expected: 1, found: 2 })
    );
}

#[test]
fn first_axis_at_fault_is_named() {
    let shape = vec![4, 4, 4];
    let selection = vec![AxisSelection::Index(1), AxisSelection::Index(4), slice(0, None, 0)];
    assert_eq!(resolve_selection(&shape, &selection), Err(SelectionError::OutOfBounds { axis: 1 }));
    let selection = vec![AxisSelection::Index(1), slice(0, None, -2), AxisSelection::Index(4)];
    assert_eq!(
        resolve_selection(&shape, &selection),
        Err(SelectionError::NonPositiveStride { axis: 1 })
    );
}

#[test]
fn every_counted_position_lies_on_the_axis() {
    for extent in 0u64..12 {
        for start in 0i64..12 {
            for end in 0i64..12 {
                for step in 1i64..5 {
                    let r = slice(start, Some(end), step).resolve(extent, 0);
                    let fits = start <= end && end as u64 <= extent;
                    assert_eq!(r.is_ok(), fits);
                    if let Ok(s) = r {
                        let expected = (start..end).step_by(step as usize).count() as u64;
                        assert_eq!(s.count, expected);
                        if s.count > 0 {
                            assert!(s.start + (s.count - 1) * s.stride < extent);
                            assert!(s.start + s.count * s.stride >= end as u64);
                        }
                    }
                }
            }
        }
    }
}
