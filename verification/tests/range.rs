use bench_charts::error::PlotError;
use bench_charts::range::{add_headroom, extent_of, fit_joint, fit_range, pad, Interval};

#[test]
fn fit_range_rejects_an_empty_sequence() {
    assert_eq!(fit_range(&[]), Err(PlotError::EmptySeries));
}

#[test]
fn fit_range_pads_the_extent() {
    assert_eq!(fit_range(&[4, 14, -2, 2, 5]), Ok(Interval { start: -3, end: 15 }));
    assert_eq!(fit_range(&[0, 100]), Ok(Interval { start: -5, end: 105 }));
    assert_eq!(fit_range(&[100, 0]), Ok(Interval { start: -5, end: 105 }));
    assert_eq!(fit_range(&[0, 1000, 2000, 3000, 4000]), Ok(Interval { start: -200, end: 4200 }));
}

#[test]
fn fit_range_finds_the_extremes_wherever_they_stand() {
    assert_eq!(fit_range(&[7, 3, 9, 1, 5]), Ok(Interval { start: 0, end: 10 }));
    assert_eq!(fit_range(&[1, 3, 5, 7, 9]), Ok(Interval { start: 0, end: 10 }));
    assert_eq!(fit_range(&[9, 7, 5, 3, 1]), Ok(Interval { start: 0, end: 10 }));
}

#[test]
fn fit_range_of_a_constant_sequence_has_a_width() {
    assert_eq!(fit_range(&[5]), Ok(Interval { start: 4, end: 6 }));
    assert_eq!(fit_range(&[7, 7, 7]), Ok(Interval { start: 6, end: 8 }));
    assert_eq!(fit_range(&[0, 0]), Ok(Interval { start: -1, end: 1 }));
}

#[test]
fn fit_range_brackets_every_value() {
    let samples: [&[i64]; 4] = [&[3, -8, 12, 0], &[1], &[-5, -5], &[1000, 2, 40, 77, -300]];
    for values in samples {
        let range = fit_range(values).unwrap();
        assert!(range.start < range.end);
        for v in values {
            assert!(range.start <= *v && *v <= range.end);
        }
    }
}

#[test]
fn fit_range_stays_within_the_integers() {
    assert_eq!(
        fit_range(&[i64::MIN, i64::MAX]),
        Ok(Interval { start: i64::MIN, end: i64::MAX })
    );
    assert_eq!(
        fit_range(&[i64::MAX]),
        Ok(Interval { start: i64::MAX - 1, end: i64::MAX })
    );
    assert_eq!(
        fit_range(&[i64::MIN, i64::MIN]),
        Ok(Interval { start: i64::MIN, end: i64::MIN + 1 })
    );
}

#[test]
fn pad_adds_a_twentieth_and_at_least_one() {
    assert_eq!(pad(0, 19), Interval { start: -1, end: 20 });
    assert_eq!(pad(0, 20), Interval { start: -1, end: 21 });
    assert_eq!(pad(0, 40), Interval { start: -2, end: 42 });
    assert_eq!(pad(-100, 100), Interval { start: -110, end: 110 });
    assert_eq!(pad(3, 3), Interval { start: 2, end: 4 });
    assert_eq!(pad(0, 39), Interval { start: -1, end: 40 });
}

#[test]
fn fit_joint_fits_both_sequences() {
    assert_eq!(fit_joint(&[10, 20], &[0, 100]), Ok(Interval { start: -5, end: 105 }));
    assert_eq!(fit_joint(&[0, 20], &[10, 100]), Ok(Interval { start: -5, end: 105 }));
    assert_eq!(fit_joint(&[0, 100], &[10, 20]), Ok(Interval { start: -5, end: 105 }));
    assert_eq!(fit_joint(&[50], &[50]), Ok(Interval { start: 49, end: 51 }));
}

#[test]
fn fit_joint_takes_an_empty_side() {
    assert_eq!(fit_joint(&[], &[0, 100]), Ok(Interval { start: -5, end: 105 }));
    assert_eq!(fit_joint(&[0, 100], &[]), Ok(Interval { start: -5, end: 105 }));
    assert_eq!(fit_joint(&[], &[]), Err(PlotError::EmptySeries));
}

#[test]
fn extent_of_adds_no_margin() {
    assert_eq!(extent_of(&[4, 14, -2, 2, 5]), Ok(Interval { start: -2, end: 14 }));
    assert_eq!(extent_of(&[3]), Ok(Interval { start: 3, end: 3 }));
    assert_eq!(extent_of(&[-2, 14]), Ok(Interval { start: -2, end: 14 }));
    assert_eq!(extent_of(&[14, -2]), Ok(Interval { start: -2, end: 14 }));
    assert_eq!(extent_of(&[]), Err(PlotError::EmptySeries));
}

#[test]
fn add_headroom_raises_the_upper_bound_by_a_tenth() {
    assert_eq!(add_headroom(Interval { start: 60, end: 940 }), Interval { start: 60, end: 1034 });
    assert_eq!(add_headroom(Interval { start: 0, end: 100 }), Interval { start: 0, end: 110 });
    assert_eq!(add_headroom(Interval { start: 0, end: 101 }), Interval { start: 0, end: 112 });
    assert_eq!(add_headroom(Interval { start: 0, end: 1 }), Interval { start: 0, end: 2 });
    assert_eq!(add_headroom(Interval { start: -5, end: 0 }), Interval { start: -5, end: 0 });
    assert_eq!(add_headroom(Interval { start: -50, end: -20 }), Interval { start: -50, end: -18 });
    assert_eq!(
        add_headroom(Interval { start: 0, end: i64::MAX }),
        Interval { start: 0, end: i64::MAX }
    );
}
