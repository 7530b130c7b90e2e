use bench_charts::error::PlotError;
use bench_charts::geometry::{
    canvas, check_paired, segment, zip, Canvas, FilledCurve, Line, LineCurve, Point, Points, Size,
    DEFAULT_HEIGHT, DEFAULT_WIDTH,
};

#[test]
fn the_default_size_is_960_by_540() {
    assert_eq!(Size::default(), Size(960, 540));
    assert_eq!(DEFAULT_WIDTH, 960);
    assert_eq!(DEFAULT_HEIGHT, 540);
    assert_eq!(canvas(None), Canvas { width: 960, height: 540 });
}

#[test]
fn a_requested_size_is_taken() {
    assert_eq!(canvas(Some(Size(450, 300))), Canvas { width: 450, height: 300 });
    let pixels: (u32, u32) = Size(1280, 720).into();
    assert_eq!(pixels, (1280, 720));
}

#[test]
fn paired_sequences_are_checked() {
    assert_eq!(check_paired(&[1, 2], &[3, 4]), Ok(()));
    assert_eq!(check_paired(&[1, 2], &[3]), Err(PlotError::LengthMismatch));
    assert_eq!(check_paired(&[], &[3]), Err(PlotError::LengthMismatch));
    assert_eq!(check_paired(&[], &[]), Err(PlotError::EmptySeries));
    assert_eq!(LineCurve { xs: &[1], ys: &[] }.check(), Err(PlotError::LengthMismatch));
    assert_eq!(LineCurve { xs: &[1], ys: &[2] }.check(), Ok(()));
    assert_eq!(Points { xs: &[], ys: &[] }.check(), Err(PlotError::EmptySeries));
    assert_eq!(Points { xs: &[1, 2], ys: &[2, 3] }.check(), Ok(()));
}

#[test]
fn a_band_is_checked() {
    let one = FilledCurve { xs: &[1], ys_1: &[5], ys_2: &[3] };
    assert_eq!(one.check(), Ok(()));
    assert_eq!(one.wedge(), Err(PlotError::ShortBand));
    let two = FilledCurve { xs: &[1, 2], ys_1: &[5, 6], ys_2: &[3, 4] };
    assert_eq!(two.check(), Ok(()));
    assert!(two.wedge().is_ok());
    let uneven = FilledCurve { xs: &[1, 2], ys_1: &[5, 6], ys_2: &[3] };
    assert_eq!(uneven.check(), Err(PlotError::LengthMismatch));
    assert_eq!(uneven.wedge(), Err(PlotError::LengthMismatch));
    let uneven = FilledCurve { xs: &[1, 2], ys_1: &[5], ys_2: &[3, 4] };
    assert_eq!(uneven.check(), Err(PlotError::LengthMismatch));
    let empty = FilledCurve { xs: &[], ys_1: &[], ys_2: &[] };
    assert_eq!(empty.check(), Err(PlotError::EmptySeries));
    assert_eq!(empty.wedge(), Err(PlotError::EmptySeries));
}

#[test]
fn the_wedge_has_three_of_the_four_corners() {
    let band = FilledCurve { xs: &[0, 100, 200], ys_1: &[10, 120, 240], ys_2: &[-10, 80, 160] };
    assert_eq!(
        band.wedge(),
        Ok(vec![Point { x: 0, y: -10 }, Point { x: 100, y: 120 }, Point { x: 100, y: 80 }])
    );
}

#[test]
fn zip_pairs_in_order() {
    assert_eq!(
        zip(&[1, 2, 3], &[10, 20, 30]),
        vec![Point { x: 1, y: 10 }, Point { x: 2, y: 20 }, Point { x: 3, y: 30 }]
    );
    assert_eq!(zip(&[], &[]), Vec::<Point>::new());
    assert_eq!(zip(&[1, 2, 3], &[10]), vec![Point { x: 1, y: 10 }]);
    assert_eq!(zip(&[1], &[10, 20]), vec![Point { x: 1, y: 10 }]);
}

#[test]
fn a_segment_is_a_path_of_its_two_ends() {
    let line = Line { start: Point { x: 2, y: 0 }, end: Point { x: 2, y: 9 } };
    assert_eq!(segment(line), vec![Point { x: 2, y: 0 }, Point { x: 2, y: 9 }]);
}
