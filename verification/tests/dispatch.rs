use bench_charts::backend::{PlottersBackend, PlottingBackend};
use bench_charts::chart::{Color, Label};
use bench_charts::context::{AxisScale, BenchmarkId, PlotContext, PlotData};
use bench_charts::dispatch::{PlotKind, ReportFile, Request};
use bench_charts::error::PlotError;
use bench_charts::geometry::Size;
use bench_charts::plotter::Plotter;

fn with_comparison() -> PlotData {
    PlotData { has_comparison: true }
}

fn alone() -> PlotData {
    PlotData { has_comparison: false }
}

fn context(id: &BenchmarkId) -> PlotContext<'_> {
    PlotContext { id, size: Some(Size(450, 300)), summary_scale: AxisScale::Logarithmic }
}

fn name() -> BenchmarkId {
    BenchmarkId { title: String::from("hash/sha256") }
}

#[test]
fn pdf_leaves_file_and_title_to_the_figure() {
    let id = name();
    let mut backend = PlottersBackend::default();
    assert_eq!(
        Plotter::pdf(&mut backend, context(&id), alone()),
        Ok(Request {
            kind: PlotKind::Pdf,
            file: None,
            title: None,
            size: Some(Size(450, 300)),
            scale: None
        })
    );
    assert_eq!(
        Plotter::pdf_thumbnail(&mut backend, context(&id), with_comparison()),
        Ok(Request {
            kind: PlotKind::PdfThumbnail,
            file: None,
            title: None,
            size: Some(Size(450, 300)),
            scale: None
        })
    );
}

#[test]
fn pdf_comparison_names_its_file_and_title() {
    let id = name();
    let mut backend = PlottersBackend::default();
    let request = Plotter::pdf_comparison(&mut backend, context(&id), with_comparison()).unwrap();
    assert_eq!(
        request,
        Request {
            kind: PlotKind::PdfComparison,
            file: Some(ReportFile::BothPdf),
            title: Some(String::from("hash/sha256")),
            size: Some(Size(450, 300)),
            scale: None
        }
    );
    assert_eq!(request.file.unwrap().name(), "both/pdf.svg");
}

#[test]
fn pdf_comparison_thumbnail_has_its_own_file_and_no_title() {
    let id = name();
    let mut backend = PlottersBackend::default();
    let request =
        Plotter::pdf_comparison_thumbnail(&mut backend, context(&id), with_comparison()).unwrap();
    assert_eq!(
        request,
        Request {
            kind: PlotKind::PdfComparisonThumbnail,
            file: Some(ReportFile::RelativePdfSmall),
            title: None,
            size: Some(Size(450, 300)),
            scale: None
        }
    );
    assert_eq!(request.file.unwrap().name(), "relative_pdf_small.svg");
}

#[test]
fn t_test_names_its_file_and_title() {
    let id = name();
    let mut backend = PlottersBackend::default();
    let request = Plotter::t_test(&mut backend, context(&id), with_comparison()).unwrap();
    assert_eq!(
        request,
        Request {
            kind: PlotKind::TTest,
            file: Some(ReportFile::TTest),
            title: Some(String::from("hash/sha256")),
            size: Some(Size(450, 300)),
            scale: None
        }
    );
    assert_eq!(request.file.unwrap().name(), "change/t-test.svg");
}

#[test]
fn a_comparison_without_comparison_data_fails() {
    let id = name();
    let mut backend = PlottersBackend::default();
    assert_eq!(
        Plotter::pdf_comparison(&mut backend, context(&id), alone()),
        Err(PlotError::MissingComparison)
    );
    assert_eq!(
        Plotter::pdf_comparison_thumbnail(&mut backend, context(&id), alone()),
        Err(PlotError::MissingComparison)
    );
    assert_eq!(
        Plotter::t_test(&mut backend, context(&id), alone()),
        Err(PlotError::MissingComparison)
    );
    assert!(PlotError::MissingComparison.precondition());
}

#[test]
fn summaries_carry_the_title_and_the_configured_scale() {
    let id = name();
    let mut backend = PlottersBackend::default();
    assert_eq!(
        Plotter::line_comparison(&mut backend, context(&id)),
        Ok(Request {
            kind: PlotKind::LineComparison,
            file: None,
            title: Some(String::from("hash/sha256")),
            size: None,
            scale: Some(AxisScale::Logarithmic)
        })
    );
    let linear = PlotContext { id: &id, size: None, summary_scale: AxisScale::Linear };
    assert_eq!(
        Plotter::violin(&mut backend, linear),
        Ok(Request {
            kind: PlotKind::Violin,
            file: None,
            title: Some(String::from("hash/sha256")),
            size: None,
            scale: Some(AxisScale::Linear)
        })
    );
}

#[test]
fn plots_that_the_backend_lacks_say_so() {
    let id = name();
    let mut b = PlottersBackend::default();
    let unsupported: Result<Request, PlotError> = Err(PlotError::Unsupported);
    assert_eq!(Plotter::regression(&mut b, context(&id), with_comparison()), unsupported);
    assert_eq!(Plotter::regression_thumbnail(&mut b, context(&id), alone()), unsupported);
    assert_eq!(Plotter::regression_comparison(&mut b, context(&id), alone()), unsupported);
    assert_eq!(
        Plotter::regression_comparison_thumbnail(&mut b, context(&id), with_comparison()),
        unsupported
    );
    assert_eq!(Plotter::iteration_times(&mut b, context(&id), alone()), unsupported);
    assert_eq!(Plotter::iteration_times_thumbnail(&mut b, context(&id), alone()), unsupported);
    assert_eq!(Plotter::iteration_times_comparison(&mut b, context(&id), alone()), unsupported);
    assert_eq!(
        Plotter::iteration_times_comparison_thumbnail(&mut b, context(&id), with_comparison()),
        unsupported
    );
    assert_eq!(Plotter::abs_distributions(&mut b, context(&id), alone()), unsupported);
    assert_eq!(Plotter::rel_distributions(&mut b, context(&id), with_comparison()), unsupported);
    assert!(!PlotError::Unsupported.precondition());
}

#[test]
fn waiting_returns() {
    let mut backend = PlottersBackend::default();
    Plotter::wait(&mut backend);
    PlottingBackend::wait(&mut backend);
}

#[test]
fn the_plots_that_compare_are_known() {
    assert!(PlotKind::PdfComparison.needs_comparison());
    assert!(PlotKind::PdfComparisonThumbnail.needs_comparison());
    assert!(PlotKind::RegressionComparison.needs_comparison());
    assert!(PlotKind::RegressionComparisonThumbnail.needs_comparison());
    assert!(PlotKind::IterationTimesComparison.needs_comparison());
    assert!(PlotKind::IterationTimesComparisonThumbnail.needs_comparison());
    assert!(PlotKind::TTest.needs_comparison());
    assert!(!PlotKind::Pdf.needs_comparison());
    assert!(!PlotKind::PdfThumbnail.needs_comparison());
    assert!(!PlotKind::Regression.needs_comparison());
    assert!(!PlotKind::IterationTimes.needs_comparison());
    assert!(!PlotKind::AbsDistributions.needs_comparison());
    assert!(!PlotKind::RelDistributions.needs_comparison());
    assert!(!PlotKind::LineComparison.needs_comparison());
    assert!(!PlotKind::Violin.needs_comparison());
}

#[test]
fn the_legend_has_a_fixed_vocabulary() {
    assert_eq!(Label::BootstrapDistribution.text(), "Bootstrap distribution");
    assert_eq!(Label::ConfidenceInterval.text(), "Confidence interval");
    assert_eq!(Label::PointEstimate.text(), "Point estimate");
    assert_eq!(Label::NoiseThreshold.text(), "Noise threshold");
    assert_eq!(Label::Current.text(), "Current");
    assert_eq!(Label::Base.text(), "Base");
    assert_eq!(Label::Sample.text(), "Sample");
    assert_eq!(Label::LinearRegression.text(), "Linear regression");
    assert_eq!(Label::BaseSample.text(), "Base Sample");
    assert_eq!(Label::NewSample.text(), "New Sample");
}

#[test]
fn the_palette_has_three_colours() {
    assert_eq!(Color::DarkBlue.rgb(), (31, 120, 180));
    assert_eq!(Color::DarkOrange.rgb(), (255, 127, 0));
    assert_eq!(Color::DarkRed.rgb(), (227, 26, 28));
}

#[test]
fn every_error_has_its_message() {
    assert_eq!(
        PlotError::EmptySeries.message(),
        "cannot fit an axis range to an empty sequence"
    );
    assert_eq!(
        PlotError::LengthMismatch.message(),
        "the sequences of one series differ in length"
    );
    assert_eq!(PlotError::ShortBand.message(), "a regression band needs two samples");
    assert_eq!(
        PlotError::MissingComparison.message(),
        "comparison plot requested without comparison data"
    );
    assert_eq!(PlotError::Unsupported.message(), "plot kind not supported by this backend");
    assert!(PlotError::EmptySeries.precondition());
    assert!(PlotError::LengthMismatch.precondition());
    assert!(PlotError::ShortBand.precondition());
}
