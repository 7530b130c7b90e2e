//! What a render is asked for: the benchmark, the size, and what the
//! statistics can offer.

use crate::geometry::Size;
use vstd::prelude::*;

verus! {

/// Names the benchmark, or the group of benchmarks, that a chart shows.
#[derive(PartialEq, Eq, Debug)]
pub struct BenchmarkId {
    /// The name as a title prints it.
    pub title: String,
}

impl BenchmarkId {
    /// The name of the benchmark as the title of a chart.
    pub fn as_title(&self) -> (t: &str)
        ensures
            t@ == self.title@,
    {
        self.title.as_str()
    }
}

/// How the value axis of a summary across benchmarks is divided.
#[derive(Clone, Copy, PartialEq, Eq, Debug, Structural)]
pub enum AxisScale {
    Linear,
    Logarithmic,
}

/// Which chart is asked for, and how large.
#[derive(Clone, Copy, Debug)]
pub struct PlotContext<'a> {
    /// The benchmark that the chart shows.
    pub id: &'a BenchmarkId,
    /// The size of the chart, where the caller chooses one.
    pub size: Option<Size>,
    /// The scale that the report is configured to use in summaries.
    pub summary_scale: AxisScale,
}

/// What the dispatcher reads of the statistics of one render. The
/// measurements themselves stay with the caller, who hands them to the figure
/// that the dispatcher names.
#[derive(Clone, Copy, PartialEq, Eq, Debug, Structural)]
pub struct PlotData {
    /// Whether an earlier run is at hand to compare this one with.
    pub has_comparison: bool,
}

} // verus!
