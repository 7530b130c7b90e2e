//! The ways in which a render can fail.

use vstd::prelude::*;

verus! {

/// Why a render produced no chart.
#[derive(Clone, Copy, PartialEq, Eq, Debug, Structural)]
pub enum PlotError {
    /// A sequence that an axis range is fitted to holds no value.
    EmptySeries,
    /// The sequences of one curve, band or point set differ in length.
    LengthMismatch,
    /// A regression band holds fewer than the two samples its wedge is drawn from.
    ShortBand,
    /// A comparison was asked for without comparison data.
    MissingComparison,
    /// The backend does not draw this kind of plot.
    Unsupported,
}

impl PlotError {
    /// True of the errors that blame the caller's input, false of a missing capability.
    pub open spec fn is_precondition(self) -> bool {
        self != PlotError::Unsupported
    }

    /// Tells a violated precondition from a plot kind that the backend lacks.
    pub fn precondition(&self) -> (b: bool)
        ensures
            b == self.is_precondition(),
    {
        match self {
            PlotError::Unsupported => false,
            _ => true,
        }
    }

    /// The text of the error, as a sequence of characters.
    pub open spec fn text(self) -> Seq<char> {
        match self {
            PlotError::EmptySeries => "cannot fit an axis range to an empty sequence"@,
            PlotError::LengthMismatch => "the sequences of one series differ in length"@,
            PlotError::ShortBand => "a regression band needs two samples"@,
            PlotError::MissingComparison => "comparison plot requested without comparison data"@,
            PlotError::Unsupported => "plot kind not supported by this backend"@,
        }
    }

    /// A sentence that names the failure.
    pub fn message(&self) -> (s: String)
        ensures
            s@ == self.text(),
    {
        match self {
            PlotError::EmptySeries => String::from_str(
                "cannot fit an axis range to an empty sequence",
            ),
            PlotError::LengthMismatch => String::from_str(
                "the sequences of one series differ in length",
            ),
            PlotError::ShortBand => String::from_str("a regression band needs two samples"),
            PlotError::MissingComparison => String::from_str(
                "comparison plot requested without comparison data",
            ),
            PlotError::Unsupported => String::from_str("plot kind not supported by this backend"),
        }
    }
}

} // verus!
