//! Chart plans for benchmark reports.
//!
//! The library turns the curves, point clouds and intervals that a benchmark
//! analysis produces into a complete description of the chart to draw: the axis
//! ranges, the series in drawing order, the legend and the caption. Every
//! function states what it returns in its contract, and Verus proves the
//! contracts. One contract is believed and not proved: that of the private
//! function in `range` which asks plotters for the least and the greatest
//! value of a sequence.
//!
//! Coordinates are signed integers. A caller that measures in fractions scales
//! each axis by a factor of its choosing before it asks for a plan, and divides
//! by it when it draws.

pub mod backend;
pub mod chart;
pub mod context;
pub mod dispatch;
pub mod error;
pub mod geometry;
pub mod laws;
pub mod plans;
pub mod plotter;
pub mod range;
