//! A 2-D bar-chart layout engine.
//!
//! Given a coordinate-system orientation, grouped numeric datasets and style
//! parameters, the library deterministically computes the geometric placement
//! of axes, bars, labels and hit-test regions inside a rectangular drawing
//! surface. It never paints: it returns drawing instructions and rectangles
//! that a renderer executes.
//!
//! All geometry is computed in exact integer arithmetic:
//! - data values are integers in hundredths of a unit, so rounding a marking
//!   label to two decimal places is exact;
//! - margins, arm lengths and origins are held in quarter-pixel units, so
//!   splitting a text width evenly between two sides and halving a plotting
//!   box for a `Complete` axis are exact;
//! - bar rectangles are held in fine units of `1 / (2 * clusters * series *
//!   max_abs)` quarter-pixels, a denominator that every division in the bar
//!   layout divides evenly, so bar widths, spacings and scaled bar lengths
//!   are exact as well. Each layout pass reports the scale it used.

use vstd::prelude::*;

pub mod axis;
pub mod bars;
pub mod chart;
pub mod color;
pub mod coord;
pub mod data;
pub mod draw;
pub mod error;
pub mod helper;
pub mod num;
pub mod style;
pub mod util;

verus! {

} // verus!
