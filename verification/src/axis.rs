//! The axis-orientation model: which directions each screen axis extends
//! into, which axis the bars grow along, and which combinations of the two
//! are valid.

use vstd::prelude::*;

use crate::error::{ChartsLibError, ErrorKind};

verus! {

/// A combined orientation of both screen axes.
#[derive(Debug, Clone, Copy, PartialEq, Eq, Structural)]
pub enum AxisOrientation {
    XPositiveYPositive,
    XPositiveYNegative,
    XPositiveYComplete,
    XNegativeYPositive,
    XNegativeYNegative,
    XNegativeYComplete,
    XCompleteYPositive,
    XCompleteYNegative,
    XCompleteYComplete,
}

/// How far the x axis extends: only into positive screen space, only into
/// negative screen space, or both ways (`Complete`).
#[derive(Debug, Clone, Copy, PartialEq, Eq, Structural)]
pub enum XAxisOrientation {
    Positive,
    Negative,
    Complete,
}

/// How far the y axis extends.
#[derive(Debug, Clone, Copy, PartialEq, Eq, Structural)]
pub enum YAxisOrientation {
    Positive,
    Negative,
    Complete,
}

/// Which screen axis, and which directional half of it, the bars of a chart
/// grow from.
#[derive(Debug, Clone, Copy, PartialEq, Eq, Structural)]
pub enum BarChartDataAxis {
    XPositive,
    XNegative,
    YPositive,
    YNegative,
}

/// Which sign(s) of data value a given orientation/data-axis combination
/// actually paints.
#[derive(Debug, Clone, Copy, PartialEq, Eq, Structural)]
pub enum BarChartDataPositivity {
    Positive,
    Negative,
    Both,
}

/// The compatibility table between a data axis and a coordinate-system
/// orientation. For each data axis exactly three of the nine orientation
/// pairs are valid.
pub open spec fn spec_compatible(
    data_axis: BarChartDataAxis,
    x_orientation: XAxisOrientation,
    y_orientation: YAxisOrientation,
) -> bool {
    match data_axis {
        BarChartDataAxis::XPositive => match (x_orientation, y_orientation) {
            (XAxisOrientation::Positive, YAxisOrientation::Positive) => true,
            (XAxisOrientation::Positive, YAxisOrientation::Negative) => true,
            (XAxisOrientation::Positive, YAxisOrientation::Complete) => true,
            _ => false,
        },
        BarChartDataAxis::XNegative => match (x_orientation, y_orientation) {
            (XAxisOrientation::Negative, YAxisOrientation::Positive) => true,
            (XAxisOrientation::Negative, YAxisOrientation::Negative) => true,
            (XAxisOrientation::Negative, YAxisOrientation::Complete) => true,
            _ => false,
        },
        BarChartDataAxis::YPositive => match (x_orientation, y_orientation) {
            (XAxisOrientation::Positive, YAxisOrientation::Positive) => true,
            (XAxisOrientation::Negative, YAxisOrientation::Positive) => true,
            (XAxisOrientation::Complete, YAxisOrientation::Positive) => true,
            _ => false,
        },
        BarChartDataAxis::YNegative => match (x_orientation, y_orientation) {
            (XAxisOrientation::Positive, YAxisOrientation::Negative) => true,
            (XAxisOrientation::Negative, YAxisOrientation::Negative) => true,
            (XAxisOrientation::Complete, YAxisOrientation::Negative) => true,
            _ => false,
        },
    }
}

/// Whether the data axis is compatible with the orientation pair.
pub fn compatible(
    data_axis: BarChartDataAxis,
    x_orientation: XAxisOrientation,
    y_orientation: YAxisOrientation,
) -> (r: bool)
    ensures
        r == spec_compatible(data_axis, x_orientation, y_orientation),
{
    match data_axis {
        BarChartDataAxis::XPositive => matches!(
            (x_orientation, y_orientation),
            (XAxisOrientation::Positive, _)
        ),
        BarChartDataAxis::XNegative => matches!(
            (x_orientation, y_orientation),
            (XAxisOrientation::Negative, _)
        ),
        BarChartDataAxis::YPositive => matches!(
            (x_orientation, y_orientation),
            (_, YAxisOrientation::Positive)
        ),
        BarChartDataAxis::YNegative => matches!(
            (x_orientation, y_orientation),
            (_, YAxisOrientation::Negative)
        ),
    }
}

/// Validates a configuration: `Ok` exactly on the pairs the compatibility
/// table lists, an `IncompatibleOrientationAndDataAxis` error on all others.
pub fn validate(
    data_axis: BarChartDataAxis,
    x_orientation: XAxisOrientation,
    y_orientation: YAxisOrientation,
) -> (r: Result<(), ChartsLibError>)
    ensures
        r is Ok <==> spec_compatible(data_axis, x_orientation, y_orientation),
        r matches Err(e) ==> e.spec_kind() == ErrorKind::IncompatibleOrientationAndDataAxis,
{
    if compatible(data_axis, x_orientation, y_orientation) {
        Ok(())
    } else {
        Err(ChartsLibError::new(
            ErrorKind::IncompatibleOrientationAndDataAxis,
            String::from_str("The chosen data axis is not compatible to the chosen coordinate system."),
        ))
    }
}

/// The compatibility table in closed form: a data axis along a screen axis
/// demands exactly that this screen axis extends into the data axis's half,
/// and allows any orientation of the other screen axis. This yields exactly
/// three valid orientation pairs per data axis, six invalid ones.
pub proof fn lemma_compatibility_table(
    data_axis: BarChartDataAxis,
    x_orientation: XAxisOrientation,
    y_orientation: YAxisOrientation,
)
    ensures
        spec_compatible(data_axis, x_orientation, y_orientation) <==> match data_axis {
            BarChartDataAxis::XPositive => x_orientation == XAxisOrientation::Positive,
            BarChartDataAxis::XNegative => x_orientation == XAxisOrientation::Negative,
            BarChartDataAxis::YPositive => y_orientation == YAxisOrientation::Positive,
            BarChartDataAxis::YNegative => y_orientation == YAxisOrientation::Negative,
        },
{
}

} // verus!
