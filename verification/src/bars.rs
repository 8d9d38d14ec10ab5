//! The bar layout engine: converts data values into non-overlapping paint
//! rectangles and axis-spanning hit-test rectangles, handling clustering,
//! spacing, maximum-width clamping, sign flips and orientation-dependent
//! growth direction.
//!
//! Every length here is exact. A layout pass over `c` clusters, `s` series
//! and a largest magnitude of `m` works in fine units of `1 / scale`
//! quarter-pixels, with `scale = 2 * c * s * max(m, 1)`: every division the
//! layout performs — by the cluster count, by the series count, by two when
//! redistributing clamped width, by the largest magnitude when scaling a
//! value to its bar length — divides `scale` evenly, so each coordinate is
//! an exact integer. The pass reports `scale` alongside its rectangles.

use vstd::prelude::*;

use std::collections::HashMap;

use crate::axis::{
    spec_compatible, BarChartDataAxis, BarChartDataPositivity, XAxisOrientation, YAxisOrientation,
};
use crate::color::{resolve_color, spec_resolve_color, Rgb};
use crate::coord::{axis_in_range, AxisAndOrigin, DIM_LIMIT};
use crate::data::{data_wf, dataset_wf, spec_max_len, BarChartData, COUNT_LIMIT, VALUE_LIMIT};

verus! {

/// An axis-aligned rectangle in fine units (see the module description).
#[derive(Debug, Clone, Copy, PartialEq, Eq, Structural)]
pub struct FineRect {
    pub x: i128,
    pub y: i128,
    pub width: i128,
    pub height: i128,
}

/// One laid-out bar: its paint rectangle, the axis-spanning hit-test
/// rectangle used for hover lookup, its resolved color and the data value
/// it stands for (in hundredths).
#[derive(Debug, Clone)]
pub struct LaidOutBar {
    pub bounds: FineRect,
    pub hit_bounds: FineRect,
    pub color: Rgb,
    pub value: i64,
}

/// The result of one layout pass. Coordinates in `bars` are in fine units
/// of `1 / scale` quarter-pixels.
#[derive(Debug)]
pub struct BarLayout {
    pub scale: i128,
    pub bar_width: i128,
    pub cluster_spacing: i128,
    pub bars: Vec<LaidOutBar>,
}

/// What a layout pass works from. Lengths are in quarter-pixel units; the
/// largest magnitude is in hundredths of a data unit.
#[derive(Debug, Clone)]
pub struct BarLayoutInput {
    pub data_axis: BarChartDataAxis,
    pub x_axis_orientation: XAxisOrientation,
    pub y_axis_orientation: YAxisOrientation,
    pub axis_and_origin: AxisAndOrigin,
    pub maximum_bar_width: i64,
    pub min_cluster_spacing: i64,
    pub bar_spacing: i64,
    pub biggest_data_entry_abs: i64,
}

/// A usable layout input: a compatible orientation triple, geometry within
/// the canvas bound, non-negative style lengths and a bounded magnitude.
pub open spec fn input_wf(input: BarLayoutInput) -> bool {
    &&& spec_compatible(input.data_axis, input.x_axis_orientation, input.y_axis_orientation)
    &&& axis_in_range(input.axis_and_origin)
    &&& 0 <= input.maximum_bar_width <= 4 * DIM_LIMIT
    &&& 0 <= input.min_cluster_spacing <= 4 * DIM_LIMIT
    &&& 0 <= input.bar_spacing <= 4 * DIM_LIMIT
    &&& 0 <= input.biggest_data_entry_abs <= VALUE_LIMIT
}

/// The normalization divisor: the largest magnitude, floored at one so the
/// all-zero dataset still has a scale.
pub open spec fn spec_norm(input: BarLayoutInput) -> int {
    if input.biggest_data_entry_abs < 1 {
        1
    } else {
        input.biggest_data_entry_abs as int
    }
}

/// Fine units per quarter-pixel for a pass over `c` clusters and `s`
/// series.
pub open spec fn spec_scale(input: BarLayoutInput, c: int, s: int) -> int {
    2 * c * s * spec_norm(input)
}

/// The numerator, over `c * s`, of the unclamped bar width: the arm length
/// less the minimum cluster spacings and the in-cluster bar spacings.
pub open spec fn spec_width_num(arm: int, c: int, s: int, mcs: int, bsp: int) -> int {
    arm - 2 * c * mcs - c * (s - 1) * bsp
}

/// Whether the unclamped bar width exceeds the configured maximum (the
/// comparison cross-multiplied by `c * s`).
pub open spec fn spec_clamped(arm: int, c: int, s: int, mcs: int, bsp: int, maxw: int) -> bool {
    spec_width_num(arm, c, s, mcs, bsp) > maxw * c * s
}

/// The bar width in fine units: the unclamped width, or the configured
/// maximum when that is exceeded.
pub open spec fn spec_bar_width_fine(
    arm: int,
    c: int,
    s: int,
    mcs: int,
    bsp: int,
    maxw: int,
    mn: int,
) -> int {
    if spec_clamped(arm, c, s, mcs, bsp, maxw) {
        maxw * (2 * c * s * mn)
    } else {
        spec_width_num(arm, c, s, mcs, bsp) * 2 * mn
    }
}

/// The cluster spacing in fine units: the configured minimum, plus — when
/// the width was clamped — the freed width redistributed evenly over the
/// two spacings of every cluster.
pub open spec fn spec_cluster_spacing_fine(
    arm: int,
    c: int,
    s: int,
    mcs: int,
    bsp: int,
    maxw: int,
    mn: int,
) -> int {
    if spec_clamped(arm, c, s, mcs, bsp, maxw) {
        mcs * (2 * c * s * mn) + (spec_width_num(arm, c, s, mcs, bsp) - maxw * c * s) * s * mn
    } else {
        mcs * (2 * c * s * mn)
    }
}

/// Computes the bar width and the cluster spacing for one pass, in fine
/// units of `1 / (2 * c * s * mn)` quarter-pixels.
pub fn calculate_bar_width_and_cluster_spacing(
    arm: i64,
    c: usize,
    s: usize,
    mcs: i64,
    bsp: i64,
    maxw: i64,
    mn: i64,
) -> (r: (i128, i128))
    requires
        0 <= arm <= 4 * DIM_LIMIT,
        1 <= c <= COUNT_LIMIT,
        1 <= s <= COUNT_LIMIT,
        0 <= mcs <= 4 * DIM_LIMIT,
        0 <= bsp <= 4 * DIM_LIMIT,
        0 <= maxw <= 4 * DIM_LIMIT,
        1 <= mn <= VALUE_LIMIT,
    ensures
        r.0 == spec_bar_width_fine(
            arm as int,
            c as int,
            s as int,
            mcs as int,
            bsp as int,
            maxw as int,
            mn as int,
        ),
        r.1 == spec_cluster_spacing_fine(
            arm as int,
            c as int,
            s as int,
            mcs as int,
            bsp as int,
            maxw as int,
            mn as int,
        ),
        -0x2000_0000_0000_0000_0000_0000 <= r.0 <= 0x2000_0000_0000_0000_0000_0000,
        0 <= r.1 <= 0x10_0000_0000_0000_0000_0000_0000,
{
    let ci: i128 = c as i128;
    let si: i128 = s as i128;
    let mni: i128 = mn as i128;
    let armi: i128 = arm as i128;
    let mcsi: i128 = mcs as i128;
    let bspi: i128 = bsp as i128;
    let maxwi: i128 = maxw as i128;
    proof {
        assert(0 <= ci * mcsi <= 40_000_000_000int) by (nonlinear_arith)
            requires
                0 <= ci <= 10_000,
                0 <= mcsi <= 4_000_000,
        ;
    }
    let cm: i128 = ci * mcsi;
    proof {
        assert(0 <= ci * (si - 1) <= 100_000_000int) by (nonlinear_arith)
            requires
                0 <= ci <= 10_000,
                0 <= si - 1 <= 10_000,
        ;
    }
    let cb: i128 = ci * (si - 1);
    proof {
        assert(0 <= cb * bspi <= 400_000_000_000_000int) by (nonlinear_arith)
            requires
                0 <= cb <= 100_000_000,
                0 <= bspi <= 4_000_000,
        ;
    }
    let cbb: i128 = cb * bspi;
    let width_num: i128 = armi - 2 * cm - cbb;
    proof {
        assert(width_num == spec_width_num(arm as int, c as int, s as int, mcs as int, bsp as int))
            by (nonlinear_arith)
            requires
                width_num == armi - 2 * cm - cbb,
                cm == ci * mcsi,
                cb == ci * (si - 1),
                cbb == cb * bspi,
                ci == c,
                si == s,
                mcsi == mcs,
                bspi == bsp,
                armi == arm,
        ;
        assert(-500_000_000_000_000int <= width_num <= 500_000_000_000_000int);
    }
    proof {
        assert(1 <= ci * si <= 100_000_000int) by (nonlinear_arith)
            requires
                1 <= ci <= 10_000,
                1 <= si <= 10_000,
        ;
    }
    let cs_prod: i128 = ci * si;
    proof {
        assert(0 <= maxwi * cs_prod <= 400_000_000_000_000int) by (nonlinear_arith)
            requires
                0 <= maxwi <= 4_000_000,
                1 <= cs_prod <= 100_000_000,
        ;
    }
    let max_num: i128 = maxwi * cs_prod;
    proof {
        assert(max_num == (maxw as int) * (c as int) * (s as int)) by (nonlinear_arith)
            requires
                max_num == maxwi * cs_prod,
                cs_prod == ci * si,
                ci == c,
                si == s,
                maxwi == maxw,
        ;
    }
    proof {
        assert(2 <= (2 * cs_prod) * mni <= 200_000_000_000_000_000int) by (nonlinear_arith)
            requires
                1 <= cs_prod <= 100_000_000,
                1 <= mni <= 1_000_000_000,
        ;
    }
    let scale: i128 = 2 * cs_prod * mni;
    proof {
        assert(scale == 2 * (c as int) * (s as int) * (mn as int)) by (nonlinear_arith)
            requires
                scale == 2 * cs_prod * mni,
                cs_prod == ci * si,
                ci == c,
                si == s,
                mni == mn,
        ;
    }
    if width_num > max_num {
        proof {
            assert(0 <= maxwi * scale <= 0x2000_0000_0000_0000_0000_0000int) by (nonlinear_arith)
                requires
                    0 <= maxwi <= 4_000_000,
                    2 <= scale <= 200_000_000_000_000_000int,
            ;
        }
        let bar_width: i128 = maxwi * scale;
        let freed: i128 = width_num - max_num;
        proof {
            assert(0 < freed * si <= 10_000_000_000_000_000_000int) by (nonlinear_arith)
                requires
                    0 < freed <= 1_000_000_000_000_000int,
                    1 <= si <= 10_000,
            ;
        }
        let fs: i128 = freed * si;
        proof {
            assert(0 < fs * mni <= 0x8000_0000_0000_0000_0000_0000int) by (nonlinear_arith)
                requires
                    0 < fs <= 10_000_000_000_000_000_000int,
                    1 <= mni <= 1_000_000_000,
            ;
        }
        let freed_sm: i128 = fs * mni;
        proof {
            assert(0 <= mcsi * scale <= 0x2000_0000_0000_0000_0000_0000int) by (nonlinear_arith)
                requires
                    0 <= mcsi <= 4_000_000,
                    2 <= scale <= 200_000_000_000_000_000int,
            ;
        }
        let mcs_scale: i128 = mcsi * scale;
        proof {
            assert(freed_sm == (width_num - max_num) * (s as int) * (mn as int))
                by (nonlinear_arith)
                requires
                    freed_sm == fs * mni,
                    fs == freed * si,
                    freed == width_num - max_num,
                    si == s,
                    mni == mn,
            ;
        }
        let cluster_spacing: i128 = mcs_scale + freed_sm;
        (bar_width, cluster_spacing)
    } else {
        proof {
            assert(-0x2000_0000_0000_0000_0000_0000int <= (width_num * 2) * mni
                <= 0x2000_0000_0000_0000_0000_0000int) by (nonlinear_arith)
                requires
                    -500_000_000_000_000int <= width_num <= 500_000_000_000_000int,
                    1 <= mni <= 1_000_000_000,
            ;
        }
        let bar_width: i128 = width_num * 2 * mni;
        proof {
            assert(0 <= mcsi * scale <= 0x1000_0000_0000_0000_0000_0000int) by (nonlinear_arith)
                requires
                    0 <= mcsi <= 4_000_000,
                    2 <= scale <= 200_000_000_000_000_000int,
            ;
        }
        let cluster_spacing: i128 = mcsi * scale;
        (bar_width, cluster_spacing)
    }
}

/// The bar width never exceeds the configured maximum, and — clamped or
/// not — the total axis length the pass consumes, `c` clusters of two
/// cluster spacings, `s` bar widths and `s - 1` in-cluster bar spacings
/// each, is exactly the arm length assigned to the data axis.
pub proof fn lemma_consumed_equals_arm(
    arm: int,
    c: int,
    s: int,
    mcs: int,
    bsp: int,
    maxw: int,
    mn: int,
)
    requires
        1 <= c,
        1 <= s,
        1 <= mn,
    ensures
        spec_bar_width_fine(arm, c, s, mcs, bsp, maxw, mn) <= maxw * (2 * c * s * mn),
        c * (2 * spec_cluster_spacing_fine(arm, c, s, mcs, bsp, maxw, mn) + s
            * spec_bar_width_fine(arm, c, s, mcs, bsp, maxw, mn) + (s - 1) * bsp * (2 * c * s
            * mn)) == arm * (2 * c * s * mn),
{
    let f = 2 * c * s * mn;
    let num = spec_width_num(arm, c, s, mcs, bsp);
    assert(c * (2 * (mcs * f)) == (2 * c * mcs) * f) by (nonlinear_arith);
    assert(c * ((s - 1) * bsp * f) == (c * (s - 1) * bsp) * f) by (nonlinear_arith);
    if spec_clamped(arm, c, s, mcs, bsp, maxw) {
        let d = num - maxw * c * s;
        let bw = maxw * f;
        let cs = mcs * f + d * s * mn;
        assert(c * (2 * (d * s * mn)) == d * f) by (nonlinear_arith)
            requires
                f == 2 * c * s * mn,
        ;
        assert(c * (s * (maxw * f)) == (maxw * c * s) * f) by (nonlinear_arith);
        assert(c * (2 * cs + s * bw + (s - 1) * bsp * f) == c * (2 * (mcs * f)) + c * (2 * (d * s
            * mn)) + c * (s * (maxw * f)) + c * ((s - 1) * bsp * f)) by (nonlinear_arith)
            requires
                cs == mcs * f + d * s * mn,
                bw == maxw * f,
        ;
        assert((2 * c * mcs) * f + d * f + (maxw * c * s) * f + (c * (s - 1) * bsp) * f == (2 * c
            * mcs + d + maxw * c * s + c * (s - 1) * bsp) * f) by (nonlinear_arith);
        assert(2 * c * mcs + d + maxw * c * s + c * (s - 1) * bsp == arm);
        assert(c * (2 * cs + s * bw + (s - 1) * bsp * f) == arm * f);
    } else {
        let bw = num * 2 * mn;
        assert(bw <= maxw * f) by (nonlinear_arith)
            requires
                num <= maxw * c * s,
                f == 2 * c * s * mn,
                bw == num * 2 * mn,
                1 <= c,
                1 <= s,
                1 <= mn,
        ;
        let cs = mcs * f;
        assert(c * (s * (num * 2 * mn)) == num * f) by (nonlinear_arith)
            requires
                f == 2 * c * s * mn,
        ;
        assert(c * (2 * cs + s * bw + (s - 1) * bsp * f) == c * (2 * (mcs * f)) + c * (s * (num * 2
            * mn)) + c * ((s - 1) * bsp * f)) by (nonlinear_arith)
            requires
                cs == mcs * f,
                bw == num * 2 * mn,
        ;
        assert((2 * c * mcs) * f + num * f + (c * (s - 1) * bsp) * f == (2 * c * mcs + num + c * (s
            - 1) * bsp) * f) by (nonlinear_arith);
        assert(2 * c * mcs + num + c * (s - 1) * bsp == arm);
        assert(c * (2 * cs + s * bw + (s - 1) * bsp * f) == arm * f);
    }
}

/// Whether the bars run along the x screen axis.
pub open spec fn spec_along_x(input: BarLayoutInput) -> bool {
    input.data_axis == BarChartDataAxis::XPositive || input.data_axis
        == BarChartDataAxis::XNegative
}

/// The sign of cursor movement along the data axis: negative for the
/// negative half of an axis, positive otherwise.
pub open spec fn spec_dir(input: BarLayoutInput) -> int {
    match input.data_axis {
        BarChartDataAxis::XPositive => 1,
        BarChartDataAxis::XNegative => -1,
        BarChartDataAxis::YPositive => -1,
        BarChartDataAxis::YNegative => 1,
    }
}

/// Whether the cursor starts one bar width before the origin, so that bars
/// laid towards negative coordinates keep their left/top corner as the
/// rectangle position.
pub open spec fn spec_offset_bar_width(input: BarLayoutInput) -> bool {
    input.data_axis == BarChartDataAxis::XNegative || input.data_axis
        == BarChartDataAxis::YPositive
}

/// The initial growth direction of a bar: bars along the x axis grow
/// upward from the axis, bars along the y axis grow rightward.
pub open spec fn spec_init_top(input: BarLayoutInput) -> bool {
    spec_along_x(input)
}

/// The positivity class of the pass, derived from the orientation of the
/// screen axis the bars' lengths run along: a positive-only arm paints
/// non-negative values, a negative-only arm paints negative values, a
/// `Complete` axis paints both.
pub open spec fn spec_positivity(input: BarLayoutInput) -> BarChartDataPositivity {
    if spec_along_x(input) {
        match input.y_axis_orientation {
            YAxisOrientation::Positive => BarChartDataPositivity::Positive,
            YAxisOrientation::Negative => BarChartDataPositivity::Negative,
            YAxisOrientation::Complete => BarChartDataPositivity::Both,
        }
    } else {
        match input.x_axis_orientation {
            XAxisOrientation::Positive => BarChartDataPositivity::Positive,
            XAxisOrientation::Negative => BarChartDataPositivity::Negative,
            XAxisOrientation::Complete => BarChartDataPositivity::Both,
        }
    }
}

/// The arm length, in quarter-pixels, that a data value is scaled against:
/// the arm of the crossing axis that the bars grow into.
pub open spec fn spec_indicator_arm(input: BarLayoutInput) -> int {
    let a = input.axis_and_origin;
    match input.data_axis {
        BarChartDataAxis::XPositive | BarChartDataAxis::XNegative => {
            if input.y_axis_orientation == YAxisOrientation::Positive {
                a.y_axis_positive_length as int
            } else {
                a.y_axis_negative_length as int
            }
        },
        BarChartDataAxis::YPositive => {
            if input.x_axis_orientation == XAxisOrientation::Negative {
                a.x_axis_negative_length as int
            } else {
                a.x_axis_positive_length as int
            }
        },
        BarChartDataAxis::YNegative => {
            if input.x_axis_orientation == XAxisOrientation::Positive {
                a.x_axis_positive_length as int
            } else {
                a.x_axis_negative_length as int
            }
        },
    }
}

/// The arm length, in quarter-pixels, that the bars are distributed
/// along: the arm of the data axis itself.
pub open spec fn spec_data_arm(input: BarLayoutInput) -> int {
    let a = input.axis_and_origin;
    match input.data_axis {
        BarChartDataAxis::XPositive => a.x_axis_positive_length as int,
        BarChartDataAxis::XNegative => a.x_axis_negative_length as int,
        BarChartDataAxis::YPositive => a.y_axis_positive_length as int,
        BarChartDataAxis::YNegative => a.y_axis_negative_length as int,
    }
}

/// The per-pass walking parameters, resolved once from the orientation
/// triple.
#[derive(Debug, Clone, Copy)]
pub struct BarPassDescriptor {
    pub indicator_axis_length: i64,
    pub positivity: BarChartDataPositivity,
    pub orientation_factor: i64,
    pub offset_bar_width: bool,
    pub draw_from_top: bool,
    pub along_x: bool,
}

/// Resolves the nine valid orientation triples to their walking
/// parameters.
pub fn orientation_descriptor(input: &BarLayoutInput) -> (d: BarPassDescriptor)
    requires
        input_wf(*input),
    ensures
        d.indicator_axis_length == spec_indicator_arm(*input),
        d.positivity == spec_positivity(*input),
        d.orientation_factor == spec_dir(*input),
        d.offset_bar_width == spec_offset_bar_width(*input),
        d.draw_from_top == spec_init_top(*input),
        d.along_x == spec_along_x(*input),
{
    let a = &input.axis_and_origin;
    match (input.data_axis, input.x_axis_orientation, input.y_axis_orientation) {
        (BarChartDataAxis::XPositive, XAxisOrientation::Positive, YAxisOrientation::Positive) => {
            BarPassDescriptor {
                indicator_axis_length: a.y_axis_positive_length,
                positivity: BarChartDataPositivity::Positive,
                orientation_factor: 1,
                offset_bar_width: false,
                draw_from_top: true,
                along_x: true,
            }
        },
        (BarChartDataAxis::XPositive, XAxisOrientation::Positive, YAxisOrientation::Negative) => {
            BarPassDescriptor {
                indicator_axis_length: a.y_axis_negative_length,
                positivity: BarChartDataPositivity::Negative,
                orientation_factor: 1,
                offset_bar_width: false,
                draw_from_top: true,
                along_x: true,
            }
        },
        (BarChartDataAxis::XPositive, XAxisOrientation::Positive, YAxisOrientation::Complete) => {
            BarPassDescriptor {
                indicator_axis_length: a.y_axis_negative_length,
                positivity: BarChartDataPositivity::Both,
                orientation_factor: 1,
                offset_bar_width: false,
                draw_from_top: true,
                along_x: true,
            }
        },
        (BarChartDataAxis::XNegative, XAxisOrientation::Negative, YAxisOrientation::Positive) => {
            BarPassDescriptor {
                indicator_axis_length: a.y_axis_positive_length,
                positivity: BarChartDataPositivity::Positive,
                orientation_factor: -1,
                offset_bar_width: true,
                draw_from_top: true,
                along_x: true,
            }
        },
        (BarChartDataAxis::XNegative, XAxisOrientation::Negative, YAxisOrientation::Negative) => {
            BarPassDescriptor {
                indicator_axis_length: a.y_axis_negative_length,
                positivity: BarChartDataPositivity::Negative,
                orientation_factor: -1,
                offset_bar_width: true,
                draw_from_top: true,
                along_x: true,
            }
        },
        (BarChartDataAxis::XNegative, XAxisOrientation::Negative, YAxisOrientation::Complete) => {
            BarPassDescriptor {
                indicator_axis_length: a.y_axis_negative_length,
                positivity: BarChartDataPositivity::Both,
                orientation_factor: -1,
                offset_bar_width: true,
                draw_from_top: true,
                along_x: true,
            }
        },
        (BarChartDataAxis::YPositive, XAxisOrientation::Positive, YAxisOrientation::Positive) => {
            BarPassDescriptor {
                indicator_axis_length: a.x_axis_positive_length,
                positivity: BarChartDataPositivity::Positive,
                orientation_factor: -1,
                offset_bar_width: true,
                draw_from_top: false,
                along_x: false,
            }
        },
        (BarChartDataAxis::YPositive, XAxisOrientation::Negative, YAxisOrientation::Positive) => {
            BarPassDescriptor {
                indicator_axis_length: a.x_axis_negative_length,
                positivity: BarChartDataPositivity::Negative,
                orientation_factor: -1,
                offset_bar_width: true,
                draw_from_top: false,
                along_x: false,
            }
        },
        (BarChartDataAxis::YPositive, XAxisOrientation::Complete, YAxisOrientation::Positive) => {
            BarPassDescriptor {
                indicator_axis_length: a.x_axis_positive_length,
                positivity: BarChartDataPositivity::Both,
                orientation_factor: -1,
                offset_bar_width: true,
                draw_from_top: false,
                along_x: false,
            }
        },
        (BarChartDataAxis::YNegative, XAxisOrientation::Positive, YAxisOrientation::Negative) => {
            BarPassDescriptor {
                indicator_axis_length: a.x_axis_positive_length,
                positivity: BarChartDataPositivity::Positive,
                orientation_factor: 1,
                offset_bar_width: false,
                draw_from_top: false,
                along_x: false,
            }
        },
        (BarChartDataAxis::YNegative, XAxisOrientation::Negative, YAxisOrientation::Negative) => {
            BarPassDescriptor {
                indicator_axis_length: a.x_axis_negative_length,
                positivity: BarChartDataPositivity::Negative,
                orientation_factor: 1,
                offset_bar_width: false,
                draw_from_top: false,
                along_x: false,
            }
        },
        (BarChartDataAxis::YNegative, XAxisOrientation::Complete, YAxisOrientation::Negative) => {
            BarPassDescriptor {
                indicator_axis_length: a.x_axis_negative_length,
                positivity: BarChartDataPositivity::Both,
                orientation_factor: 1,
                offset_bar_width: false,
                draw_from_top: false,
                along_x: false,
            }
        },
        _ => vstd::pervasive::unreached(),
    }
}

/// The series id drawn in slot `j` of every cluster.
pub open spec fn spec_entry_id(data: BarChartData, j: int) -> u32
    recommends
        0 <= j < data.datasets@.len(),
{
    data.datasets@[j].id
}

/// The value drawn in slot `j` of cluster `k`: the series' value at index
/// `k`, or zero when the series is shorter (the entry still occupies its
/// slot, as a zero-length placeholder).
pub open spec fn spec_entry_val(data: BarChartData, k: int, j: int) -> i64
    recommends
        0 <= j < data.datasets@.len(),
{
    if 0 <= k < data.datasets@[j].data@.len() {
        data.datasets@[j].data@[k]
    } else {
        0
    }
}

/// Builds the per-cluster, per-series table of (series id, value) slots:
/// one row per cluster, one entry per series.
pub fn create_drawable_bar_vec(data: &BarChartData) -> (r: Vec<Vec<(u32, i64)>>)
    ensures
        r@.len() == spec_max_len(data.datasets@),
        forall|k: int| 0 <= k < r@.len() ==> #[trigger] r@[k]@.len() == data.datasets@.len(),
        forall|k: int, j: int|
            0 <= k < r@.len() && 0 <= j < data.datasets@.len() ==> #[trigger] r@[k]@[j] == (
            spec_entry_id(*data, j),
            spec_entry_val(*data, k, j),
            ),
{
    let cluster_amount = data.get_biggest_amount_of_data_entries_in_one_dataset();
    let s = data.datasets.len();
    let mut data_vector: Vec<Vec<(u32, i64)>> = Vec::new();
    for k in 0..cluster_amount
        invariant
            cluster_amount == spec_max_len(data.datasets@),
            s == data.datasets@.len(),
            data_vector@.len() == k,
            forall|k2: int| 0 <= k2 < k ==> #[trigger] data_vector@[k2]@.len() == s,
            forall|k2: int, j: int|
                0 <= k2 < k && 0 <= j < s ==> #[trigger] data_vector@[k2]@[j] == (
                spec_entry_id(*data, j),
                spec_entry_val(*data, k2, j),
                ),
    {
        let mut row: Vec<(u32, i64)> = Vec::new();
        for j in 0..s
            invariant
                s == data.datasets@.len(),
                0 <= k < cluster_amount,
                row@.len() == j,
                forall|j2: int|
                    0 <= j2 < j ==> #[trigger] row@[j2] == (
                    spec_entry_id(*data, j2),
                    spec_entry_val(*data, k as int, j2),
                    ),
        {
            let dataset = &data.datasets[j];
            let value = if k < dataset.data.len() {
                dataset.data[k]
            } else {
                0
            };
            row.push((dataset.id, value));
        }
        data_vector.push(row);
    }
    data_vector
}

/// The cluster count of a pass.
pub open spec fn spec_c(data: BarChartData) -> int {
    spec_max_len(data.datasets@)
}

/// The series count of a pass.
pub open spec fn spec_s(data: BarChartData) -> int {
    data.datasets@.len() as int
}

/// The in-cluster bar spacing the cursor advances by: forced to zero when
/// there is only one series.
pub open spec fn spec_bs_eff(input: BarLayoutInput, data: BarChartData) -> int {
    if spec_s(data) == 1 {
        0
    } else {
        input.bar_spacing as int
    }
}

/// Fine units per quarter-pixel of this pass.
pub open spec fn spec_pass_scale(input: BarLayoutInput, data: BarChartData) -> int {
    spec_scale(input, spec_c(data), spec_s(data))
}

/// The bar width of this pass, in fine units.
pub open spec fn spec_pass_bar_width(input: BarLayoutInput, data: BarChartData) -> int {
    spec_bar_width_fine(
        spec_data_arm(input),
        spec_c(data),
        spec_s(data),
        input.min_cluster_spacing as int,
        input.bar_spacing as int,
        input.maximum_bar_width as int,
        spec_norm(input),
    )
}

/// The cluster spacing of this pass, in fine units.
pub open spec fn spec_pass_cluster_spacing(input: BarLayoutInput, data: BarChartData) -> int {
    spec_cluster_spacing_fine(
        spec_data_arm(input),
        spec_c(data),
        spec_s(data),
        input.min_cluster_spacing as int,
        input.bar_spacing as int,
        input.maximum_bar_width as int,
        spec_norm(input),
    )
}

/// The cursor advance per entry: one bar spacing and one bar width.
pub open spec fn spec_entry_step(input: BarLayoutInput, data: BarChartData) -> int {
    spec_bs_eff(input, data) * spec_pass_scale(input, data) + spec_pass_bar_width(input, data)
}

/// The cursor advance per whole cluster.
pub open spec fn spec_cluster_step(input: BarLayoutInput, data: BarChartData) -> int {
    2 * spec_pass_cluster_spacing(input, data) - spec_bs_eff(input, data) * spec_pass_scale(
        input,
        data,
    ) + spec_s(data) * spec_entry_step(input, data)
}

/// Where the cursor starts: the origin's coordinate along the data axis,
/// less one bar width for passes that lay bars towards negative
/// coordinates.
pub open spec fn spec_cursor_base(input: BarLayoutInput, data: BarChartData) -> int {
    let o = input.axis_and_origin.origin;
    (if spec_along_x(input) {
        o.x as int
    } else {
        o.y as int
    }) * spec_pass_scale(input, data) - (if spec_offset_bar_width(input) {
        spec_pass_bar_width(input, data)
    } else {
        0
    })
}

/// The cursor position, along the data axis and in fine units, at which
/// the bar of cluster `k`, series slot `j` is placed.
pub open spec fn spec_cursor(input: BarLayoutInput, data: BarChartData, k: int, j: int) -> int {
    spec_cursor_base(input, data) + spec_dir(input) * (k * spec_cluster_step(input, data)
        + spec_pass_cluster_spacing(input, data) + j * spec_entry_step(input, data))
}

/// The signed bar length of an entry, in fine units: the indicator arm
/// length scaled by the entry's value over the largest magnitude.
pub open spec fn spec_len_signed(
    input: BarLayoutInput,
    data: BarChartData,
    k: int,
    j: int,
) -> int {
    spec_indicator_arm(input) * spec_entry_val(data, k, j) * (2 * spec_c(data) * spec_s(data))
}

/// Whether the entry's scaled length is negative, which flips its growth
/// direction.
pub open spec fn spec_bar_negative(
    input: BarLayoutInput,
    data: BarChartData,
    k: int,
    j: int,
) -> bool {
    spec_len_signed(input, data, k, j) < 0
}

/// The magnitude of the entry's scaled length, in fine units.
pub open spec fn spec_bar_len(input: BarLayoutInput, data: BarChartData, k: int, j: int) -> int {
    let ls = spec_len_signed(input, data, k, j);
    if ls < 0 {
        -ls
    } else {
        ls
    }
}

/// Whether the entry is painted: its sign must agree with the positivity
/// class of the pass, except that zero-length placeholders always paint.
pub open spec fn spec_painted(
    input: BarLayoutInput,
    data: BarChartData,
    k: int,
    j: int,
) -> bool {
    let neg = spec_bar_negative(input, data, k, j);
    let pos = spec_positivity(input);
    (neg && (pos == BarChartDataPositivity::Negative || pos == BarChartDataPositivity::Both)) || (
    !neg && (pos == BarChartDataPositivity::Positive || pos == BarChartDataPositivity::Both))
        || spec_bar_len(input, data, k, j) == 0
}

/// Every coordinate of a laid-out bar stays far inside `i128`, so callers
/// can do arithmetic on the rectangles.
pub open spec fn bar_in_range(b: LaidOutBar) -> bool {
    &&& -0x400_0000_0000_0000_0000_0000_0000_0000 <= b.bounds.x
        <= 0x400_0000_0000_0000_0000_0000_0000_0000
    &&& -0x400_0000_0000_0000_0000_0000_0000_0000 <= b.bounds.y
        <= 0x400_0000_0000_0000_0000_0000_0000_0000
    &&& -0x400_0000_0000_0000_0000_0000_0000_0000 <= b.bounds.width
        <= 0x400_0000_0000_0000_0000_0000_0000_0000
    &&& -0x400_0000_0000_0000_0000_0000_0000_0000 <= b.bounds.height
        <= 0x400_0000_0000_0000_0000_0000_0000_0000
    &&& -0x400_0000_0000_0000_0000_0000_0000_0000 <= b.hit_bounds.x
        <= 0x400_0000_0000_0000_0000_0000_0000_0000
    &&& -0x400_0000_0000_0000_0000_0000_0000_0000 <= b.hit_bounds.y
        <= 0x400_0000_0000_0000_0000_0000_0000_0000
    &&& -0x400_0000_0000_0000_0000_0000_0000_0000 <= b.hit_bounds.width
        <= 0x400_0000_0000_0000_0000_0000_0000_0000
    &&& -0x400_0000_0000_0000_0000_0000_0000_0000 <= b.hit_bounds.height
        <= 0x400_0000_0000_0000_0000_0000_0000_0000
}

/// A laid-out bar as mathematical integers, for stating contracts.
pub struct BarModel {
    pub px: int,
    pub py: int,
    pub pw: int,
    pub ph: int,
    pub hx: int,
    pub hy: int,
    pub hw: int,
    pub hh: int,
    pub color: Rgb,
    pub value: int,
}

/// The mathematical content of a laid-out bar.
pub open spec fn bar_view(b: LaidOutBar) -> BarModel {
    BarModel {
        px: b.bounds.x as int,
        py: b.bounds.y as int,
        pw: b.bounds.width as int,
        ph: b.bounds.height as int,
        hx: b.hit_bounds.x as int,
        hy: b.hit_bounds.y as int,
        hw: b.hit_bounds.width as int,
        hh: b.hit_bounds.height as int,
        color: b.color,
        value: b.value as int,
    }
}

/// The bar laid out for cluster `k`, series slot `j`: its paint rectangle
/// at the cursor, grown along the indicator axis by its scaled length, and
/// its hit-test rectangle, which spans the full indicator axis (both arms
/// for a `Complete` pairing) while matching the paint rectangle across the
/// data axis.
pub open spec fn spec_bar_at(
    input: BarLayoutInput,
    data: BarChartData,
    overrides: Map<u32, Rgb>,
    k: int,
    j: int,
) -> BarModel {
    let scale = spec_pass_scale(input, data);
    let arm = spec_indicator_arm(input);
    let bw = spec_pass_bar_width(input, data);
    let cur = spec_cursor(input, data, k, j);
    let neg = spec_bar_negative(input, data, k, j);
    let len = spec_bar_len(input, data, k, j);
    let ox = input.axis_and_origin.origin.x as int;
    let oy = input.axis_and_origin.origin.y as int;
    let color = spec_resolve_color(overrides, spec_entry_id(data, j));
    let value = spec_entry_val(data, k, j) as int;
    if spec_along_x(input) {
        let py = oy * scale - (if !neg {
            len
        } else {
            0
        });
        let (hy, hh) = match input.y_axis_orientation {
            YAxisOrientation::Positive => ((oy - arm) * scale, arm * scale),
            YAxisOrientation::Complete => ((oy - arm) * scale, 2 * arm * scale),
            YAxisOrientation::Negative => (py, arm * scale),
        };
        BarModel {
            px: cur,
            py: py,
            pw: bw,
            ph: len,
            hx: cur,
            hy: hy,
            hw: bw,
            hh: hh,
            color: color,
            value: value,
        }
    } else {
        let px = ox * scale - (if neg {
            len
        } else {
            0
        });
        let (hx, hw) = match input.x_axis_orientation {
            XAxisOrientation::Negative => ((ox - arm) * scale, arm * scale),
            XAxisOrientation::Complete => ((ox - arm) * scale, 2 * arm * scale),
            XAxisOrientation::Positive => (px, arm * scale),
        };
        BarModel {
            px: px,
            py: cur,
            pw: len,
            ph: bw,
            hx: hx,
            hy: cur,
            hw: hw,
            hh: bw,
            color: color,
            value: value,
        }
    }
}

/// The painted bars among the first `n` entries, walked clusters in index
/// order and series slots in index order within each cluster.
pub open spec fn spec_bars_prefix(
    input: BarLayoutInput,
    data: BarChartData,
    overrides: Map<u32, Rgb>,
    n: nat,
) -> Seq<BarModel>
    decreases n,
{
    if n == 0 {
        Seq::empty()
    } else {
        let prev = spec_bars_prefix(input, data, overrides, (n - 1) as nat);
        let k = (n - 1) as int / spec_s(data);
        let j = (n - 1) as int % spec_s(data);
        if spec_painted(input, data, k, j) {
            prev.push(spec_bar_at(input, data, overrides, k, j))
        } else {
            prev
        }
    }
}

/// Every bar one layout pass paints, in emission order.
pub open spec fn spec_layout_bars(
    input: BarLayoutInput,
    data: BarChartData,
    overrides: Map<u32, Rgb>,
) -> Seq<BarModel> {
    spec_bars_prefix(input, data, overrides, (spec_c(data) * spec_s(data)) as nat)
}

/// Bounds the magnitude of a product from bounds on its factors.
proof fn lemma_mul_abs_bound(a: int, b: int, ab: int, bb: int)
    requires
        -ab <= a <= ab,
        0 <= ab,
        -bb <= b <= bb,
        0 <= bb,
    ensures
        -(ab * bb) <= a * b <= ab * bb,
{
    assert(-(ab * bb) <= a * b <= ab * bb) by (nonlinear_arith)
        requires
            -ab <= a <= ab,
            0 <= ab,
            -bb <= b <= bb,
            0 <= bb,
    ;
}

/// The cursor's closed form stays far inside `i128`.
proof fn lemma_cursor_in_range(base: int, dir: int, k: int, kstep: int, extra: int)
    requires
        -0x8000_0000_0000_0000_0000_0000 <= base <= 0x8000_0000_0000_0000_0000_0000,
        dir == 1 || dir == -1,
        0 <= k <= 10_000,
        -0x1000_0000_0000_0000_0000_0000_0000 <= kstep <= 0x1000_0000_0000_0000_0000_0000_0000,
        -0x8000_0000_0000_0000_0000_0000_0000 <= extra <= 0x8000_0000_0000_0000_0000_0000_0000,
    ensures
        -0x400_0000_0000_0000_0000_0000_0000_0000 <= base + dir * (k * kstep + extra)
            <= 0x400_0000_0000_0000_0000_0000_0000_0000,
{
    lemma_mul_abs_bound(k, kstep, 10_000, 0x1000_0000_0000_0000_0000_0000_0000);
    let x = k * kstep + extra;
    assert(dir * x == x || dir * x == -x) by (nonlinear_arith)
        requires
            dir == 1 || dir == -1,
    ;
}

/// Builds the laid-out bar of one painted entry from the pass's
/// precomputed fine-unit quantities.
fn build_bar(
    input: &BarLayoutInput,
    overrides: &HashMap<u32, Rgb>,
    desc: BarPassDescriptor,
    cursor: i128,
    bar_width: i128,
    oxs: i128,
    oys: i128,
    armf: i128,
    ox_minus_arm_f: i128,
    oy_minus_arm_f: i128,
    id: u32,
    v: i64,
    ls: i128,
    Ghost(datag): Ghost<BarChartData>,
    Ghost(k): Ghost<int>,
    Ghost(j): Ghost<int>,
) -> (b: LaidOutBar)
    requires
        desc.along_x == spec_along_x(*input),
        desc.positivity == spec_positivity(*input),
        cursor == spec_cursor(*input, datag, k, j),
        bar_width == spec_pass_bar_width(*input, datag),
        oxs == (input.axis_and_origin.origin.x as int) * spec_pass_scale(*input, datag),
        oys == (input.axis_and_origin.origin.y as int) * spec_pass_scale(*input, datag),
        armf == (spec_indicator_arm(*input)) * spec_pass_scale(*input, datag),
        ox_minus_arm_f == (input.axis_and_origin.origin.x - spec_indicator_arm(*input))
            * spec_pass_scale(*input, datag),
        oy_minus_arm_f == (input.axis_and_origin.origin.y - spec_indicator_arm(*input))
            * spec_pass_scale(*input, datag),
        id == spec_entry_id(datag, j),
        v == spec_entry_val(datag, k, j),
        ls == spec_len_signed(*input, datag, k, j),
        -0x1_0000_0000_0000_0000_0000_0000 <= ls <= 0x1_0000_0000_0000_0000_0000_0000,
        -0x1_0000_0000_0000_0000_0000_0000 <= oxs <= 0x1_0000_0000_0000_0000_0000_0000,
        -0x1_0000_0000_0000_0000_0000_0000 <= oys <= 0x1_0000_0000_0000_0000_0000_0000,
        -0x1_0000_0000_0000_0000_0000_0000 <= armf <= 0x1_0000_0000_0000_0000_0000_0000,
        -0x1_0000_0000_0000_0000_0000_0000 <= ox_minus_arm_f <= 0x1_0000_0000_0000_0000_0000_0000,
        -0x1_0000_0000_0000_0000_0000_0000 <= oy_minus_arm_f <= 0x1_0000_0000_0000_0000_0000_0000,
        -0x400_0000_0000_0000_0000_0000_0000_0000 <= cursor
            <= 0x400_0000_0000_0000_0000_0000_0000_0000,
        -0x2000_0000_0000_0000_0000_0000 <= bar_width <= 0x2000_0000_0000_0000_0000_0000,
    ensures
        bar_view(b) == spec_bar_at(*input, datag, overrides@, k, j),
        bar_in_range(b),
{
    let neg = ls < 0;
    let len = if neg {
        -ls
    } else {
        ls
    };
    proof {
        assert(2 * armf == 2 * spec_indicator_arm(*input) * spec_pass_scale(*input, datag))
            by (nonlinear_arith)
            requires
                armf == spec_indicator_arm(*input) * spec_pass_scale(*input, datag),
        ;
    }
    let color = resolve_color(overrides, id);
    if desc.along_x {
        let py = if !neg {
            oys - len
        } else {
            oys
        };
        let paint = FineRect { x: cursor, y: py, width: bar_width, height: len };
        let hit = match input.y_axis_orientation {
            YAxisOrientation::Positive => FineRect {
                x: cursor,
                y: oy_minus_arm_f,
                width: bar_width,
                height: armf,
            },
            YAxisOrientation::Complete => FineRect {
                x: cursor,
                y: oy_minus_arm_f,
                width: bar_width,
                height: 2 * armf,
            },
            YAxisOrientation::Negative => FineRect {
                x: cursor,
                y: py,
                width: bar_width,
                height: armf,
            },
        };
        LaidOutBar { bounds: paint, hit_bounds: hit, color, value: v }
    } else {
        let px = if neg {
            oxs - len
        } else {
            oxs
        };
        let paint = FineRect { x: px, y: cursor, width: len, height: bar_width };
        let hit = match input.x_axis_orientation {
            XAxisOrientation::Negative => FineRect {
                x: ox_minus_arm_f,
                y: cursor,
                width: armf,
                height: bar_width,
            },
            XAxisOrientation::Complete => FineRect {
                x: ox_minus_arm_f,
                y: cursor,
                width: 2 * armf,
                height: bar_width,
            },
            XAxisOrientation::Positive => FineRect {
                x: px,
                y: cursor,
                width: armf,
                height: bar_width,
            },
        };
        LaidOutBar { bounds: paint, hit_bounds: hit, color, value: v }
    }
}

/// Walks the clusters and series slots of one pass, advancing the cursor
/// and collecting the painted bars. All fine-unit quantities arrive
/// precomputed.
#[verifier::loop_isolation(false)]
#[verifier::rlimit(100)]
fn run_pass(
    input: &BarLayoutInput,
    data: &BarChartData,
    overrides: &HashMap<u32, Rgb>,
    desc: BarPassDescriptor,
    c: usize,
    s: usize,
    bar_width: i128,
    base: i128,
    step_cluster_in: i128,
    step_entry: i128,
    step_cluster_out: i128,
    oxs: i128,
    oys: i128,
    armf: i128,
    ox_minus_arm_f: i128,
    oy_minus_arm_f: i128,
    arm: i64,
    two_cs: i128,
    data_vector: &Vec<Vec<(u32, i64)>>,
) -> (bars: Vec<LaidOutBar>)
    requires
        input_wf(*input),
        data_wf(*data),
        c == spec_c(*data),
        s == spec_s(*data),
        1 <= c <= 10_000,
        1 <= s <= 10_000,
        desc.along_x == spec_along_x(*input),
        desc.positivity == spec_positivity(*input),
        arm == spec_indicator_arm(*input),
        0 <= arm <= 4_000_000,
        two_cs == 2 * (spec_c(*data) * spec_s(*data)),
        2 <= two_cs <= 200_000_000,
        bar_width == spec_pass_bar_width(*input, *data),
        -0x2000_0000_0000_0000_0000_0000 <= bar_width <= 0x2000_0000_0000_0000_0000_0000,
        base == spec_cursor_base(*input, *data),
        -0x8000_0000_0000_0000_0000_0000 <= base <= 0x8000_0000_0000_0000_0000_0000,
        -0x1000_0000_0000_0000_0000_0000_0000 <= spec_cluster_step(*input, *data)
            <= 0x1000_0000_0000_0000_0000_0000_0000,
        0 <= spec_pass_cluster_spacing(*input, *data) <= 0x10_0000_0000_0000_0000_0000_0000,
        -0x4000_0000_0000_0000_0000_0000 <= spec_entry_step(*input, *data)
            <= 0x4000_0000_0000_0000_0000_0000,
        step_cluster_in == spec_dir(*input) * spec_pass_cluster_spacing(*input, *data),
        -0x10_0000_0000_0000_0000_0000_0000 <= step_cluster_in
            <= 0x10_0000_0000_0000_0000_0000_0000,
        step_entry == spec_dir(*input) * spec_entry_step(*input, *data),
        -0x4000_0000_0000_0000_0000_0000 <= step_entry <= 0x4000_0000_0000_0000_0000_0000,
        step_cluster_in + step_entry * (s as int) + step_cluster_out == spec_dir(*input)
            * spec_cluster_step(*input, *data),
        -0x20_0000_0000_0000_0000_0000_0000 <= step_cluster_out
            <= 0x20_0000_0000_0000_0000_0000_0000,
        oxs == (input.axis_and_origin.origin.x as int) * spec_pass_scale(*input, *data),
        oys == (input.axis_and_origin.origin.y as int) * spec_pass_scale(*input, *data),
        armf == spec_indicator_arm(*input) * spec_pass_scale(*input, *data),
        ox_minus_arm_f == (input.axis_and_origin.origin.x - spec_indicator_arm(*input))
            * spec_pass_scale(*input, *data),
        oy_minus_arm_f == (input.axis_and_origin.origin.y - spec_indicator_arm(*input))
            * spec_pass_scale(*input, *data),
        -0x1_0000_0000_0000_0000_0000_0000 <= oxs <= 0x1_0000_0000_0000_0000_0000_0000,
        -0x1_0000_0000_0000_0000_0000_0000 <= oys <= 0x1_0000_0000_0000_0000_0000_0000,
        -0x1_0000_0000_0000_0000_0000_0000 <= armf <= 0x1_0000_0000_0000_0000_0000_0000,
        -0x1_0000_0000_0000_0000_0000_0000 <= ox_minus_arm_f <= 0x1_0000_0000_0000_0000_0000_0000,
        -0x1_0000_0000_0000_0000_0000_0000 <= oy_minus_arm_f <= 0x1_0000_0000_0000_0000_0000_0000,
        data_vector@.len() == spec_c(*data),
        forall|k2: int|
            0 <= k2 < data_vector@.len() ==> #[trigger] data_vector@[k2]@.len() == spec_s(*data),
        forall|k2: int, j2: int|
            0 <= k2 < data_vector@.len() && 0 <= j2 < spec_s(*data) ==> #[trigger] data_vector@[k2]@[j2]
                == (spec_entry_id(*data, j2), spec_entry_val(*data, k2, j2)),
    ensures
        bars@.len() == spec_layout_bars(*input, *data, overrides@).len(),
        forall|i: int|
            0 <= i < bars@.len() ==> #[trigger] bar_view(bars@[i]) == spec_layout_bars(
                *input,
                *data,
                overrides@,
            )[i],
        forall|i: int| 0 <= i < bars@.len() ==> bar_in_range(#[trigger] bars@[i]),
{
    let mut bars: Vec<LaidOutBar> = Vec::new();
    let mut cursor: i128 = base;
    proof {
        assert(spec_dir(*input) * (0int * spec_cluster_step(*input, *data)) == 0)
            by (nonlinear_arith);
        assert(spec_dir(*input) == 1 || spec_dir(*input) == -1);
    }
    for k in 0..c
        invariant
            cursor == spec_cursor_base(*input, *data) + spec_dir(*input) * ((k as int)
                * spec_cluster_step(*input, *data)),
            -0x400_0000_0000_0000_0000_0000_0000_0000 <= cursor
                <= 0x400_0000_0000_0000_0000_0000_0000_0000,
            bars@.len() == spec_bars_prefix(*input, *data, overrides@, (k * s) as nat).len(),
            forall|i: int|
                0 <= i < bars@.len() ==> #[trigger] bar_view(bars@[i]) == spec_bars_prefix(
                    *input,
                    *data,
                    overrides@,
                    (k * s) as nat,
                )[i],
            forall|i: int| 0 <= i < bars@.len() ==> bar_in_range(#[trigger] bars@[i]),
    {
        proof {
            lemma_cursor_in_range(
                spec_cursor_base(*input, *data),
                spec_dir(*input),
                k as int,
                spec_cluster_step(*input, *data),
                spec_pass_cluster_spacing(*input, *data),
            );
            assert(spec_dir(*input) * ((k as int) * spec_cluster_step(*input, *data)) + spec_dir(
                *input,
            ) * spec_pass_cluster_spacing(*input, *data) == spec_dir(*input) * ((k as int)
                * spec_cluster_step(*input, *data) + spec_pass_cluster_spacing(*input, *data)))
                by (nonlinear_arith);
            assert(0int * spec_entry_step(*input, *data) == 0) by (nonlinear_arith);
        }
        cursor = cursor + step_cluster_in;
        proof {
            assert(cursor == spec_cursor(*input, *data, k as int, 0));
        }
        for j in 0..s
            invariant
                0 <= k < c,
                cursor == spec_cursor(*input, *data, k as int, j as int),
                -0x400_0000_0000_0000_0000_0000_0000_0000 <= cursor
                    <= 0x400_0000_0000_0000_0000_0000_0000_0000,
                bars@.len() == spec_bars_prefix(
                    *input,
                    *data,
                    overrides@,
                    (k * s + j) as nat,
                ).len(),
                forall|i: int|
                    0 <= i < bars@.len() ==> #[trigger] bar_view(bars@[i]) == spec_bars_prefix(
                        *input,
                        *data,
                        overrides@,
                        (k * s + j) as nat,
                    )[i],
                forall|i: int| 0 <= i < bars@.len() ==> bar_in_range(#[trigger] bars@[i]),
        {
            let row = &data_vector[k];
            let entry = row[j];
            let id = entry.0;
            let v = entry.1;
            proof {
                assert(v == spec_entry_val(*data, k as int, j as int));
                assert(id == spec_entry_id(*data, j as int));
                assert(-1_000_000_000 <= v <= 1_000_000_000) by {
                    if (k as int) < data.datasets@[j as int].data@.len() {
                        assert(dataset_wf(data.datasets@[j as int]));
                    }
                };
                lemma_mul_abs_bound(arm as int, v as int, 4_000_000, 1_000_000_000);
            }
            let av: i128 = (arm as i128) * (v as i128);
            proof {
                lemma_mul_abs_bound(
                    av as int,
                    two_cs as int,
                    4_000_000_000_000_000int,
                    200_000_000,
                );
            }
            let ls: i128 = av * two_cs;
            proof {
                assert(ls == spec_len_signed(*input, *data, k as int, j as int))
                    by (nonlinear_arith)
                    requires
                        ls == av * two_cs,
                        av == (arm as int) * (v as int),
                        two_cs == 2 * (spec_c(*data) * spec_s(*data)),
                        arm == spec_indicator_arm(*input),
                        v == spec_entry_val(*data, k as int, j as int),
                ;
            }
            let neg = ls < 0;
            let len = if neg {
                -ls
            } else {
                ls
            };
            let painted = match desc.positivity {
                BarChartDataPositivity::Positive => !neg,
                BarChartDataPositivity::Negative => neg || len == 0,
                BarChartDataPositivity::Both => true,
            };
            proof {
                assert(painted == spec_painted(*input, *data, k as int, j as int));
                vstd::arithmetic::div_mod::lemma_fundamental_div_mod_converse(
                    k as int * spec_s(*data) + j as int,
                    spec_s(*data),
                    k as int,
                    j as int,
                );
            }
            if painted {
                let bar = build_bar(
                    input,
                    overrides,
                    desc,
                    cursor,
                    bar_width,
                    oxs,
                    oys,
                    armf,
                    ox_minus_arm_f,
                    oy_minus_arm_f,
                    id,
                    v,
                    ls,
                    Ghost(*data),
                    Ghost(k as int),
                    Ghost(j as int),
                );
                bars.push(bar);
                proof {
                    assert(spec_bars_prefix(
                        *input,
                        *data,
                        overrides@,
                        (k * s + j + 1) as nat,
                    ) =~= spec_bars_prefix(*input, *data, overrides@, (k * s + j) as nat).push(
                        spec_bar_at(*input, *data, overrides@, k as int, j as int),
                    ));
                }
            } else {
                proof {
                    assert(spec_bars_prefix(
                        *input,
                        *data,
                        overrides@,
                        (k * s + j + 1) as nat,
                    ) =~= spec_bars_prefix(*input, *data, overrides@, (k * s + j) as nat));
                }
            }
            proof {
                assert((j as int + 1) * spec_entry_step(*input, *data) == (j as int)
                    * spec_entry_step(*input, *data) + spec_entry_step(*input, *data))
                    by (nonlinear_arith);
                lemma_mul_abs_bound(
                    j as int + 1,
                    spec_entry_step(*input, *data),
                    10_000,
                    0x4000_0000_0000_0000_0000_0000,
                );
                lemma_cursor_in_range(
                    spec_cursor_base(*input, *data),
                    spec_dir(*input),
                    k as int,
                    spec_cluster_step(*input, *data),
                    spec_pass_cluster_spacing(*input, *data) + (j as int + 1) * spec_entry_step(
                        *input,
                        *data,
                    ),
                );
                assert(spec_dir(*input) * ((k as int) * spec_cluster_step(*input, *data)
                    + spec_pass_cluster_spacing(*input, *data) + (j as int) * spec_entry_step(
                    *input,
                    *data,
                )) + spec_dir(*input) * spec_entry_step(*input, *data) == spec_dir(*input) * ((
                k as int) * spec_cluster_step(*input, *data) + spec_pass_cluster_spacing(
                    *input,
                    *data,
                ) + (j as int + 1) * spec_entry_step(*input, *data))) by (nonlinear_arith)
                    requires
                        (j as int + 1) * spec_entry_step(*input, *data) == (j as int)
                            * spec_entry_step(*input, *data) + spec_entry_step(*input, *data),
                ;
            }
            cursor = cursor + step_entry;
        }
        proof {
            assert((k as int + 1) * spec_cluster_step(*input, *data) == (k as int)
                * spec_cluster_step(*input, *data) + spec_cluster_step(*input, *data))
                by (nonlinear_arith);
            lemma_cursor_in_range(
                spec_cursor_base(*input, *data),
                spec_dir(*input),
                k as int + 1,
                spec_cluster_step(*input, *data),
                0,
            );
            assert(spec_dir(*input) * ((k as int) * spec_cluster_step(*input, *data)
                + spec_pass_cluster_spacing(*input, *data) + (s as int) * spec_entry_step(
                *input,
                *data,
            )) + (step_cluster_out as int) == spec_dir(*input) * ((k as int + 1)
                * spec_cluster_step(*input, *data))) by (nonlinear_arith)
                requires
                    (k as int + 1) * spec_cluster_step(*input, *data) == (k as int)
                        * spec_cluster_step(*input, *data) + spec_cluster_step(*input, *data),
                    step_cluster_in + step_entry * (s as int) + step_cluster_out == spec_dir(
                        *input,
                    ) * spec_cluster_step(*input, *data),
                    step_cluster_in == spec_dir(*input) * spec_pass_cluster_spacing(
                        *input,
                        *data,
                    ),
                    step_entry == spec_dir(*input) * spec_entry_step(*input, *data),
                    spec_dir(*input) == 1 || spec_dir(*input) == -1,
            ;
            assert(((k + 1) * s) as int == (k as int) * spec_s(*data) + spec_s(*data))
                by (nonlinear_arith)
                requires
                    s == spec_s(*data),
                    0 <= k,
                    0 <= s,
            ;
        }
        cursor = cursor + step_cluster_out;
    }
    proof {
        assert((c * s) as int == spec_c(*data) * spec_s(*data)) by (nonlinear_arith)
            requires
                c == spec_c(*data),
                s == spec_s(*data),
                0 <= c,
                0 <= s,
        ;
    }
    bars
}

/// Lays out every bar of one pass: walks clusters in index order and series
/// slots in index order, placing each painted bar at the running cursor and
/// emitting its paint rectangle, hit-test rectangle, resolved color and
/// value.
#[verifier::rlimit(100)]
pub fn layout_bars(
    input: &BarLayoutInput,
    data: &BarChartData,
    overrides: &HashMap<u32, Rgb>,
) -> (r: BarLayout)
    requires
        input_wf(*input),
        data_wf(*data),
    ensures
        r.bars@.len() == spec_layout_bars(*input, *data, overrides@).len(),
        forall|i: int|
            0 <= i < r.bars@.len() ==> #[trigger] bar_view(r.bars@[i]) == spec_layout_bars(
                *input,
                *data,
                overrides@,
            )[i],
        spec_c(*data) >= 1 && spec_s(*data) >= 1 ==> r.scale == spec_pass_scale(*input, *data)
            && r.bar_width == spec_pass_bar_width(*input, *data) && r.cluster_spacing
            == spec_pass_cluster_spacing(*input, *data),
        spec_c(*data) == 0 || spec_s(*data) == 0 ==> r.scale == 1 && r.bars@.len() == 0,
        forall|i: int| 0 <= i < r.bars@.len() ==> bar_in_range(#[trigger] r.bars@[i]),
        1 <= r.scale <= 200_000_000_000_000_000,
{
    let c = data.get_biggest_amount_of_data_entries_in_one_dataset();
    let s = data.datasets.len();
    if c == 0 || s == 0 {
        proof {
            assert(spec_c(*data) * spec_s(*data) == 0) by (nonlinear_arith)
                requires
                    spec_c(*data) == 0 || spec_s(*data) == 0,
            ;
        }
        return BarLayout { scale: 1, bar_width: 0, cluster_spacing: 0, bars: Vec::new() };
    }
    proof {
        crate::data::lemma_max_len_bounded(data.datasets@);
    }
    let m = input.biggest_data_entry_abs;
    let mn = if m < 1 {
        1
    } else {
        m
    };
    let desc = orientation_descriptor(input);
    let arm = desc.indicator_axis_length;
    let data_arm: i64 = match input.data_axis {
        BarChartDataAxis::XPositive => input.axis_and_origin.x_axis_positive_length,
        BarChartDataAxis::XNegative => input.axis_and_origin.x_axis_negative_length,
        BarChartDataAxis::YPositive => input.axis_and_origin.y_axis_positive_length,
        BarChartDataAxis::YNegative => input.axis_and_origin.y_axis_negative_length,
    };
    let (bar_width, cluster_spacing) = calculate_bar_width_and_cluster_spacing(
        data_arm,
        c,
        s,
        input.min_cluster_spacing,
        input.bar_spacing,
        input.maximum_bar_width,
        mn,
    );
    let bs_eff: i64 = if s == 1 {
        0
    } else {
        input.bar_spacing
    };
    let ci: i128 = c as i128;
    let si: i128 = s as i128;
    let mni: i128 = mn as i128;
    proof {
        assert(1 <= ci * si <= 100_000_000int) by (nonlinear_arith)
            requires
                1 <= ci <= 10_000,
                1 <= si <= 10_000,
        ;
    }
    let cs_prod: i128 = ci * si;
    let two_cs: i128 = 2 * cs_prod;
    proof {
        assert(2 <= two_cs * mni <= 200_000_000_000_000_000int) by (nonlinear_arith)
            requires
                2 <= two_cs <= 200_000_000,
                1 <= mni <= 1_000_000_000,
        ;
    }
    let scale: i128 = two_cs * mni;
    proof {
        assert(scale == spec_pass_scale(*input, *data)) by (nonlinear_arith)
            requires
                scale == two_cs * mni,
                two_cs == 2 * (ci * si),
                ci == spec_c(*data),
                si == spec_s(*data),
                mni == spec_norm(*input),
        ;
    }
    proof {
        lemma_mul_abs_bound(bs_eff as int, scale as int, 4_000_000, 200_000_000_000_000_000);
    }
    let bsf: i128 = (bs_eff as i128) * scale;
    let e: i128 = bsf + bar_width;
    proof {
        lemma_mul_abs_bound(si as int, e as int, 10_000, 0x4000_0000_0000_0000_0000_0000);
    }
    let se: i128 = si * e;
    let kstep: i128 = 2 * cluster_spacing - bsf + se;
    proof {
        assert(e == spec_entry_step(*input, *data));
        assert(se == spec_s(*data) * spec_entry_step(*input, *data));
        assert(kstep == spec_cluster_step(*input, *data));
    }
    let origin = input.axis_and_origin.origin;
    let oc: i64 = if desc.along_x {
        origin.x
    } else {
        origin.y
    };
    proof {
        lemma_mul_abs_bound(oc as int, scale as int, 8_000_000, 200_000_000_000_000_000);
    }
    let ocf: i128 = (oc as i128) * scale;
    let base: i128 = if desc.offset_bar_width {
        ocf - bar_width
    } else {
        ocf
    };
    proof {
        assert(base == spec_cursor_base(*input, *data));
    }
    proof {
        lemma_mul_abs_bound(origin.x as int, scale as int, 8_000_000, 200_000_000_000_000_000);
        lemma_mul_abs_bound(origin.y as int, scale as int, 8_000_000, 200_000_000_000_000_000);
        lemma_mul_abs_bound(arm as int, scale as int, 4_000_000, 200_000_000_000_000_000);
        lemma_mul_abs_bound(
            (origin.x - arm) as int,
            scale as int,
            16_000_000,
            200_000_000_000_000_000,
        );
        lemma_mul_abs_bound(
            (origin.y - arm) as int,
            scale as int,
            16_000_000,
            200_000_000_000_000_000,
        );
    }
    let oxs: i128 = (origin.x as i128) * scale;
    let oys: i128 = (origin.y as i128) * scale;
    let armf: i128 = (arm as i128) * scale;
    let ox_minus_arm_f: i128 = ((origin.x - arm) as i128) * scale;
    let oy_minus_arm_f: i128 = ((origin.y - arm) as i128) * scale;
    let dir: i128 = desc.orientation_factor as i128;
    proof {
        assert(dir == 1 || dir == -1);
        assert(dir * cluster_spacing == cluster_spacing || dir * cluster_spacing
            == -cluster_spacing) by (nonlinear_arith)
            requires
                dir == 1 || dir == -1,
        ;
        assert(dir * e == e || dir * e == -e) by (nonlinear_arith)
            requires
                dir == 1 || dir == -1,
        ;
        assert(dir * (cluster_spacing - bsf) == cluster_spacing - bsf || dir * (cluster_spacing
            - bsf) == -(cluster_spacing - bsf)) by (nonlinear_arith)
            requires
                dir == 1 || dir == -1,
        ;
    }
    let step_cluster_in: i128 = dir * cluster_spacing;
    let step_entry: i128 = dir * e;
    let step_cluster_out: i128 = dir * (cluster_spacing - bsf);
    proof {
        assert(step_cluster_in == spec_dir(*input) * spec_pass_cluster_spacing(*input, *data)
            && step_entry == spec_dir(*input) * spec_entry_step(*input, *data) && step_cluster_in
            + step_entry * (s as int) + step_cluster_out == spec_dir(*input) * spec_cluster_step(
            *input,
            *data,
        )) by (nonlinear_arith)
            requires
                dir == spec_dir(*input),
                step_cluster_in == dir * cluster_spacing,
                step_entry == dir * e,
                step_cluster_out == dir * (cluster_spacing - bsf),
                cluster_spacing == spec_pass_cluster_spacing(*input, *data),
                e == spec_entry_step(*input, *data),
                bsf == spec_bs_eff(*input, *data) * spec_pass_scale(*input, *data),
                s == spec_s(*data),
                spec_cluster_step(*input, *data) == 2 * spec_pass_cluster_spacing(*input, *data)
                    - spec_bs_eff(*input, *data) * spec_pass_scale(*input, *data) + spec_s(*data)
                    * spec_entry_step(*input, *data),
        ;
    }
    let data_vector = create_drawable_bar_vec(data);
    let bars = run_pass(
        input,
        data,
        overrides,
        desc,
        c,
        s,
        bar_width,
        base,
        step_cluster_in,
        step_entry,
        step_cluster_out,
        oxs,
        oys,
        armf,
        ox_minus_arm_f,
        oy_minus_arm_f,
        arm,
        two_cs,
        &data_vector,
    );
    BarLayout { scale, bar_width, cluster_spacing, bars }
}

/// The length, in fine units, every hit-test rectangle spans along the
/// indicator axis: the full arm, or both arms for a `Complete` pairing.
pub open spec fn spec_hit_span(input: BarLayoutInput, data: BarChartData) -> int {
    let armf = spec_indicator_arm(input) * spec_pass_scale(input, data);
    if spec_along_x(input) {
        if input.y_axis_orientation == YAxisOrientation::Complete {
            2 * armf
        } else {
            armf
        }
    } else {
        if input.x_axis_orientation == XAxisOrientation::Complete {
            2 * armf
        } else {
            armf
        }
    }
}

/// For the largest-magnitude value of the dataset, the scaled bar length
/// equals the full indicator arm length, exactly.
pub proof fn lemma_biggest_value_spans_arm(
    input: BarLayoutInput,
    data: BarChartData,
    k: int,
    j: int,
)
    requires
        input_wf(input),
        1 <= input.biggest_data_entry_abs,
        crate::data::abs_val(spec_entry_val(data, k, j) as int) == input.biggest_data_entry_abs,
    ensures
        spec_bar_len(input, data, k, j) == spec_indicator_arm(input) * spec_pass_scale(
            input,
            data,
        ),
{
    crate::data::lemma_max_len_nonneg(data.datasets@);
    let arm = spec_indicator_arm(input);
    let v = spec_entry_val(data, k, j) as int;
    let c = spec_c(data);
    let s = spec_s(data);
    let m = spec_norm(input);
    let ls = spec_len_signed(input, data, k, j);
    let scl = spec_pass_scale(input, data);
    assert((if ls < 0 {
        -ls
    } else {
        ls
    }) == arm * scl) by (nonlinear_arith)
        requires
            ls == arm * v * (2 * c * s),
            scl == 2 * c * s * m,
            v == m || v == -m,
            0 <= arm,
            0 <= c,
            0 <= s,
            1 <= m,
    ;
}

/// Every hit-test rectangle of a pass spans the full indicator axis along
/// the bars' growth direction — independent of the underlying value's
/// scaled length — while its other dimension matches the paint rectangle
/// exactly.
pub proof fn lemma_hit_rects_span_indicator_axis(
    input: BarLayoutInput,
    data: BarChartData,
    overrides: Map<u32, Rgb>,
)
    requires
        spec_s(data) >= 1,
    ensures
        forall|i: int|
            0 <= i < spec_layout_bars(input, data, overrides).len() ==> {
                let b = #[trigger] spec_layout_bars(input, data, overrides)[i];
                &&& (spec_along_x(input) ==> b.hh == spec_hit_span(input, data) && b.hw == b.pw)
                &&& (!spec_along_x(input) ==> b.hw == spec_hit_span(input, data) && b.hh == b.ph)
            },
{
    lemma_hit_span_prefix(input, data, overrides, (spec_c(data) * spec_s(data)) as nat);
}

/// Induction for `lemma_hit_rects_span_indicator_axis`, over the walked
/// prefix of entries.
proof fn lemma_hit_span_prefix(
    input: BarLayoutInput,
    data: BarChartData,
    overrides: Map<u32, Rgb>,
    n: nat,
)
    requires
        spec_s(data) >= 1,
    ensures
        forall|i: int|
            0 <= i < spec_bars_prefix(input, data, overrides, n).len() ==> {
                let b = #[trigger] spec_bars_prefix(input, data, overrides, n)[i];
                &&& (spec_along_x(input) ==> b.hh == spec_hit_span(input, data) && b.hw == b.pw)
                &&& (!spec_along_x(input) ==> b.hw == spec_hit_span(input, data) && b.hh == b.ph)
            },
    decreases n,
{
    if n > 0 {
        lemma_hit_span_prefix(input, data, overrides, (n - 1) as nat);
        let prev = spec_bars_prefix(input, data, overrides, (n - 1) as nat);
        let k = (n - 1) as int / spec_s(data);
        let j = (n - 1) as int % spec_s(data);
        if spec_painted(input, data, k, j) {
            let b = spec_bar_at(input, data, overrides, k, j);
            let arm = spec_indicator_arm(input);
            let scl = spec_pass_scale(input, data);
            assert(2 * (arm * scl) == 2 * arm * scl) by (nonlinear_arith);
            assert(spec_bars_prefix(input, data, overrides, n) == prev.push(b));
            assert(spec_along_x(input) ==> b.hh == spec_hit_span(input, data) && b.hw == b.pw);
            assert(!spec_along_x(input) ==> b.hw == spec_hit_span(input, data) && b.hh == b.ph);
            assert(forall|i: int|
                0 <= i < prev.len() ==> prev.push(b)[i] == #[trigger] prev[i]);
        }
    }
}

} // verus!
