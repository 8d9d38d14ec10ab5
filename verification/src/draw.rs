//! Drawing instructions: the coordinate system decides *what* to paint and
//! *where*; a renderer executes the returned instruction list verbatim.
//!
//! Separator and label positions divide an arm length by a label count, so
//! instruction coordinates are exact fractions: a `Frac` holds a position
//! in quarter-pixel units as numerator over denominator.

use vstd::prelude::*;

use crate::axis::{XAxisOrientation, YAxisOrientation};
use crate::color::Rgb;
use crate::coord::{
    axis_in_range, config_wf, spec_marking_value, AxisAndOrigin, CoordinateSystem, DIM_LIMIT,
};
use crate::num::spec_centi_label;

verus! {

/// An exact coordinate in quarter-pixel units: the value `num / den`.
#[derive(Debug, Clone, Copy, PartialEq, Eq, Structural)]
pub struct Frac {
    pub num: i128,
    pub den: i128,
}

/// One instruction for the renderer, in drawing order. Coordinates are
/// `Frac`s in quarter-pixel units; stroke widths and text sizes are in
/// pixels.
#[derive(Debug, Clone)]
pub enum DrawInstruction {
    Line { start_x: Frac, start_y: Frac, end_x: Frac, end_y: Frac, color: Rgb, width: i64 },
    FilledRectangle { x: Frac, y: Frac, width: Frac, height: Frac, color: Rgb },
    Text { content: String, x: Frac, y: Frac, color: Rgb, size: i64 },
}

/// A drawing instruction with its text as a character sequence, for
/// stating contracts.
pub enum InstrModel {
    Line { start_x: Frac, start_y: Frac, end_x: Frac, end_y: Frac, color: Rgb, width: i64 },
    FilledRectangle { x: Frac, y: Frac, width: Frac, height: Frac, color: Rgb },
    Text { content: Seq<char>, x: Frac, y: Frac, color: Rgb, size: i64 },
}

/// The mathematical content of a drawing instruction.
pub open spec fn instr_view(i: DrawInstruction) -> InstrModel {
    match i {
        DrawInstruction::Line { start_x, start_y, end_x, end_y, color, width } => {
            InstrModel::Line { start_x, start_y, end_x, end_y, color, width }
        },
        DrawInstruction::FilledRectangle { x, y, width, height, color } => {
            InstrModel::FilledRectangle { x, y, width, height, color }
        },
        DrawInstruction::Text { content, x, y, color, size } => {
            InstrModel::Text { content: content@, x, y, color, size }
        },
    }
}

/// A whole coordinate as a fraction over one.
pub open spec fn spec_whole(n: int) -> Frac {
    Frac { num: n as i128, den: 1 }
}

/// The four axis lines from the origin to each arm's end, and the origin
/// marker square of side equal to the axis stroke width.
pub open spec fn spec_axis_instrs(cs: CoordinateSystem, a: AxisAndOrigin) -> Seq<InstrModel> {
    let c = cs.coordinate_system_config;
    let o = a.origin;
    let w = c.axis_stroke_width as int;
    seq![
        InstrModel::Line {
            start_x: spec_whole(o.x as int),
            start_y: spec_whole(o.y as int),
            end_x: spec_whole(o.x + a.x_axis_positive_length),
            end_y: spec_whole(o.y as int),
            color: c.axis_stroke_color,
            width: c.axis_stroke_width,
        },
        InstrModel::Line {
            start_x: spec_whole(o.x as int),
            start_y: spec_whole(o.y as int),
            end_x: spec_whole(o.x - a.x_axis_negative_length),
            end_y: spec_whole(o.y as int),
            color: c.axis_stroke_color,
            width: c.axis_stroke_width,
        },
        InstrModel::Line {
            start_x: spec_whole(o.x as int),
            start_y: spec_whole(o.y as int),
            end_x: spec_whole(o.x as int),
            end_y: spec_whole(o.y - a.y_axis_positive_length),
            color: c.axis_stroke_color,
            width: c.axis_stroke_width,
        },
        InstrModel::Line {
            start_x: spec_whole(o.x as int),
            start_y: spec_whole(o.y as int),
            end_x: spec_whole(o.x as int),
            end_y: spec_whole(o.y + a.y_axis_negative_length),
            color: c.axis_stroke_color,
            width: c.axis_stroke_width,
        },
        InstrModel::FilledRectangle {
            x: spec_whole(o.x - 2 * w),
            y: spec_whole(o.y - 2 * w),
            width: spec_whole(4 * w),
            height: spec_whole(4 * w),
            color: c.axis_stroke_color,
        },
    ]
}

/// The headline text instruction, centered at the top of the frame; none
/// when no headline is set.
pub open spec fn spec_headline_instrs(cs: CoordinateSystem, frame_width: int) -> Seq<InstrModel> {
    let c = cs.coordinate_system_config;
    match c.headline {
        Some(h) => seq![
            InstrModel::Text {
                content: h@,
                x: spec_whole(2 * frame_width - 60),
                y: spec_whole(0),
                color: c.headline_color,
                size: c.headline_size,
            },
        ],
        None => Seq::empty(),
    }
}

impl CoordinateSystem {
    /// Emits the axis lines and the origin marker.
    pub fn draw_axis(&self, axis_and_origin: &AxisAndOrigin) -> (r: Vec<DrawInstruction>)
        requires
            axis_in_range(*axis_and_origin),
            config_wf(self.coordinate_system_config),
        ensures
            r@.len() == spec_axis_instrs(*self, *axis_and_origin).len(),
            forall|i: int|
                0 <= i < r@.len() ==> instr_view(#[trigger] r@[i]) == spec_axis_instrs(
                    *self,
                    *axis_and_origin,
                )[i],
    {
        let c = &self.coordinate_system_config;
        let o = axis_and_origin.origin;
        let w = c.axis_stroke_width;
        let color = c.axis_stroke_color;
        let mut r: Vec<DrawInstruction> = Vec::new();
        r.push(
            DrawInstruction::Line {
                start_x: Frac { num: o.x as i128, den: 1 },
                start_y: Frac { num: o.y as i128, den: 1 },
                end_x: Frac {
                    num: o.x as i128 + axis_and_origin.x_axis_positive_length as i128,
                    den: 1,
                },
                end_y: Frac { num: o.y as i128, den: 1 },
                color,
                width: w,
            },
        );
        r.push(
            DrawInstruction::Line {
                start_x: Frac { num: o.x as i128, den: 1 },
                start_y: Frac { num: o.y as i128, den: 1 },
                end_x: Frac {
                    num: o.x as i128 - axis_and_origin.x_axis_negative_length as i128,
                    den: 1,
                },
                end_y: Frac { num: o.y as i128, den: 1 },
                color,
                width: w,
            },
        );
        r.push(
            DrawInstruction::Line {
                start_x: Frac { num: o.x as i128, den: 1 },
                start_y: Frac { num: o.y as i128, den: 1 },
                end_x: Frac { num: o.x as i128, den: 1 },
                end_y: Frac {
                    num: o.y as i128 - axis_and_origin.y_axis_positive_length as i128,
                    den: 1,
                },
                color,
                width: w,
            },
        );
        r.push(
            DrawInstruction::Line {
                start_x: Frac { num: o.x as i128, den: 1 },
                start_y: Frac { num: o.y as i128, den: 1 },
                end_x: Frac { num: o.x as i128, den: 1 },
                end_y: Frac {
                    num: o.y as i128 + axis_and_origin.y_axis_negative_length as i128,
                    den: 1,
                },
                color,
                width: w,
            },
        );
        r.push(
            DrawInstruction::FilledRectangle {
                x: Frac { num: o.x as i128 - 2 * w as i128, den: 1 },
                y: Frac { num: o.y as i128 - 2 * w as i128, den: 1 },
                width: Frac { num: 4 * w as i128, den: 1 },
                height: Frac { num: 4 * w as i128, den: 1 },
                color,
            },
        );
        r
    }

    /// Emits the headline, centered at the top of a frame of the given
    /// width in pixels.
    pub fn draw_headline(&self, frame_width: i64) -> (r: Vec<DrawInstruction>)
        requires
            0 <= frame_width <= DIM_LIMIT,
        ensures
            r@.len() == spec_headline_instrs(*self, frame_width as int).len(),
            forall|i: int|
                0 <= i < r@.len() ==> instr_view(#[trigger] r@[i]) == spec_headline_instrs(
                    *self,
                    frame_width as int,
                )[i],
    {
        let c = &self.coordinate_system_config;
        let mut r: Vec<DrawInstruction> = Vec::new();
        if let Some(headline_text) = &c.headline {
            r.push(
                DrawInstruction::Text {
                    content: headline_text.clone(),
                    x: Frac { num: 2 * frame_width as i128 - 60, den: 1 },
                    y: Frac { num: 0, den: 1 },
                    color: c.headline_color,
                    size: c.headline_size,
                },
            );
        }
        r
    }
}

/// Bounds the magnitude of a product from bounds on its factors.
proof fn mul_bound(a: int, b: int, ab: int, bb: int)
    requires
        -ab <= a <= ab,
        0 <= ab,
        -bb <= b <= bb,
        0 <= bb,
    ensures
        -(ab * bb) <= a * b <= ab * bb,
{
    assert(-(ab * bb) <= a * b <= ab * bb) by (nonlinear_arith)
        requires
            -ab <= a <= ab,
            0 <= ab,
            -bb <= b <= bb,
            0 <= bb,
    ;
}

/// A separator line through the given x coordinate, parallel to the y
/// axis, spanning the arm(s) the y orientation draws.
pub open spec fn spec_sep_parallel_y(cs: CoordinateSystem, a: AxisAndOrigin, x: Frac) -> InstrModel {
    let c = cs.coordinate_system_config;
    let oy = a.origin.y as int;
    let (sy, ey) = match cs.y_axis_orientation {
        YAxisOrientation::Positive => (
            spec_whole(oy),
            spec_whole(oy - a.y_axis_positive_length),
        ),
        YAxisOrientation::Negative => (
            spec_whole(oy),
            spec_whole(oy + a.y_axis_negative_length),
        ),
        YAxisOrientation::Complete => (
            spec_whole(oy - a.y_axis_positive_length),
            spec_whole(oy + a.y_axis_positive_length),
        ),
    };
    InstrModel::Line {
        start_x: x,
        start_y: sy,
        end_x: x,
        end_y: ey,
        color: c.separator_stroke_color,
        width: c.separator_stroke_width,
    }
}

/// A separator line through the given y coordinate, parallel to the x
/// axis, spanning the arm(s) the x orientation draws.
pub open spec fn spec_sep_parallel_x(cs: CoordinateSystem, a: AxisAndOrigin, y: Frac) -> InstrModel {
    let c = cs.coordinate_system_config;
    let ox = a.origin.x as int;
    let (sx, ex) = match cs.x_axis_orientation {
        XAxisOrientation::Positive => (
            spec_whole(ox),
            spec_whole(ox + a.x_axis_positive_length),
        ),
        XAxisOrientation::Negative => (
            spec_whole(ox),
            spec_whole(ox - a.x_axis_negative_length),
        ),
        XAxisOrientation::Complete => (
            spec_whole(ox - a.x_axis_negative_length),
            spec_whole(ox + a.x_axis_positive_length),
        ),
    };
    InstrModel::Line {
        start_x: sx,
        start_y: y,
        end_x: ex,
        end_y: y,
        color: c.separator_stroke_color,
        width: c.separator_stroke_width,
    }
}

/// The marking labels along an x arm: one centered text and one separator
/// per marking, stepping `span / (n - 1)` from the origin in direction
/// `dir`; one or fewer labels draw nothing. When the y axis grows
/// downward the texts move up by the text height.
pub open spec fn spec_marking_instrs_along_x(
    cs: CoordinateSystem,
    a: AxisAndOrigin,
    span: int,
    dir: int,
    n: int,
    contents: spec_fn(int) -> Seq<char>,
) -> Seq<InstrModel> {
    let c = cs.coordinate_system_config;
    let d = n - 1;
    let oy = a.origin.y as int;
    let text_y = oy + (if cs.y_axis_orientation == YAxisOrientation::Negative {
        -80int
    } else {
        0int
    });
    if n <= 1 {
        Seq::empty()
    } else {
        Seq::new(
            (2 * n) as nat,
            |i: int|
                {
                    let k = i / 2;
                    let tick = Frac {
                        num: (d * (a.origin.x as int) + dir * k * span) as i128,
                        den: d as i128,
                    };
                    if i % 2 == 0 {
                        InstrModel::Text {
                            content: contents(k),
                            x: Frac {
                                num: (d * (a.origin.x - 60) + dir * k * span) as i128,
                                den: d as i128,
                            },
                            y: spec_whole(text_y),
                            color: c.x_text_color,
                            size: c.x_text_size,
                        }
                    } else {
                        spec_sep_parallel_y(cs, a, tick)
                    }
                },
        )
    }
}

/// The marking labels along a y arm: one text and one separator per
/// marking, stepping `span / (n - 1)` from the origin in direction `dir`
/// (negative steps move up). When the x axis grows rightward the texts
/// move left by the text width.
pub open spec fn spec_marking_instrs_along_y(
    cs: CoordinateSystem,
    a: AxisAndOrigin,
    span: int,
    dir: int,
    n: int,
    contents: spec_fn(int) -> Seq<char>,
) -> Seq<InstrModel> {
    let c = cs.coordinate_system_config;
    let d = n - 1;
    let text_x = (a.origin.x as int) + (if cs.x_axis_orientation == XAxisOrientation::Positive {
        -120int
    } else {
        0int
    });
    if n <= 1 {
        Seq::empty()
    } else {
        Seq::new(
            (2 * n) as nat,
            |i: int|
                {
                    let k = i / 2;
                    let tick = Frac {
                        num: (d * (a.origin.y as int) + dir * k * span) as i128,
                        den: d as i128,
                    };
                    if i % 2 == 0 {
                        InstrModel::Text {
                            content: contents(k),
                            x: spec_whole(text_x),
                            y: Frac {
                                num: (d * (a.origin.y - 40) + dir * k * span) as i128,
                                den: d as i128,
                            },
                            color: c.y_text_color,
                            size: c.y_text_size,
                        }
                    } else {
                        spec_sep_parallel_x(cs, a, tick)
                    }
                },
        )
    }
}

impl CoordinateSystem {
    /// Emits one marking-label text and one separator per text along the
    /// given x arm (`dir` selects the positive or negative arm).
    #[verifier::loop_isolation(false)]
    fn draw_x_axis_marking_labels_directed(
        &self,
        markings_texts: Vec<String>,
        axis_and_origin: &AxisAndOrigin,
        span: i64,
        dir: i64,
    ) -> (r: Vec<DrawInstruction>)
        requires
            axis_in_range(*axis_and_origin),
            config_wf(self.coordinate_system_config),
            0 <= span <= 8 * DIM_LIMIT,
            dir == 1 || dir == -1,
            markings_texts@.len() <= 65536,
        ensures
            r@.len() == spec_marking_instrs_along_x(
                *self,
                *axis_and_origin,
                span as int,
                dir as int,
                markings_texts@.len() as int,
                |k: int| markings_texts@[k]@,
            ).len(),
            forall|i: int|
                0 <= i < r@.len() ==> instr_view(#[trigger] r@[i]) == spec_marking_instrs_along_x(
                    *self,
                    *axis_and_origin,
                    span as int,
                    dir as int,
                    markings_texts@.len() as int,
                    |k: int| markings_texts@[k]@,
                )[i],
    {
        let n = markings_texts.len();
        let mut r: Vec<DrawInstruction> = Vec::new();
        if n <= 1 {
            return r;
        }
        let d = (n - 1) as i128;
        let o = axis_and_origin.origin;
        let text_y: i64 = if matches!(self.y_axis_orientation, YAxisOrientation::Negative) {
            o.y - 80
        } else {
            o.y
        };
        let ghost target = spec_marking_instrs_along_x(
            *self,
            *axis_and_origin,
            span as int,
            dir as int,
            markings_texts@.len() as int,
            |k: int| markings_texts@[k]@,
        );
        for k in 0..n
            invariant
                r@.len() == 2 * k,
                forall|i: int| 0 <= i < r@.len() ==> instr_view(#[trigger] r@[i]) == target[i],
        {
            proof {
                mul_bound(d as int, (o.x - 60) as int, 65536, 16_000_000);
                mul_bound(d as int, o.x as int, 65536, 16_000_000);
                mul_bound(dir as int, k as int, 1, 65536);
                mul_bound((dir as int) * (k as int), span as int, 65536, 8_000_000);
                vstd::arithmetic::div_mod::lemma_fundamental_div_mod_converse(
                    2 * (k as int),
                    2,
                    k as int,
                    0,
                );
                vstd::arithmetic::div_mod::lemma_fundamental_div_mod_converse(
                    2 * (k as int) + 1,
                    2,
                    k as int,
                    1,
                );
            }
            let step_off: i128 = (dir as i128) * (k as i128) * (span as i128);
            let text = DrawInstruction::Text {
                content: markings_texts[k].clone(),
                x: Frac { num: d * (o.x as i128 - 60) + step_off, den: d },
                y: Frac { num: text_y as i128, den: 1 },
                color: self.coordinate_system_config.x_text_color,
                size: self.coordinate_system_config.x_text_size,
            };
            r.push(text);
            let tick = Frac { num: d * (o.x as i128) + step_off, den: d };
            let sep = self.separator_parallel_to_y_at(tick, axis_and_origin);
            r.push(sep);
        }
        r
    }

    /// Builds the separator-line instruction through the given x
    /// coordinate, parallel to the y axis.
    fn separator_parallel_to_y_at(&self, x: Frac, axis_and_origin: &AxisAndOrigin) -> (r:
        DrawInstruction)
        requires
            axis_in_range(*axis_and_origin),
        ensures
            instr_view(r) == spec_sep_parallel_y(*self, *axis_and_origin, x),
    {
        let c = &self.coordinate_system_config;
        let o = axis_and_origin.origin;
        let (sy, ey): (i64, i64) = match self.y_axis_orientation {
            YAxisOrientation::Positive => (o.y, o.y - axis_and_origin.y_axis_positive_length),
            YAxisOrientation::Negative => (o.y, o.y + axis_and_origin.y_axis_negative_length),
            YAxisOrientation::Complete => (
                o.y - axis_and_origin.y_axis_positive_length,
                o.y + axis_and_origin.y_axis_positive_length,
            ),
        };
        DrawInstruction::Line {
            start_x: x,
            start_y: Frac { num: sy as i128, den: 1 },
            end_x: x,
            end_y: Frac { num: ey as i128, den: 1 },
            color: c.separator_stroke_color,
            width: c.separator_stroke_width,
        }
    }

    /// Builds the separator-line instruction through the given y
    /// coordinate, parallel to the x axis.
    fn separator_parallel_to_x_at(&self, y: Frac, axis_and_origin: &AxisAndOrigin) -> (r:
        DrawInstruction)
        requires
            axis_in_range(*axis_and_origin),
        ensures
            instr_view(r) == spec_sep_parallel_x(*self, *axis_and_origin, y),
    {
        let c = &self.coordinate_system_config;
        let o = axis_and_origin.origin;
        let (sx, ex): (i64, i64) = match self.x_axis_orientation {
            XAxisOrientation::Positive => (o.x, o.x + axis_and_origin.x_axis_positive_length),
            XAxisOrientation::Negative => (o.x, o.x - axis_and_origin.x_axis_negative_length),
            XAxisOrientation::Complete => (
                o.x - axis_and_origin.x_axis_negative_length,
                o.x + axis_and_origin.x_axis_positive_length,
            ),
        };
        DrawInstruction::Line {
            start_x: Frac { num: sx as i128, den: 1 },
            start_y: y,
            end_x: Frac { num: ex as i128, den: 1 },
            end_y: y,
            color: c.separator_stroke_color,
            width: c.separator_stroke_width,
        }
    }

    /// Emits one marking-label text and one separator per text along the
    /// given y arm (`dir` is negative for the upward arm).
    #[verifier::loop_isolation(false)]
    fn draw_y_axis_marking_labels_directed(
        &self,
        markings_texts: Vec<String>,
        axis_and_origin: &AxisAndOrigin,
        span: i64,
        dir: i64,
    ) -> (r: Vec<DrawInstruction>)
        requires
            axis_in_range(*axis_and_origin),
            config_wf(self.coordinate_system_config),
            0 <= span <= 8 * DIM_LIMIT,
            dir == 1 || dir == -1,
            markings_texts@.len() <= 65536,
        ensures
            r@.len() == spec_marking_instrs_along_y(
                *self,
                *axis_and_origin,
                span as int,
                dir as int,
                markings_texts@.len() as int,
                |k: int| markings_texts@[k]@,
            ).len(),
            forall|i: int|
                0 <= i < r@.len() ==> instr_view(#[trigger] r@[i]) == spec_marking_instrs_along_y(
                    *self,
                    *axis_and_origin,
                    span as int,
                    dir as int,
                    markings_texts@.len() as int,
                    |k: int| markings_texts@[k]@,
                )[i],
    {
        let n = markings_texts.len();
        let mut r: Vec<DrawInstruction> = Vec::new();
        if n <= 1 {
            return r;
        }
        let d = (n - 1) as i128;
        let o = axis_and_origin.origin;
        let text_x: i64 = if matches!(self.x_axis_orientation, XAxisOrientation::Positive) {
            o.x - 120
        } else {
            o.x
        };
        let ghost target = spec_marking_instrs_along_y(
            *self,
            *axis_and_origin,
            span as int,
            dir as int,
            markings_texts@.len() as int,
            |k: int| markings_texts@[k]@,
        );
        for k in 0..n
            invariant
                r@.len() == 2 * k,
                forall|i: int| 0 <= i < r@.len() ==> instr_view(#[trigger] r@[i]) == target[i],
        {
            proof {
                mul_bound(d as int, (o.y - 40) as int, 65536, 16_000_000);
                mul_bound(d as int, o.y as int, 65536, 16_000_000);
                mul_bound(dir as int, k as int, 1, 65536);
                mul_bound((dir as int) * (k as int), span as int, 65536, 8_000_000);
                vstd::arithmetic::div_mod::lemma_fundamental_div_mod_converse(
                    2 * (k as int),
                    2,
                    k as int,
                    0,
                );
                vstd::arithmetic::div_mod::lemma_fundamental_div_mod_converse(
                    2 * (k as int) + 1,
                    2,
                    k as int,
                    1,
                );
            }
            let step_off: i128 = (dir as i128) * (k as i128) * (span as i128);
            let text = DrawInstruction::Text {
                content: markings_texts[k].clone(),
                x: Frac { num: text_x as i128, den: 1 },
                y: Frac { num: d * (o.y as i128 - 40) + step_off, den: d },
                color: self.coordinate_system_config.y_text_color,
                size: self.coordinate_system_config.y_text_size,
            };
            r.push(text);
            let tick = Frac { num: d * (o.y as i128) + step_off, den: d };
            let sep = self.separator_parallel_to_x_at(tick, axis_and_origin);
            r.push(sep);
        }
        r
    }

    /// Emits the marking labels along the positive x arm.
    pub fn draw_x_axis_positive_marking_labels(
        &self,
        markings_texts: Vec<String>,
        axis_and_origin: &AxisAndOrigin,
    ) -> (r: Vec<DrawInstruction>)
        requires
            axis_in_range(*axis_and_origin),
            config_wf(self.coordinate_system_config),
            markings_texts@.len() <= 65536,
        ensures
            r@.len() == spec_marking_instrs_along_x(
                *self,
                *axis_and_origin,
                axis_and_origin.x_axis_positive_length as int,
                1,
                markings_texts@.len() as int,
                |k: int| markings_texts@[k]@,
            ).len(),
            forall|i: int|
                0 <= i < r@.len() ==> instr_view(#[trigger] r@[i]) == spec_marking_instrs_along_x(
                    *self,
                    *axis_and_origin,
                    axis_and_origin.x_axis_positive_length as int,
                    1,
                    markings_texts@.len() as int,
                    |k: int| markings_texts@[k]@,
                )[i],
    {
        self.draw_x_axis_marking_labels_directed(
            markings_texts,
            axis_and_origin,
            axis_and_origin.x_axis_positive_length,
            1,
        )
    }

    /// Emits the marking labels along the negative x arm.
    pub fn draw_x_axis_negative_marking_labels(
        &self,
        markings_texts: Vec<String>,
        axis_and_origin: &AxisAndOrigin,
    ) -> (r: Vec<DrawInstruction>)
        requires
            axis_in_range(*axis_and_origin),
            config_wf(self.coordinate_system_config),
            markings_texts@.len() <= 65536,
        ensures
            r@.len() == spec_marking_instrs_along_x(
                *self,
                *axis_and_origin,
                axis_and_origin.x_axis_negative_length as int,
                -1,
                markings_texts@.len() as int,
                |k: int| markings_texts@[k]@,
            ).len(),
            forall|i: int|
                0 <= i < r@.len() ==> instr_view(#[trigger] r@[i]) == spec_marking_instrs_along_x(
                    *self,
                    *axis_and_origin,
                    axis_and_origin.x_axis_negative_length as int,
                    -1,
                    markings_texts@.len() as int,
                    |k: int| markings_texts@[k]@,
                )[i],
    {
        self.draw_x_axis_marking_labels_directed(
            markings_texts,
            axis_and_origin,
            axis_and_origin.x_axis_negative_length,
            -1,
        )
    }

    /// Emits the marking labels along the positive y arm.
    pub fn draw_y_axis_positive_marking_labels(
        &self,
        markings_texts: Vec<String>,
        axis_and_origin: &AxisAndOrigin,
    ) -> (r: Vec<DrawInstruction>)
        requires
            axis_in_range(*axis_and_origin),
            config_wf(self.coordinate_system_config),
            markings_texts@.len() <= 65536,
        ensures
            r@.len() == spec_marking_instrs_along_y(
                *self,
                *axis_and_origin,
                axis_and_origin.y_axis_positive_length as int,
                -1,
                markings_texts@.len() as int,
                |k: int| markings_texts@[k]@,
            ).len(),
            forall|i: int|
                0 <= i < r@.len() ==> instr_view(#[trigger] r@[i]) == spec_marking_instrs_along_y(
                    *self,
                    *axis_and_origin,
                    axis_and_origin.y_axis_positive_length as int,
                    -1,
                    markings_texts@.len() as int,
                    |k: int| markings_texts@[k]@,
                )[i],
    {
        self.draw_y_axis_marking_labels_directed(
            markings_texts,
            axis_and_origin,
            axis_and_origin.y_axis_positive_length,
            -1,
        )
    }

    /// Emits the marking labels along the negative y arm.
    pub fn draw_y_axis_negative_marking_labels(
        &self,
        markings_texts: Vec<String>,
        axis_and_origin: &AxisAndOrigin,
    ) -> (r: Vec<DrawInstruction>)
        requires
            axis_in_range(*axis_and_origin),
            config_wf(self.coordinate_system_config),
            markings_texts@.len() <= 65536,
        ensures
            r@.len() == spec_marking_instrs_along_y(
                *self,
                *axis_and_origin,
                axis_and_origin.y_axis_negative_length as int,
                1,
                markings_texts@.len() as int,
                |k: int| markings_texts@[k]@,
            ).len(),
            forall|i: int|
                0 <= i < r@.len() ==> instr_view(#[trigger] r@[i]) == spec_marking_instrs_along_y(
                    *self,
                    *axis_and_origin,
                    axis_and_origin.y_axis_negative_length as int,
                    1,
                    markings_texts@.len() as int,
                    |k: int| markings_texts@[k]@,
                )[i],
    {
        self.draw_y_axis_marking_labels_directed(
            markings_texts,
            axis_and_origin,
            axis_and_origin.y_axis_negative_length,
            1,
        )
    }
}

/// The cluster labels along the x axis: one centered text and one
/// separator per cluster, stepping the drawn x span divided by the cluster
/// count, and one trailing separator closing the last cluster. Nothing is
/// emitted while cluster labels are off.
pub open spec fn spec_x_cluster_instrs(cs: CoordinateSystem, a: AxisAndOrigin) -> Seq<
    InstrModel,
> {
    let c = cs.coordinate_system_config;
    if c.draw_cluster_label_on_x_axis is Some && c.x_text is Some {
        let texts = c.x_text->Some_0;
        let n = texts@.len() as int;
        let d: int = if n == 0 {
            1
        } else {
            n
        };
        let start_x: int = match cs.x_axis_orientation {
            XAxisOrientation::Positive => a.origin.x as int,
            XAxisOrientation::Negative => a.origin.x - a.x_axis_negative_length,
            XAxisOrientation::Complete => a.origin.x - a.x_axis_negative_length,
        };
        let span: int = match cs.x_axis_orientation {
            XAxisOrientation::Positive => a.x_axis_positive_length as int,
            XAxisOrientation::Negative => a.x_axis_negative_length as int,
            XAxisOrientation::Complete => a.x_axis_positive_length
                + a.x_axis_negative_length,
        };
        let text_y: int = a.origin.y + (match cs.y_axis_orientation {
            YAxisOrientation::Negative => if n == 0 {
                0int
            } else {
                -80int
            },
            YAxisOrientation::Complete => a.y_axis_negative_length as int,
            YAxisOrientation::Positive => 0int,
        });
        Seq::new(
            (2 * n + 1) as nat,
            |i: int|
                {
                    let k = i / 2;
                    let tick = Frac { num: (d * start_x + k * span) as i128, den: d as i128 };
                    if i % 2 == 1 || i == 2 * n {
                        spec_sep_parallel_y(cs, a, tick)
                    } else {
                        InstrModel::Text {
                            content: texts@[k]@,
                            x: Frac {
                                num: (2 * d * (start_x - 60) + (2 * k + 1) * span) as i128,
                                den: (2 * d) as i128,
                            },
                            y: spec_whole(text_y),
                            color: c.x_text_color,
                            size: c.x_text_size,
                        }
                    }
                },
        )
    } else {
        Seq::empty()
    }
}

/// The cluster labels along the y axis, walking upward from the lower end
/// of the drawn y span.
pub open spec fn spec_y_cluster_instrs(cs: CoordinateSystem, a: AxisAndOrigin) -> Seq<
    InstrModel,
> {
    let c = cs.coordinate_system_config;
    if c.draw_cluster_label_on_y_axis is Some && c.y_text is Some {
        let texts = c.y_text->Some_0;
        let n = texts@.len() as int;
        let d: int = if n == 0 {
            1
        } else {
            n
        };
        let start_y: int = match cs.y_axis_orientation {
            YAxisOrientation::Positive => a.origin.y as int,
            YAxisOrientation::Negative => a.origin.y + a.y_axis_negative_length,
            YAxisOrientation::Complete => a.origin.y + a.y_axis_negative_length,
        };
        let span: int = match cs.y_axis_orientation {
            YAxisOrientation::Positive => a.y_axis_positive_length as int,
            YAxisOrientation::Negative => a.y_axis_negative_length as int,
            YAxisOrientation::Complete => a.y_axis_positive_length
                + a.y_axis_negative_length,
        };
        let text_x: int = a.origin.x + (match cs.x_axis_orientation {
            XAxisOrientation::Positive => if n == 0 {
                0int
            } else {
                -120int
            },
            XAxisOrientation::Complete => (if n == 0 {
                0int
            } else {
                -120int
            }) - a.x_axis_negative_length,
            XAxisOrientation::Negative => 0int,
        });
        Seq::new(
            (2 * n + 1) as nat,
            |i: int|
                {
                    let k = i / 2;
                    let tick = Frac { num: (d * start_y - k * span) as i128, den: d as i128 };
                    if i % 2 == 1 || i == 2 * n {
                        spec_sep_parallel_x(cs, a, tick)
                    } else {
                        InstrModel::Text {
                            content: texts@[k]@,
                            x: spec_whole(text_x),
                            y: Frac {
                                num: (2 * d * (start_y - 40) - (2 * k + 1) * span) as i128,
                                den: (2 * d) as i128,
                            },
                            color: c.y_text_color,
                            size: c.y_text_size,
                        }
                    }
                },
        )
    } else {
        Seq::empty()
    }
}

impl CoordinateSystem {
    /// Emits the cluster labels along the x axis.
    #[verifier::loop_isolation(false)]
    pub fn draw_x_cluster_labels(&self, axis_and_origin: &AxisAndOrigin) -> (r: Vec<
        DrawInstruction,
    >)
        requires
            axis_in_range(*axis_and_origin),
            config_wf(self.coordinate_system_config),
        ensures
            r@.len() == spec_x_cluster_instrs(*self, *axis_and_origin).len(),
            forall|i: int|
                0 <= i < r@.len() ==> instr_view(#[trigger] r@[i]) == spec_x_cluster_instrs(
                    *self,
                    *axis_and_origin,
                )[i],
    {
        let c = &self.coordinate_system_config;
        let mut r: Vec<DrawInstruction> = Vec::new();
        if c.draw_cluster_label_on_x_axis.is_none() || c.x_text.is_none() {
            return r;
        }
        let texts = c.x_text.as_ref().unwrap();
        let n = texts.len();
        let d: i128 = if n == 0 {
            1
        } else {
            n as i128
        };
        let a = axis_and_origin;
        let o = a.origin;
        let start_x: i64 = match self.x_axis_orientation {
            XAxisOrientation::Positive => o.x,
            XAxisOrientation::Negative => o.x - a.x_axis_negative_length,
            XAxisOrientation::Complete => o.x - a.x_axis_negative_length,
        };
        let span: i64 = match self.x_axis_orientation {
            XAxisOrientation::Positive => a.x_axis_positive_length,
            XAxisOrientation::Negative => a.x_axis_negative_length,
            XAxisOrientation::Complete => a.x_axis_positive_length + a.x_axis_negative_length,
        };
        let text_y: i64 = match self.y_axis_orientation {
            YAxisOrientation::Negative => if n == 0 {
                o.y
            } else {
                o.y - 80
            },
            YAxisOrientation::Complete => o.y + a.y_axis_negative_length,
            YAxisOrientation::Positive => o.y,
        };
        let ghost target = spec_x_cluster_instrs(*self, *axis_and_origin);
        for k in 0..n
            invariant
                r@.len() == 2 * k,
                forall|i: int| 0 <= i < r@.len() ==> instr_view(#[trigger] r@[i]) == target[i],
        {
            proof {
                mul_bound(2 * d as int, (start_x - 60) as int, 131072, 16_000_000);
                mul_bound(2 * (k as int) + 1, span as int, 131073, 16_000_000);
                mul_bound(d as int, start_x as int, 65536, 16_000_000);
                mul_bound(k as int, span as int, 65536, 16_000_000);
                vstd::arithmetic::div_mod::lemma_fundamental_div_mod_converse(
                    2 * (k as int),
                    2,
                    k as int,
                    0,
                );
                vstd::arithmetic::div_mod::lemma_fundamental_div_mod_converse(
                    2 * (k as int) + 1,
                    2,
                    k as int,
                    1,
                );
            }
            let text = DrawInstruction::Text {
                content: texts[k].clone(),
                x: Frac {
                    num: 2 * d * (start_x as i128 - 60) + (2 * k as i128 + 1) * span as i128,
                    den: 2 * d,
                },
                y: Frac { num: text_y as i128, den: 1 },
                color: c.x_text_color,
                size: c.x_text_size,
            };
            r.push(text);
            let tick = Frac { num: d * start_x as i128 + (k as i128) * span as i128, den: d };
            let sep = self.separator_parallel_to_y_at(tick, axis_and_origin);
            r.push(sep);
        }
        proof {
            mul_bound(d as int, start_x as int, 65536, 16_000_000);
            mul_bound(n as int, span as int, 65536, 16_000_000);
            vstd::arithmetic::div_mod::lemma_fundamental_div_mod_converse(
                2 * (n as int),
                2,
                n as int,
                0,
            );
        }
        let tick = Frac { num: d * start_x as i128 + (n as i128) * span as i128, den: d };
        let sep = self.separator_parallel_to_y_at(tick, axis_and_origin);
        r.push(sep);
        r
    }

    /// Emits the cluster labels along the y axis.
    #[verifier::loop_isolation(false)]
    pub fn draw_y_cluster_labels(&self, axis_and_origin: &AxisAndOrigin) -> (r: Vec<
        DrawInstruction,
    >)
        requires
            axis_in_range(*axis_and_origin),
            config_wf(self.coordinate_system_config),
        ensures
            r@.len() == spec_y_cluster_instrs(*self, *axis_and_origin).len(),
            forall|i: int|
                0 <= i < r@.len() ==> instr_view(#[trigger] r@[i]) == spec_y_cluster_instrs(
                    *self,
                    *axis_and_origin,
                )[i],
    {
        let c = &self.coordinate_system_config;
        let mut r: Vec<DrawInstruction> = Vec::new();
        if c.draw_cluster_label_on_y_axis.is_none() || c.y_text.is_none() {
            return r;
        }
        let texts = c.y_text.as_ref().unwrap();
        let n = texts.len();
        let d: i128 = if n == 0 {
            1
        } else {
            n as i128
        };
        let a = axis_and_origin;
        let o = a.origin;
        let start_y: i64 = match self.y_axis_orientation {
            YAxisOrientation::Positive => o.y,
            YAxisOrientation::Negative => o.y + a.y_axis_negative_length,
            YAxisOrientation::Complete => o.y + a.y_axis_negative_length,
        };
        let span: i64 = match self.y_axis_orientation {
            YAxisOrientation::Positive => a.y_axis_positive_length,
            YAxisOrientation::Negative => a.y_axis_negative_length,
            YAxisOrientation::Complete => a.y_axis_positive_length + a.y_axis_negative_length,
        };
        let text_x: i64 = match self.x_axis_orientation {
            XAxisOrientation::Positive => if n == 0 {
                o.x
            } else {
                o.x - 120
            },
            XAxisOrientation::Complete => (if n == 0 {
                o.x
            } else {
                o.x - 120
            }) - a.x_axis_negative_length,
            XAxisOrientation::Negative => o.x,
        };
        let ghost target = spec_y_cluster_instrs(*self, *axis_and_origin);
        for k in 0..n
            invariant
                r@.len() == 2 * k,
                forall|i: int| 0 <= i < r@.len() ==> instr_view(#[trigger] r@[i]) == target[i],
        {
            proof {
                mul_bound(2 * d as int, (start_y - 40) as int, 131072, 16_000_000);
                mul_bound(2 * (k as int) + 1, span as int, 131073, 16_000_000);
                mul_bound(d as int, start_y as int, 65536, 16_000_000);
                mul_bound(k as int, span as int, 65536, 16_000_000);
                vstd::arithmetic::div_mod::lemma_fundamental_div_mod_converse(
                    2 * (k as int),
                    2,
                    k as int,
                    0,
                );
                vstd::arithmetic::div_mod::lemma_fundamental_div_mod_converse(
                    2 * (k as int) + 1,
                    2,
                    k as int,
                    1,
                );
            }
            let text = DrawInstruction::Text {
                content: texts[k].clone(),
                x: Frac { num: text_x as i128, den: 1 },
                y: Frac {
                    num: 2 * d * (start_y as i128 - 40) - (2 * k as i128 + 1) * span as i128,
                    den: 2 * d,
                },
                color: c.y_text_color,
                size: c.y_text_size,
            };
            r.push(text);
            let tick = Frac { num: d * start_y as i128 - (k as i128) * span as i128, den: d };
            let sep = self.separator_parallel_to_x_at(tick, axis_and_origin);
            r.push(sep);
        }
        proof {
            mul_bound(d as int, start_y as int, 65536, 16_000_000);
            mul_bound(n as int, span as int, 65536, 16_000_000);
            vstd::arithmetic::div_mod::lemma_fundamental_div_mod_converse(
                2 * (n as int),
                2,
                n as int,
                0,
            );
        }
        let tick = Frac { num: d * start_y as i128 - (n as i128) * span as i128, den: d };
        let sep = self.separator_parallel_to_x_at(tick, axis_and_origin);
        r.push(sep);
        r
    }
}

/// The marking labels the x axis draws: the configured texts when set,
/// else labels generated from the configured marking count and value
/// bounds; for a `Complete` x axis both arms are labeled, positive arm
/// first.
pub open spec fn spec_x_markings_dispatch(cs: CoordinateSystem, a: AxisAndOrigin) -> Seq<
    InstrModel,
> {
    let c = cs.coordinate_system_config;
    if c.x_text is Some {
        let texts = c.x_text->Some_0;
        let n = texts@.len() as int;
        let contents = (|k: int| texts@[k]@);
        match cs.x_axis_orientation {
            XAxisOrientation::Positive => spec_marking_instrs_along_x(
                cs,
                a,
                a.x_axis_positive_length as int,
                1,
                n,
                contents,
            ),
            XAxisOrientation::Negative => spec_marking_instrs_along_x(
                cs,
                a,
                a.x_axis_negative_length as int,
                -1,
                n,
                contents,
            ),
            XAxisOrientation::Complete => spec_marking_instrs_along_x(
                cs,
                a,
                a.x_axis_positive_length as int,
                1,
                n,
                contents,
            ) + spec_marking_instrs_along_x(
                cs,
                a,
                a.x_axis_negative_length as int,
                -1,
                n,
                contents,
            ),
        }
    } else if c.x_marking_amount is Some {
        let amount = c.x_marking_amount->Some_0 as int;
        let pos_contents = (|k: int|
            spec_centi_label(spec_marking_value(0, c.x_max_value as int, amount, k), false));
        let neg_contents = (|k: int|
            spec_centi_label(spec_marking_value(0, c.x_min_value as int, amount, k), true));
        match cs.x_axis_orientation {
            XAxisOrientation::Positive => spec_marking_instrs_along_x(
                cs,
                a,
                a.x_axis_positive_length as int,
                1,
                amount,
                pos_contents,
            ),
            XAxisOrientation::Negative => spec_marking_instrs_along_x(
                cs,
                a,
                a.x_axis_negative_length as int,
                -1,
                amount,
                neg_contents,
            ),
            XAxisOrientation::Complete => spec_marking_instrs_along_x(
                cs,
                a,
                a.x_axis_positive_length as int,
                1,
                amount,
                pos_contents,
            ) + spec_marking_instrs_along_x(
                cs,
                a,
                a.x_axis_negative_length as int,
                -1,
                amount,
                neg_contents,
            ),
        }
    } else {
        Seq::empty()
    }
}

/// The marking labels the y axis draws.
pub open spec fn spec_y_markings_dispatch(cs: CoordinateSystem, a: AxisAndOrigin) -> Seq<
    InstrModel,
> {
    let c = cs.coordinate_system_config;
    if c.y_text is Some {
        let texts = c.y_text->Some_0;
        let n = texts@.len() as int;
        let contents = (|k: int| texts@[k]@);
        match cs.y_axis_orientation {
            YAxisOrientation::Positive => spec_marking_instrs_along_y(
                cs,
                a,
                a.y_axis_positive_length as int,
                -1,
                n,
                contents,
            ),
            YAxisOrientation::Negative => spec_marking_instrs_along_y(
                cs,
                a,
                a.y_axis_negative_length as int,
                1,
                n,
                contents,
            ),
            YAxisOrientation::Complete => spec_marking_instrs_along_y(
                cs,
                a,
                a.y_axis_positive_length as int,
                -1,
                n,
                contents,
            ) + spec_marking_instrs_along_y(
                cs,
                a,
                a.y_axis_negative_length as int,
                1,
                n,
                contents,
            ),
        }
    } else if c.y_marking_amount is Some {
        let amount = c.y_marking_amount->Some_0 as int;
        let pos_contents = (|k: int|
            spec_centi_label(spec_marking_value(0, c.y_max_value as int, amount, k), false));
        let neg_contents = (|k: int|
            spec_centi_label(spec_marking_value(0, c.y_min_value as int, amount, k), true));
        match cs.y_axis_orientation {
            YAxisOrientation::Positive => spec_marking_instrs_along_y(
                cs,
                a,
                a.y_axis_positive_length as int,
                -1,
                amount,
                pos_contents,
            ),
            YAxisOrientation::Negative => spec_marking_instrs_along_y(
                cs,
                a,
                a.y_axis_negative_length as int,
                1,
                amount,
                neg_contents,
            ),
            YAxisOrientation::Complete => spec_marking_instrs_along_y(
                cs,
                a,
                a.y_axis_positive_length as int,
                -1,
                amount,
                pos_contents,
            ) + spec_marking_instrs_along_y(
                cs,
                a,
                a.y_axis_negative_length as int,
                1,
                amount,
                neg_contents,
            ),
        }
    } else {
        Seq::empty()
    }
}

/// Copies a list of label texts.
fn clone_texts(v: &Vec<String>) -> (r: Vec<String>)
    ensures
        r@.len() == v@.len(),
        forall|i: int| 0 <= i < r@.len() ==> #[trigger] r@[i]@ == v@[i]@,
{
    let mut r: Vec<String> = Vec::new();
    let n = v.len();
    for i in 0..n
        invariant
            n == v@.len(),
            r@.len() == i,
            forall|k: int| 0 <= k < i ==> #[trigger] r@[k]@ == v@[k]@,
    {
        r.push(v[i].clone());
    }
    r
}

impl CoordinateSystem {
    /// Emits the numeric marking labels of the x axis: the configured
    /// texts, or labels generated from the marking count and value bounds.
    #[verifier::rlimit(60)]
    pub fn draw_x_axis_markings_labels(&self, axis_and_origin: &AxisAndOrigin) -> (r: Vec<
        DrawInstruction,
    >)
        requires
            axis_in_range(*axis_and_origin),
            config_wf(self.coordinate_system_config),
            self.coordinate_system_config.x_text is Some
                || self.coordinate_system_config.x_marking_amount is Some,
        ensures
            r@.len() == spec_x_markings_dispatch(*self, *axis_and_origin).len(),
            forall|i: int|
                0 <= i < r@.len() ==> instr_view(#[trigger] r@[i]) == spec_x_markings_dispatch(
                    *self,
                    *axis_and_origin,
                )[i],
    {
        let c = &self.coordinate_system_config;
        if let Some(texts) = &c.x_text {
            let ghost contents = (|k: int| c.x_text->Some_0@[k]@);
            match self.x_axis_orientation {
                XAxisOrientation::Positive => {
                    self.draw_x_axis_positive_marking_labels(clone_texts(texts), axis_and_origin)
                },
                XAxisOrientation::Negative => {
                    self.draw_x_axis_negative_marking_labels(clone_texts(texts), axis_and_origin)
                },
                XAxisOrientation::Complete => {
                    let mut out = self.draw_x_axis_positive_marking_labels(
                        clone_texts(texts),
                        axis_and_origin,
                    );
                    let mut second = self.draw_x_axis_negative_marking_labels(
                        clone_texts(texts),
                        axis_and_origin,
                    );
                    out.append(&mut second);
                    out
                },
            }
        } else {
            let amount = c.x_marking_amount.unwrap();
            match self.x_axis_orientation {
                XAxisOrientation::Positive => {
                    let labels = self.create_axis_markings_texts_vector(
                        0,
                        c.x_max_value,
                        amount,
                        false,
                    );
                    self.draw_x_axis_positive_marking_labels(labels, axis_and_origin)
                },
                XAxisOrientation::Negative => {
                    let labels = self.create_axis_markings_texts_vector(
                        0,
                        c.x_min_value,
                        amount,
                        true,
                    );
                    self.draw_x_axis_negative_marking_labels(labels, axis_and_origin)
                },
                XAxisOrientation::Complete => {
                    let pos_labels = self.create_axis_markings_texts_vector(
                        0,
                        c.x_max_value,
                        amount,
                        false,
                    );
                    let neg_labels = self.create_axis_markings_texts_vector(
                        0,
                        c.x_min_value,
                        amount,
                        true,
                    );
                    let mut out = self.draw_x_axis_positive_marking_labels(
                        pos_labels,
                        axis_and_origin,
                    );
                    let mut second = self.draw_x_axis_negative_marking_labels(
                        neg_labels,
                        axis_and_origin,
                    );
                    out.append(&mut second);
                    out
                },
            }
        }
    }

    /// Emits the numeric marking labels of the y axis.
    #[verifier::rlimit(60)]
    pub fn draw_y_axis_markings_labels(&self, axis_and_origin: &AxisAndOrigin) -> (r: Vec<
        DrawInstruction,
    >)
        requires
            axis_in_range(*axis_and_origin),
            config_wf(self.coordinate_system_config),
            self.coordinate_system_config.y_text is Some
                || self.coordinate_system_config.y_marking_amount is Some,
        ensures
            r@.len() == spec_y_markings_dispatch(*self, *axis_and_origin).len(),
            forall|i: int|
                0 <= i < r@.len() ==> instr_view(#[trigger] r@[i]) == spec_y_markings_dispatch(
                    *self,
                    *axis_and_origin,
                )[i],
    {
        let c = &self.coordinate_system_config;
        if let Some(texts) = &c.y_text {
            match self.y_axis_orientation {
                YAxisOrientation::Positive => {
                    self.draw_y_axis_positive_marking_labels(clone_texts(texts), axis_and_origin)
                },
                YAxisOrientation::Negative => {
                    self.draw_y_axis_negative_marking_labels(clone_texts(texts), axis_and_origin)
                },
                YAxisOrientation::Complete => {
                    let mut out = self.draw_y_axis_positive_marking_labels(
                        clone_texts(texts),
                        axis_and_origin,
                    );
                    let mut second = self.draw_y_axis_negative_marking_labels(
                        clone_texts(texts),
                        axis_and_origin,
                    );
                    out.append(&mut second);
                    out
                },
            }
        } else {
            let amount = c.y_marking_amount.unwrap();
            match self.y_axis_orientation {
                YAxisOrientation::Positive => {
                    let labels = self.create_axis_markings_texts_vector(
                        0,
                        c.y_max_value,
                        amount,
                        false,
                    );
                    self.draw_y_axis_positive_marking_labels(labels, axis_and_origin)
                },
                YAxisOrientation::Negative => {
                    let labels = self.create_axis_markings_texts_vector(
                        0,
                        c.y_min_value,
                        amount,
                        true,
                    );
                    self.draw_y_axis_negative_marking_labels(labels, axis_and_origin)
                },
                YAxisOrientation::Complete => {
                    let pos_labels = self.create_axis_markings_texts_vector(
                        0,
                        c.y_max_value,
                        amount,
                        false,
                    );
                    let neg_labels = self.create_axis_markings_texts_vector(
                        0,
                        c.y_min_value,
                        amount,
                        true,
                    );
                    let mut out = self.draw_y_axis_positive_marking_labels(
                        pos_labels,
                        axis_and_origin,
                    );
                    let mut second = self.draw_y_axis_negative_marking_labels(
                        neg_labels,
                        axis_and_origin,
                    );
                    out.append(&mut second);
                    out
                },
            }
        }
    }
}

/// Every marking label the coordinate system draws: the x-axis markings
/// when enabled, then the y-axis markings when enabled.
pub open spec fn spec_markings_instrs(cs: CoordinateSystem, a: AxisAndOrigin) -> Seq<InstrModel> {
    let c = cs.coordinate_system_config;
    (if c.draw_marking_label_on_x_axis is Some {
        spec_x_markings_dispatch(cs, a)
    } else {
        Seq::empty()
    }) + (if c.draw_marking_label_on_y_axis is Some {
        spec_y_markings_dispatch(cs, a)
    } else {
        Seq::empty()
    })
}

/// Every cluster label the coordinate system draws: along x, then along y.
pub open spec fn spec_cluster_instrs(cs: CoordinateSystem, a: AxisAndOrigin) -> Seq<InstrModel> {
    spec_x_cluster_instrs(cs, a) + spec_y_cluster_instrs(cs, a)
}

/// Everything the coordinate system draws besides the axis lines: the
/// headline, the marking labels and separators, and the cluster labels and
/// separators, in that order.
pub open spec fn spec_headline_and_labels_instrs(
    cs: CoordinateSystem,
    a: AxisAndOrigin,
    frame_width: int,
) -> Seq<InstrModel> {
    spec_headline_instrs(cs, frame_width) + spec_markings_instrs(cs, a) + spec_cluster_instrs(
        cs,
        a,
    )
}

/// A coordinate system can draw its markings when each axis that asks for
/// marking labels has texts or a marking count to draw them from.
pub open spec fn markings_drawable(cs: CoordinateSystem) -> bool {
    let c = cs.coordinate_system_config;
    &&& c.draw_marking_label_on_x_axis is Some ==> c.x_text is Some || c.x_marking_amount is Some
    &&& c.draw_marking_label_on_y_axis is Some ==> c.y_text is Some || c.y_marking_amount is Some
}

impl CoordinateSystem {
    /// Emits the marking labels of every axis that draws them.
    pub fn draw_axis_makings_labels(&self, axis_and_origin: &AxisAndOrigin) -> (r: Vec<
        DrawInstruction,
    >)
        requires
            axis_in_range(*axis_and_origin),
            config_wf(self.coordinate_system_config),
            markings_drawable(*self),
        ensures
            r@.len() == spec_markings_instrs(*self, *axis_and_origin).len(),
            forall|i: int|
                0 <= i < r@.len() ==> instr_view(#[trigger] r@[i]) == spec_markings_instrs(
                    *self,
                    *axis_and_origin,
                )[i],
    {
        let mut r: Vec<DrawInstruction> = Vec::new();
        if self.coordinate_system_config.draw_marking_label_on_x_axis.is_some() {
            let mut xs = self.draw_x_axis_markings_labels(axis_and_origin);
            r.append(&mut xs);
        }
        if self.coordinate_system_config.draw_marking_label_on_y_axis.is_some() {
            let mut ys = self.draw_y_axis_markings_labels(axis_and_origin);
            r.append(&mut ys);
        }
        r
    }

    /// Emits the cluster labels of both axes.
    pub fn draw_cluster_labels(&self, axis_and_origin: &AxisAndOrigin) -> (r: Vec<
        DrawInstruction,
    >)
        requires
            axis_in_range(*axis_and_origin),
            config_wf(self.coordinate_system_config),
        ensures
            r@.len() == spec_cluster_instrs(*self, *axis_and_origin).len(),
            forall|i: int|
                0 <= i < r@.len() ==> instr_view(#[trigger] r@[i]) == spec_cluster_instrs(
                    *self,
                    *axis_and_origin,
                )[i],
    {
        let mut r = self.draw_x_cluster_labels(axis_and_origin);
        let mut ys = self.draw_y_cluster_labels(axis_and_origin);
        r.append(&mut ys);
        r
    }

    /// Emits the headline and every label: the paint instructions of one
    /// frame besides the axis lines and the bars.
    pub fn draw_headline_and_labels(
        &self,
        axis_and_origin: &AxisAndOrigin,
        frame_width: i64,
    ) -> (r: Vec<DrawInstruction>)
        requires
            axis_in_range(*axis_and_origin),
            config_wf(self.coordinate_system_config),
            markings_drawable(*self),
            0 <= frame_width <= DIM_LIMIT,
        ensures
            r@.len() == spec_headline_and_labels_instrs(
                *self,
                *axis_and_origin,
                frame_width as int,
            ).len(),
            forall|i: int|
                0 <= i < r@.len() ==> instr_view(#[trigger] r@[i])
                    == spec_headline_and_labels_instrs(
                    *self,
                    *axis_and_origin,
                    frame_width as int,
                )[i],
    {
        let mut r = self.draw_headline(frame_width);
        let mut ms = self.draw_axis_makings_labels(axis_and_origin);
        r.append(&mut ms);
        let mut cs = self.draw_cluster_labels(axis_and_origin);
        r.append(&mut cs);
        r
    }
}

} // verus!
