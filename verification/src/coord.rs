//! The coordinate system: reserving margins for labels and headline, turning
//! a canvas size into the four axis-arm lengths and the origin, and
//! generating numeric marking labels.
//!
//! All lengths and positions in this module are held in quarter-pixel
//! units (four units per pixel), so that splitting a text extent evenly
//! between two sides, and halving the plotting box for a `Complete` axis,
//! are exact.

use vstd::prelude::*;

use crate::axis::{XAxisOrientation, YAxisOrientation};
use crate::color::Rgb;
use crate::data::{abs_val, VALUE_LIMIT};
use crate::num::{centi_label, div_round_half_up, spec_centi_label, spec_round_half_up};
use crate::util::{
    placeholder_get_max_text_height, placeholder_get_max_text_width, spec_max_text_height,
    spec_max_text_width, PLACEHOLDER_TEXT_HEIGHT, PLACEHOLDER_TEXT_WIDTH,
};

verus! {

/// The largest canvas extent, in pixels, the library accepts. A bound of
/// this size keeps every product the layout forms inside its integer types.
pub const DIM_LIMIT: i64 = 1_000_000;

/// The largest marking count a configuration may ask for.
pub const MARKING_LIMIT: usize = 10_000;

/// Which screen axis a drawing routine walks along.
#[derive(Debug, Clone, Copy, PartialEq, Eq, Structural)]
pub enum DrawingAxis {
    X,
    Y,
}

/// Where a legend would be placed; space for it is reserved but currently
/// contributes zero.
#[derive(Debug, Clone, Copy, PartialEq, Eq, Structural)]
pub enum CoordinateSystemLegendAlignment {
    Top,
    Left,
    Right,
    Bottom,
}

/// A point inside the drawing surface, in quarter-pixel units.
#[derive(Debug, Clone, Copy, PartialEq, Eq, Structural)]
pub struct Point {
    pub x: i64,
    pub y: i64,
}

/// The four axis-arm lengths and the origin of a laid-out coordinate
/// system, in quarter-pixel units.
#[derive(Debug, Clone, Copy, PartialEq, Eq, Structural)]
pub struct AxisAndOrigin {
    pub x_axis_positive_length: i64,
    pub x_axis_negative_length: i64,
    pub y_axis_positive_length: i64,
    pub y_axis_negative_length: i64,
    pub origin: Point,
}

impl AxisAndOrigin {
    pub fn new(input: (i64, i64, i64, i64, Point)) -> (r: AxisAndOrigin)
        ensures
            r.x_axis_positive_length == input.0,
            r.x_axis_negative_length == input.1,
            r.y_axis_positive_length == input.2,
            r.y_axis_negative_length == input.3,
            r.origin == input.4,
    {
        AxisAndOrigin {
            x_axis_positive_length: input.0,
            x_axis_negative_length: input.1,
            y_axis_positive_length: input.2,
            y_axis_negative_length: input.3,
            origin: input.4,
        }
    }

    pub fn get_axis_and_origin(&self) -> (r: (i64, i64, i64, i64, Point))
        ensures
            r.0 == self.x_axis_positive_length,
            r.1 == self.x_axis_negative_length,
            r.2 == self.y_axis_positive_length,
            r.3 == self.y_axis_negative_length,
            r.4 == self.origin,
    {
        (
            self.x_axis_positive_length,
            self.x_axis_negative_length,
            self.y_axis_positive_length,
            self.y_axis_negative_length,
            self.origin,
        )
    }
}

/// The four margins reserved around the plotting box, in quarter-pixel
/// units.
#[derive(Debug, Clone, Copy, PartialEq, Eq, Structural)]
pub struct SpaceCalculator {
    pub space_top: i64,
    pub space_bottom: i64,
    pub space_left: i64,
    pub space_right: i64,
}

impl SpaceCalculator {
    pub fn new() -> (r: SpaceCalculator)
        ensures
            r.space_top == 0,
            r.space_bottom == 0,
            r.space_left == 0,
            r.space_right == 0,
    {
        SpaceCalculator { space_top: 0, space_bottom: 0, space_left: 0, space_right: 0 }
    }
}

/// The configuration the coordinate system lays out from. Sizes and stroke
/// widths are in pixels; min/max values are in hundredths of a data unit.
#[derive(Debug, Clone)]
pub struct CoordinateSystemConfig {
    pub draw_cluster_label_on_x_axis: Option<XAxisOrientation>,
    pub draw_cluster_label_on_y_axis: Option<YAxisOrientation>,
    pub draw_marking_label_on_x_axis: Option<XAxisOrientation>,
    pub draw_marking_label_on_y_axis: Option<YAxisOrientation>,
    pub x_text: Option<Vec<String>>,
    pub x_text_color: Rgb,
    pub x_text_size: i64,
    pub y_text: Option<Vec<String>>,
    pub y_text_color: Rgb,
    pub y_text_size: i64,
    pub x_marking_amount: Option<usize>,
    pub y_marking_amount: Option<usize>,
    pub headline: Option<String>,
    pub headline_color: Rgb,
    pub separator_stroke_width: i64,
    pub separator_stroke_color: Rgb,
    pub axis_stroke_color: Rgb,
    pub axis_stroke_width: i64,
    pub legend_alignment: Option<CoordinateSystemLegendAlignment>,
    pub text_padding: i64,
    pub x_min_value: i64,
    pub x_max_value: i64,
    pub y_min_value: i64,
    pub y_max_value: i64,
    pub headline_size: i64,
}

impl CoordinateSystemConfig {
    pub fn new() -> (r: CoordinateSystemConfig)
        ensures
            r.draw_cluster_label_on_x_axis is None,
            r.draw_cluster_label_on_y_axis is None,
            r.draw_marking_label_on_x_axis is None,
            r.draw_marking_label_on_y_axis is None,
            r.x_text is None,
            r.y_text is None,
            r.x_marking_amount is None,
            r.y_marking_amount is None,
            r.headline is None,
            r.x_text_size == 16,
            r.y_text_size == 16,
            r.headline_size == 16,
            r.separator_stroke_width == 2,
            r.axis_stroke_width == 2,
            r.text_padding == 5,
            r.x_min_value == 0,
            r.x_max_value == 0,
            r.y_min_value == 0,
            r.y_max_value == 0,
            r.legend_alignment is None,
            r.headline_color == (Rgb { red: 0, green: 0, blue: 0 }),
            r.x_text_color == (Rgb { red: 0, green: 0, blue: 0 }),
            r.y_text_color == (Rgb { red: 0, green: 0, blue: 0 }),
            r.axis_stroke_color == (Rgb { red: 0, green: 0, blue: 0 }),
            r.separator_stroke_color == (Rgb { red: 175, green: 181, blue: 189 }),
    {
        CoordinateSystemConfig {
            draw_cluster_label_on_x_axis: None,
            draw_cluster_label_on_y_axis: None,
            draw_marking_label_on_x_axis: None,
            draw_marking_label_on_y_axis: None,
            x_text: None,
            x_text_color: Rgb { red: 0, green: 0, blue: 0 },
            x_text_size: 16,
            y_text: None,
            y_text_color: Rgb { red: 0, green: 0, blue: 0 },
            y_text_size: 16,
            x_marking_amount: None,
            y_marking_amount: None,
            headline: None,
            headline_color: Rgb { red: 0, green: 0, blue: 0 },
            separator_stroke_width: 2,
            separator_stroke_color: Rgb { red: 175, green: 181, blue: 189 },
            axis_stroke_color: Rgb { red: 0, green: 0, blue: 0 },
            axis_stroke_width: 2,
            legend_alignment: None,
            text_padding: 5,
            x_min_value: 0,
            x_max_value: 0,
            y_min_value: 0,
            y_max_value: 0,
            headline_size: 16,
        }
    }
}

/// A configuration is usable when cluster labels are only requested on an
/// axis that has its texts set, and the bounded fields hold plausible
/// magnitudes.
pub open spec fn config_wf(c: CoordinateSystemConfig) -> bool {
    &&& c.draw_cluster_label_on_x_axis is Some ==> c.x_text is Some
    &&& c.draw_cluster_label_on_y_axis is Some ==> c.y_text is Some
    &&& c.x_text matches Some(t) ==> t@.len() <= 65536
    &&& c.y_text matches Some(t) ==> t@.len() <= 65536
    &&& -VALUE_LIMIT <= c.x_min_value <= VALUE_LIMIT
    &&& -VALUE_LIMIT <= c.x_max_value <= VALUE_LIMIT
    &&& -VALUE_LIMIT <= c.y_min_value <= VALUE_LIMIT
    &&& -VALUE_LIMIT <= c.y_max_value <= VALUE_LIMIT
    &&& c.x_marking_amount matches Some(n) ==> n <= MARKING_LIMIT
    &&& c.y_marking_amount matches Some(n) ==> n <= MARKING_LIMIT
    &&& 0 <= c.axis_stroke_width <= DIM_LIMIT
    &&& 0 <= c.separator_stroke_width <= DIM_LIMIT
}

/// A coordinate system: the orientation of both screen axes and the layout
/// configuration.
#[derive(Debug, Clone)]
pub struct CoordinateSystem {
    pub x_axis_orientation: XAxisOrientation,
    pub y_axis_orientation: YAxisOrientation,
    pub coordinate_system_config: CoordinateSystemConfig,
}

/// The placeholder width, in pixels, of the marking labels on the x axis:
/// zero when no marking labels are drawn there; the widest of the given
/// texts when texts are set; the width of the rendered value bounds
/// otherwise.
pub open spec fn spec_x_marking_width(c: CoordinateSystemConfig) -> int {
    if c.draw_marking_label_on_x_axis is Some {
        match c.x_text {
            Some(texts) => spec_max_text_width(texts@.len()),
            None => PLACEHOLDER_TEXT_WIDTH as int,
        }
    } else {
        0
    }
}

/// The placeholder height of the marking labels on the x axis.
pub open spec fn spec_x_marking_height(c: CoordinateSystemConfig) -> int {
    if c.draw_marking_label_on_x_axis is Some {
        match c.x_text {
            Some(texts) => spec_max_text_height(texts@.len()),
            None => PLACEHOLDER_TEXT_HEIGHT as int,
        }
    } else {
        0
    }
}

/// The placeholder width of the marking labels on the y axis.
pub open spec fn spec_y_marking_width(c: CoordinateSystemConfig) -> int {
    if c.draw_marking_label_on_y_axis is Some {
        match c.y_text {
            Some(texts) => spec_max_text_width(texts@.len()),
            None => PLACEHOLDER_TEXT_WIDTH as int,
        }
    } else {
        0
    }
}

/// The placeholder height of the marking labels on the y axis.
pub open spec fn spec_y_marking_height(c: CoordinateSystemConfig) -> int {
    if c.draw_marking_label_on_y_axis is Some {
        match c.y_text {
            Some(texts) => spec_max_text_height(texts@.len()),
            None => PLACEHOLDER_TEXT_HEIGHT as int,
        }
    } else {
        0
    }
}

/// The placeholder height of the cluster labels along the x axis.
pub open spec fn spec_x_cluster_height(c: CoordinateSystemConfig) -> int {
    if c.draw_cluster_label_on_x_axis is Some {
        spec_max_text_height(c.x_text->Some_0@.len())
    } else {
        0
    }
}

/// The placeholder width of the cluster labels along the y axis.
pub open spec fn spec_y_cluster_width(c: CoordinateSystemConfig) -> int {
    if c.draw_cluster_label_on_y_axis is Some {
        spec_max_text_width(c.y_text->Some_0@.len())
    } else {
        0
    }
}

/// The placeholder height of the headline; zero when none is set.
pub open spec fn spec_headline_height(c: CoordinateSystemConfig) -> int {
    if c.headline is Some {
        PLACEHOLDER_TEXT_HEIGHT as int
    } else {
        0
    }
}

/// The reserved top margin, in quarter-pixel units: the x-axis label height
/// when the y axis grows downward, half the y-axis label height, and the
/// headline height.
pub open spec fn spec_space_top(cs: CoordinateSystem) -> int {
    let c = cs.coordinate_system_config;
    (if cs.y_axis_orientation == YAxisOrientation::Negative {
        4 * spec_x_marking_height(c) + 4 * spec_x_cluster_height(c)
    } else {
        0
    }) + 2 * spec_y_marking_height(c) + 4 * spec_headline_height(c)
}

/// The reserved bottom margin, in quarter-pixel units.
pub open spec fn spec_space_bottom(cs: CoordinateSystem) -> int {
    let c = cs.coordinate_system_config;
    (if cs.y_axis_orientation == YAxisOrientation::Negative {
        0
    } else {
        4 * spec_x_marking_height(c) + 4 * spec_x_cluster_height(c)
    }) + 2 * spec_y_marking_height(c)
}

/// The reserved left margin, in quarter-pixel units.
pub open spec fn spec_space_left(cs: CoordinateSystem) -> int {
    let c = cs.coordinate_system_config;
    (if cs.x_axis_orientation == XAxisOrientation::Negative {
        0
    } else {
        4 * spec_y_marking_width(c) + 4 * spec_y_cluster_width(c)
    }) + 2 * spec_x_marking_width(c)
}

/// The reserved right margin, in quarter-pixel units.
pub open spec fn spec_space_right(cs: CoordinateSystem) -> int {
    let c = cs.coordinate_system_config;
    (if cs.x_axis_orientation == XAxisOrientation::Negative {
        4 * spec_y_marking_width(c) + 4 * spec_y_cluster_width(c)
    } else {
        0
    }) + 2 * spec_x_marking_width(c)
}

/// The plotting-box width, in quarter-pixel units: the canvas width less
/// the left and right margins, floored at zero. Always even.
pub open spec fn spec_box_width(cs: CoordinateSystem, width: int) -> int {
    let w = 4 * width - spec_space_left(cs) - spec_space_right(cs);
    if w < 0 {
        0
    } else {
        w
    }
}

/// The plotting-box height, in quarter-pixel units. Always even.
pub open spec fn spec_box_height(cs: CoordinateSystem, height: int) -> int {
    let h = 4 * height - spec_space_top(cs) - spec_space_bottom(cs);
    if h < 0 {
        0
    } else {
        h
    }
}

/// The laid-out geometry, as mathematical integers, for stating contracts.
pub struct GeometryModel {
    pub x_pos: int,
    pub x_neg: int,
    pub y_pos: int,
    pub y_neg: int,
    pub origin_x: int,
    pub origin_y: int,
}

/// The nine-entry orientation table: which arms carry the plotting box and
/// where the origin sits.
pub open spec fn spec_geometry(cs: CoordinateSystem, width: int, height: int) -> GeometryModel {
    let l = spec_space_left(cs);
    let t = spec_space_top(cs);
    let bw = spec_box_width(cs, width);
    let bh = spec_box_height(cs, height);
    match (cs.x_axis_orientation, cs.y_axis_orientation) {
        (XAxisOrientation::Positive, YAxisOrientation::Positive) => GeometryModel {
            x_pos: bw,
            x_neg: 0,
            y_pos: bh,
            y_neg: 0,
            origin_x: l,
            origin_y: t + bh,
        },
        (XAxisOrientation::Positive, YAxisOrientation::Negative) => GeometryModel {
            x_pos: bw,
            x_neg: 0,
            y_pos: 0,
            y_neg: bh,
            origin_x: l,
            origin_y: t,
        },
        (XAxisOrientation::Positive, YAxisOrientation::Complete) => GeometryModel {
            x_pos: bw,
            x_neg: 0,
            y_pos: bh / 2,
            y_neg: bh / 2,
            origin_x: l,
            origin_y: t + bh / 2,
        },
        (XAxisOrientation::Negative, YAxisOrientation::Positive) => GeometryModel {
            x_pos: 0,
            x_neg: bw,
            y_pos: bh,
            y_neg: 0,
            origin_x: l + bw,
            origin_y: t + bh,
        },
        (XAxisOrientation::Negative, YAxisOrientation::Negative) => GeometryModel {
            x_pos: 0,
            x_neg: bw,
            y_pos: 0,
            y_neg: bh,
            origin_x: l + bw,
            origin_y: t,
        },
        (XAxisOrientation::Negative, YAxisOrientation::Complete) => GeometryModel {
            x_pos: 0,
            x_neg: bw,
            y_pos: bh / 2,
            y_neg: bh / 2,
            origin_x: l + bw,
            origin_y: t + bh / 2,
        },
        (XAxisOrientation::Complete, YAxisOrientation::Positive) => GeometryModel {
            x_pos: bw / 2,
            x_neg: bw / 2,
            y_pos: bh,
            y_neg: 0,
            origin_x: l + bw / 2,
            origin_y: t + bh,
        },
        (XAxisOrientation::Complete, YAxisOrientation::Negative) => GeometryModel {
            x_pos: bw / 2,
            x_neg: bw / 2,
            y_pos: 0,
            y_neg: bh,
            origin_x: l + bw / 2,
            origin_y: t,
        },
        (XAxisOrientation::Complete, YAxisOrientation::Complete) => GeometryModel {
            x_pos: bw / 2,
            x_neg: bw / 2,
            y_pos: bh / 2,
            y_neg: bh / 2,
            origin_x: l + bw / 2,
            origin_y: t + bh / 2,
        },
    }
}

impl CoordinateSystem {
    pub fn new(
        x_axis_orientation: XAxisOrientation,
        y_axis_orientation: YAxisOrientation,
        coordinate_system_config: CoordinateSystemConfig,
    ) -> (r: CoordinateSystem)
        ensures
            r.x_axis_orientation == x_axis_orientation,
            r.y_axis_orientation == y_axis_orientation,
            r.coordinate_system_config == coordinate_system_config,
    {
        CoordinateSystem { x_axis_orientation, y_axis_orientation, coordinate_system_config }
    }

    /// Reserves space for the axis marking labels: their height goes to the
    /// side the inactive end of the crossing axis occupies, their width is
    /// split evenly between the two remaining sides.
    fn calculate_axis_labels_space(&self, space_calculator: &mut SpaceCalculator)
        requires
            spec_space_in_range(*old(space_calculator)),
        ensures
            final(space_calculator).space_top == old(space_calculator).space_top + (
            if self.y_axis_orientation == YAxisOrientation::Negative {
                4 * spec_x_marking_height(self.coordinate_system_config)
            } else {
                0
            }) + 2 * spec_y_marking_height(self.coordinate_system_config),
            final(space_calculator).space_bottom == old(space_calculator).space_bottom + (
            if self.y_axis_orientation == YAxisOrientation::Negative {
                0
            } else {
                4 * spec_x_marking_height(self.coordinate_system_config)
            }) + 2 * spec_y_marking_height(self.coordinate_system_config),
            final(space_calculator).space_left == old(space_calculator).space_left + (
            if self.x_axis_orientation == XAxisOrientation::Negative {
                0
            } else {
                4 * spec_y_marking_width(self.coordinate_system_config)
            }) + 2 * spec_x_marking_width(self.coordinate_system_config),
            final(space_calculator).space_right == old(space_calculator).space_right + (
            if self.x_axis_orientation == XAxisOrientation::Negative {
                4 * spec_y_marking_width(self.coordinate_system_config)
            } else {
                0
            }) + 2 * spec_x_marking_width(self.coordinate_system_config),
    {
        let config = &self.coordinate_system_config;
        let mut x_max_text_width: i64 = 0;
        let mut x_max_text_height: i64 = 0;
        let mut y_max_text_width: i64 = 0;
        let mut y_max_text_height: i64 = 0;
        if config.draw_marking_label_on_x_axis.is_some() {
            match &config.x_text {
                Some(x_markings_text) => {
                    x_max_text_height = placeholder_get_max_text_height(x_markings_text);
                    x_max_text_width = placeholder_get_max_text_width(x_markings_text);
                },
                None => {
                    x_max_text_height = PLACEHOLDER_TEXT_HEIGHT;
                    x_max_text_width = PLACEHOLDER_TEXT_WIDTH;
                },
            }
        }
        if config.draw_marking_label_on_y_axis.is_some() {
            match &config.y_text {
                Some(y_markings_text) => {
                    y_max_text_height = placeholder_get_max_text_height(y_markings_text);
                    y_max_text_width = placeholder_get_max_text_width(y_markings_text);
                },
                None => {
                    y_max_text_height = PLACEHOLDER_TEXT_HEIGHT;
                    y_max_text_width = PLACEHOLDER_TEXT_WIDTH;
                },
            }
        }
        match self.y_axis_orientation {
            YAxisOrientation::Positive => {
                space_calculator.space_bottom = space_calculator.space_bottom + 4
                    * x_max_text_height;
                space_calculator.space_left = space_calculator.space_left + 2 * x_max_text_width;
                space_calculator.space_right = space_calculator.space_right + 2 * x_max_text_width;
            },
            YAxisOrientation::Negative => {
                space_calculator.space_top = space_calculator.space_top + 4 * x_max_text_height;
                space_calculator.space_left = space_calculator.space_left + 2 * x_max_text_width;
                space_calculator.space_right = space_calculator.space_right + 2 * x_max_text_width;
            },
            YAxisOrientation::Complete => {
                space_calculator.space_bottom = space_calculator.space_bottom + 4
                    * x_max_text_height;
                space_calculator.space_left = space_calculator.space_left + 2 * x_max_text_width;
                space_calculator.space_right = space_calculator.space_right + 2 * x_max_text_width;
            },
        }
        match self.x_axis_orientation {
            XAxisOrientation::Positive => {
                space_calculator.space_left = space_calculator.space_left + 4 * y_max_text_width;
                space_calculator.space_top = space_calculator.space_top + 2 * y_max_text_height;
                space_calculator.space_bottom = space_calculator.space_bottom + 2
                    * y_max_text_height;
            },
            XAxisOrientation::Negative => {
                space_calculator.space_right = space_calculator.space_right + 4 * y_max_text_width;
                space_calculator.space_top = space_calculator.space_top + 2 * y_max_text_height;
                space_calculator.space_bottom = space_calculator.space_bottom + 2
                    * y_max_text_height;
            },
            XAxisOrientation::Complete => {
                space_calculator.space_left = space_calculator.space_left + 4 * y_max_text_width;
                space_calculator.space_top = space_calculator.space_top + 2 * y_max_text_height;
                space_calculator.space_bottom = space_calculator.space_bottom + 2
                    * y_max_text_height;
            },
        }
    }

    /// Reserves space for the cluster labels: their extent goes to the same
    /// side the marking labels of that axis use.
    fn calculate_cluster_labels_space(&self, space_calculator: &mut SpaceCalculator)
        requires
            config_wf(self.coordinate_system_config),
            spec_space_in_range(*old(space_calculator)),
        ensures
            final(space_calculator).space_top == old(space_calculator).space_top + (
            if self.y_axis_orientation == YAxisOrientation::Negative {
                4 * spec_x_cluster_height(self.coordinate_system_config)
            } else {
                0
            }),
            final(space_calculator).space_bottom == old(space_calculator).space_bottom + (
            if self.y_axis_orientation == YAxisOrientation::Negative {
                0
            } else {
                4 * spec_x_cluster_height(self.coordinate_system_config)
            }),
            final(space_calculator).space_left == old(space_calculator).space_left + (
            if self.x_axis_orientation == XAxisOrientation::Negative {
                0
            } else {
                4 * spec_y_cluster_width(self.coordinate_system_config)
            }),
            final(space_calculator).space_right == old(space_calculator).space_right + (
            if self.x_axis_orientation == XAxisOrientation::Negative {
                4 * spec_y_cluster_width(self.coordinate_system_config)
            } else {
                0
            }),
    {
        let config = &self.coordinate_system_config;
        let mut x_max_text_height: i64 = 0;
        let mut y_max_text_width: i64 = 0;
        if config.draw_cluster_label_on_x_axis.is_some() {
            let x_clusters_text = config.x_text.as_ref().unwrap();
            x_max_text_height = placeholder_get_max_text_height(x_clusters_text);
        }
        if config.draw_cluster_label_on_y_axis.is_some() {
            let y_clusters_text = config.y_text.as_ref().unwrap();
            y_max_text_width = placeholder_get_max_text_width(y_clusters_text);
        }
        match self.y_axis_orientation {
            YAxisOrientation::Positive => {
                space_calculator.space_bottom = space_calculator.space_bottom + 4
                    * x_max_text_height;
            },
            YAxisOrientation::Negative => {
                space_calculator.space_top = space_calculator.space_top + 4 * x_max_text_height;
            },
            YAxisOrientation::Complete => {
                space_calculator.space_bottom = space_calculator.space_bottom + 4
                    * x_max_text_height;
            },
        }
        match self.x_axis_orientation {
            XAxisOrientation::Positive => {
                space_calculator.space_left = space_calculator.space_left + 4 * y_max_text_width;
            },
            XAxisOrientation::Negative => {
                space_calculator.space_right = space_calculator.space_right + 4 * y_max_text_width;
            },
            XAxisOrientation::Complete => {
                space_calculator.space_left = space_calculator.space_left + 4 * y_max_text_width;
            },
        }
    }

    /// Reserves the headline's height at the top, when a headline is set.
    fn calculate_headline_space(&self, space_calculator: &mut SpaceCalculator)
        requires
            spec_space_in_range(*old(space_calculator)),
        ensures
            final(space_calculator).space_top == old(space_calculator).space_top + 4
                * spec_headline_height(self.coordinate_system_config),
            final(space_calculator).space_bottom == old(space_calculator).space_bottom,
            final(space_calculator).space_left == old(space_calculator).space_left,
            final(space_calculator).space_right == old(space_calculator).space_right,
    {
        if self.coordinate_system_config.headline.is_some() {
            space_calculator.space_top = space_calculator.space_top + 4 * PLACEHOLDER_TEXT_HEIGHT;
        }
    }

    /// Reserves space for a legend. Legends are only reserved for: they
    /// currently contribute no space.
    fn calculate_legend_space(&self, space_calculator: &mut SpaceCalculator)
        ensures
            *final(space_calculator) == *old(space_calculator),
    {
    }

    /// Computes the four reserved margins from the configuration. The result
    /// depends only on the configuration and the (fixed) placeholder text
    /// metrics, so equal configurations always reserve equal margins.
    pub fn calculate_spacing(&self) -> (r: SpaceCalculator)
        requires
            config_wf(self.coordinate_system_config),
        ensures
            r.space_top == spec_space_top(*self),
            r.space_bottom == spec_space_bottom(*self),
            r.space_left == spec_space_left(*self),
            r.space_right == spec_space_right(*self),
    {
        let mut space_calculator = SpaceCalculator::new();
        self.calculate_axis_labels_space(&mut space_calculator);
        self.calculate_cluster_labels_space(&mut space_calculator);
        self.calculate_headline_space(&mut space_calculator);
        self.calculate_legend_space(&mut space_calculator);
        space_calculator
    }

    /// The plotting box: the canvas less the reserved margins, floored at
    /// zero, together with the left and top margins. All in quarter-pixel
    /// units; both box extents are even.
    fn plotting_box(&self, width: i64, height: i64) -> (r: (i64, i64, i64, i64))
        requires
            config_wf(self.coordinate_system_config),
            0 <= width <= DIM_LIMIT,
            0 <= height <= DIM_LIMIT,
        ensures
            r.0 == spec_space_left(*self),
            r.1 == spec_space_top(*self),
            r.2 == spec_box_width(*self, width as int),
            r.3 == spec_box_height(*self, height as int),
            0 <= r.0 <= 4096,
            0 <= r.1 <= 4096,
            0 <= r.2 <= 4 * DIM_LIMIT,
            0 <= r.3 <= 4 * DIM_LIMIT,
            r.2 % 2 == 0,
            r.3 % 2 == 0,
            r.2 / 2 + r.2 / 2 == r.2,
            r.3 / 2 + r.3 / 2 == r.3,
    {
        let space_calculator = self.calculate_spacing();
        let padding_top = space_calculator.space_top;
        let padding_bottom = space_calculator.space_bottom;
        let padding_left = space_calculator.space_left;
        let padding_right = space_calculator.space_right;
        let width_canvas = 4 * width;
        let height_canvas = 4 * height;
        let mut coordinate_box_width = width_canvas - padding_left - padding_right;
        if coordinate_box_width < 0 {
            coordinate_box_width = 0;
        }
        let mut coordinate_box_height = height_canvas - padding_bottom - padding_top;
        if coordinate_box_height < 0 {
            coordinate_box_height = 0;
        }
        proof {
            assert(coordinate_box_width % 2 == 0);
            assert(coordinate_box_height % 2 == 0);
            vstd::arithmetic::div_mod::lemma_fundamental_div_mod(coordinate_box_width as int, 2);
            vstd::arithmetic::div_mod::lemma_fundamental_div_mod(coordinate_box_height as int, 2);
        }
        (padding_left, padding_top, coordinate_box_width, coordinate_box_height)
    }

    /// Lays the coordinate system out on a canvas of `width` by `height`
    /// pixels: subtracts the reserved margins, then selects the arm lengths
    /// and the origin by the nine-entry orientation table. Arm lengths are
    /// never negative; the arms of each screen axis sum exactly to the
    /// plotting box's extent on that axis; a `Complete` axis gets exactly
    /// half the box on each arm.
    pub fn calculate_axis_length_and_origin(&self, width: i64, height: i64) -> (r: AxisAndOrigin)
        requires
            config_wf(self.coordinate_system_config),
            0 <= width <= DIM_LIMIT,
            0 <= height <= DIM_LIMIT,
        ensures
            r.x_axis_positive_length == spec_geometry(*self, width as int, height as int).x_pos,
            r.x_axis_negative_length == spec_geometry(*self, width as int, height as int).x_neg,
            r.y_axis_positive_length == spec_geometry(*self, width as int, height as int).y_pos,
            r.y_axis_negative_length == spec_geometry(*self, width as int, height as int).y_neg,
            r.origin.x == spec_geometry(*self, width as int, height as int).origin_x,
            r.origin.y == spec_geometry(*self, width as int, height as int).origin_y,
            0 <= r.x_axis_positive_length,
            0 <= r.x_axis_negative_length,
            0 <= r.y_axis_positive_length,
            0 <= r.y_axis_negative_length,
            r.x_axis_positive_length + r.x_axis_negative_length == spec_box_width(
                *self,
                width as int,
            ),
            r.y_axis_positive_length + r.y_axis_negative_length == spec_box_height(
                *self,
                height as int,
            ),
            self.x_axis_orientation == XAxisOrientation::Complete ==> r.x_axis_positive_length
                == r.x_axis_negative_length,
            self.y_axis_orientation == YAxisOrientation::Complete ==> r.y_axis_positive_length
                == r.y_axis_negative_length,
            axis_in_range(r),
            r == spec_axis_of(*self, width as int, height as int),
    {
        let (padding_left, padding_top, coordinate_box_width, coordinate_box_height) =
            self.plotting_box(width, height);
        let bot_left = Point { x: padding_left, y: padding_top + coordinate_box_height };
        let top_left = Point { x: padding_left, y: padding_top };
        let top_middle_left = Point { x: padding_left, y: padding_top + coordinate_box_height / 2 };
        let bot_right = Point {
            x: padding_left + coordinate_box_width,
            y: padding_top + coordinate_box_height,
        };
        let top_right = Point { x: padding_left + coordinate_box_width, y: padding_top };
        let middle_right = Point {
            x: padding_left + coordinate_box_width,
            y: padding_top + coordinate_box_height / 2,
        };
        let middle_bottom = Point {
            x: padding_left + coordinate_box_width / 2,
            y: padding_top + coordinate_box_height,
        };
        let middle_top = Point { x: padding_left + coordinate_box_width / 2, y: padding_top };
        let center = Point {
            x: padding_left + coordinate_box_width / 2,
            y: padding_top + coordinate_box_height / 2,
        };
        let mut x_axis_positive_length: i64 = 0;
        let mut x_axis_negative_length: i64 = 0;
        let mut y_axis_positive_length: i64 = 0;
        let mut y_axis_negative_length: i64 = 0;
        let origin: Point;
        match (self.x_axis_orientation, self.y_axis_orientation) {
            (XAxisOrientation::Positive, YAxisOrientation::Positive) => {
                x_axis_positive_length = coordinate_box_width;
                y_axis_positive_length = coordinate_box_height;
                origin = bot_left;
            },
            (XAxisOrientation::Positive, YAxisOrientation::Negative) => {
                x_axis_positive_length = coordinate_box_width;
                y_axis_negative_length = coordinate_box_height;
                origin = top_left;
            },
            (XAxisOrientation::Positive, YAxisOrientation::Complete) => {
                x_axis_positive_length = coordinate_box_width;
                y_axis_positive_length = coordinate_box_height / 2;
                y_axis_negative_length = coordinate_box_height / 2;
                origin = top_middle_left;
            },
            (XAxisOrientation::Negative, YAxisOrientation::Positive) => {
                x_axis_negative_length = coordinate_box_width;
                y_axis_positive_length = coordinate_box_height;
                origin = bot_right;
            },
            (XAxisOrientation::Negative, YAxisOrientation::Negative) => {
                x_axis_negative_length = coordinate_box_width;
                y_axis_negative_length = coordinate_box_height;
                origin = top_right;
            },
            (XAxisOrientation::Negative, YAxisOrientation::Complete) => {
                x_axis_negative_length = coordinate_box_width;
                y_axis_positive_length = coordinate_box_height / 2;
                y_axis_negative_length = coordinate_box_height / 2;
                origin = middle_right;
            },
            (XAxisOrientation::Complete, YAxisOrientation::Positive) => {
                x_axis_positive_length = coordinate_box_width / 2;
                x_axis_negative_length = coordinate_box_width / 2;
                y_axis_positive_length = coordinate_box_height;
                origin = middle_bottom;
            },
            (XAxisOrientation::Complete, YAxisOrientation::Negative) => {
                x_axis_positive_length = coordinate_box_width / 2;
                x_axis_negative_length = coordinate_box_width / 2;
                y_axis_negative_length = coordinate_box_height;
                origin = middle_top;
            },
            (XAxisOrientation::Complete, YAxisOrientation::Complete) => {
                x_axis_positive_length = coordinate_box_width / 2;
                x_axis_negative_length = coordinate_box_width / 2;
                y_axis_positive_length = coordinate_box_height / 2;
                y_axis_negative_length = coordinate_box_height / 2;
                origin = center;
            },
        }
        AxisAndOrigin {
            x_axis_positive_length,
            x_axis_negative_length,
            y_axis_positive_length,
            y_axis_negative_length,
            origin,
        }
    }

    /// The endpoints of a separator line through `current_position`,
    /// parallel to the y axis, spanning the arm(s) the y orientation draws.
    pub fn calculate_separator_line_parallel_to_y(
        &self,
        current_position: &Point,
        axis_and_origin: &AxisAndOrigin,
    ) -> (r: (Point, Point))
        requires
            axis_in_range(*axis_and_origin),
            point_in_range(*current_position),
        ensures
            r == match self.y_axis_orientation {
                YAxisOrientation::Positive => (
                    Point { x: current_position.x, y: current_position.y },
                    Point {
                        x: current_position.x,
                        y: (current_position.y - axis_and_origin.y_axis_positive_length) as i64,
                    },
                ),
                YAxisOrientation::Negative => (
                    Point { x: current_position.x, y: current_position.y },
                    Point {
                        x: current_position.x,
                        y: (current_position.y + axis_and_origin.y_axis_negative_length) as i64,
                    },
                ),
                YAxisOrientation::Complete => (
                    Point {
                        x: current_position.x,
                        y: (current_position.y - axis_and_origin.y_axis_positive_length) as i64,
                    },
                    Point {
                        x: current_position.x,
                        y: (current_position.y + axis_and_origin.y_axis_positive_length) as i64,
                    },
                ),
            },
    {
        match self.y_axis_orientation {
            YAxisOrientation::Positive => (
                Point { x: current_position.x, y: current_position.y },
                Point {
                    x: current_position.x,
                    y: current_position.y - axis_and_origin.y_axis_positive_length,
                },
            ),
            YAxisOrientation::Negative => (
                Point { x: current_position.x, y: current_position.y },
                Point {
                    x: current_position.x,
                    y: current_position.y + axis_and_origin.y_axis_negative_length,
                },
            ),
            YAxisOrientation::Complete => (
                Point {
                    x: current_position.x,
                    y: current_position.y - axis_and_origin.y_axis_positive_length,
                },
                Point {
                    x: current_position.x,
                    y: current_position.y + axis_and_origin.y_axis_positive_length,
                },
            ),
        }
    }

    /// The endpoints of a separator line through `current_position`,
    /// parallel to the x axis, spanning the arm(s) the x orientation draws.
    pub fn calculate_separator_line_parallel_to_x(
        &self,
        current_position: Point,
        axis_and_origin: &AxisAndOrigin,
    ) -> (r: (Point, Point))
        requires
            axis_in_range(*axis_and_origin),
            point_in_range(current_position),
        ensures
            r == match self.x_axis_orientation {
                XAxisOrientation::Positive => (
                    Point { x: current_position.x, y: current_position.y },
                    Point {
                        x: (current_position.x + axis_and_origin.x_axis_positive_length) as i64,
                        y: current_position.y,
                    },
                ),
                XAxisOrientation::Negative => (
                    Point { x: current_position.x, y: current_position.y },
                    Point {
                        x: (current_position.x - axis_and_origin.x_axis_negative_length) as i64,
                        y: current_position.y,
                    },
                ),
                XAxisOrientation::Complete => (
                    Point {
                        x: (current_position.x - axis_and_origin.x_axis_negative_length) as i64,
                        y: current_position.y,
                    },
                    Point {
                        x: (current_position.x + axis_and_origin.x_axis_positive_length) as i64,
                        y: current_position.y,
                    },
                ),
            },
    {
        match self.x_axis_orientation {
            XAxisOrientation::Positive => (
                Point { x: current_position.x, y: current_position.y },
                Point {
                    x: current_position.x + axis_and_origin.x_axis_positive_length,
                    y: current_position.y,
                },
            ),
            XAxisOrientation::Negative => (
                Point { x: current_position.x, y: current_position.y },
                Point {
                    x: current_position.x - axis_and_origin.x_axis_negative_length,
                    y: current_position.y,
                },
            ),
            XAxisOrientation::Complete => (
                Point {
                    x: current_position.x - axis_and_origin.x_axis_negative_length,
                    y: current_position.y,
                },
                Point {
                    x: current_position.x + axis_and_origin.x_axis_positive_length,
                    y: current_position.y,
                },
            ),
        }
    }

    /// Generates the texts of `markings_amount` evenly spaced numeric
    /// marking labels for the value range `start..end` (in hundredths).
    /// Each value is rounded to the nearest hundredth, halves away from
    /// zero; `negative` prefixes every label with a minus sign, because the
    /// magnitudes are stored unsigned. A count of zero yields no labels; a
    /// count of one yields the start label alone.
    pub fn create_axis_markings_texts_vector(
        &self,
        start: i64,
        end: i64,
        markings_amount: usize,
        negative: bool,
    ) -> (r: Vec<String>)
        requires
            0 <= start <= VALUE_LIMIT,
            -VALUE_LIMIT <= end <= VALUE_LIMIT,
            markings_amount <= MARKING_LIMIT,
        ensures
            r@.len() == if markings_amount < 1 {
                0int
            } else {
                markings_amount as int
            },
            forall|i: int|
                0 <= i < r@.len() ==> #[trigger] r@[i]@ == spec_centi_label(
                    spec_marking_value(start as int, end as int, markings_amount as int, i),
                    negative,
                ),
    {
        if markings_amount < 1 {
            return Vec::new();
        }
        let span = if start >= end {
            start - end
        } else {
            end - start
        };
        let mut markings_text_vec: Vec<String> = Vec::new();
        if markings_amount == 1 {
            markings_text_vec.push(centi_label(start, negative));
            return markings_text_vec;
        }
        let d = markings_amount - 1;
        for i in 0..markings_amount
            invariant
                0 <= start <= VALUE_LIMIT,
                0 <= span <= 2 * VALUE_LIMIT,
                span == abs_val(end as int - start as int),
                d == markings_amount - 1,
                2 <= markings_amount <= MARKING_LIMIT,
                markings_text_vec@.len() == i,
                forall|j: int|
                    0 <= j < i ==> #[trigger] markings_text_vec@[j]@ == spec_centi_label(
                        spec_marking_value(start as int, end as int, markings_amount as int, j),
                        negative,
                    ),
        {
            proof {
                assert((i as int) * (span as int) <= (d as int) * (span as int) <= 20_000_000_000_000int)
                    by (nonlinear_arith)
                    requires
                        0 <= i <= d <= 10_000,
                        0 <= span <= 2_000_000_000,
                ;
                assert(0 <= (i as int) * (span as int)) by (nonlinear_arith)
                    requires
                        0 <= i,
                        0 <= span,
                ;
            }
            let p = (i as i64) * span;
            let rounded = div_round_half_up(p, d as i64);
            proof {
                let di = d as int;
                let ri = rounded as int;
                let pi = p as int;
                let si = span as int;
                assert(2 * di * ri <= 2 * pi + di);
                assert(pi <= di * si);
                assert(ri <= si) by (nonlinear_arith)
                    requires
                        2 * di * ri <= 2 * pi + di,
                        pi <= di * si,
                        1 <= di,
                        0 <= ri,
                        0 <= si,
                        0 <= pi,
                ;
            }
            let value = start + rounded;
            markings_text_vec.push(centi_label(value, negative));
        }
        markings_text_vec
    }
}

/// The `i`-th marking value for the range `start..end` with `amount`
/// markings: `start` plus `i` steps of `|end - start| / (amount - 1)`,
/// rounded to the nearest hundredth.
pub open spec fn spec_marking_value(start: int, end: int, amount: int, i: int) -> int {
    if amount <= 1 {
        start
    } else {
        start + spec_round_half_up(i * abs_val(end - start), amount - 1)
    }
}

/// The geometry as an `AxisAndOrigin` value, for stating contracts that
/// carry it into the bar layout.
pub open spec fn spec_axis_of(cs: CoordinateSystem, width: int, height: int) -> AxisAndOrigin {
    let g = spec_geometry(cs, width, height);
    AxisAndOrigin {
        x_axis_positive_length: g.x_pos as i64,
        x_axis_negative_length: g.x_neg as i64,
        y_axis_positive_length: g.y_pos as i64,
        y_axis_negative_length: g.y_neg as i64,
        origin: Point { x: g.origin_x as i64, y: g.origin_y as i64 },
    }
}

/// The margins a space calculation can produce stay far inside `i64`.
pub open spec fn spec_space_in_range(s: SpaceCalculator) -> bool {
    &&& 0 <= s.space_top <= 0x1_0000_0000
    &&& 0 <= s.space_bottom <= 0x1_0000_0000
    &&& 0 <= s.space_left <= 0x1_0000_0000
    &&& 0 <= s.space_right <= 0x1_0000_0000
}

/// Arm lengths and origin coordinates stay within the canvas bound, in
/// quarter-pixel units.
pub open spec fn axis_in_range(a: AxisAndOrigin) -> bool {
    &&& 0 <= a.x_axis_positive_length <= 4 * DIM_LIMIT
    &&& 0 <= a.x_axis_negative_length <= 4 * DIM_LIMIT
    &&& 0 <= a.y_axis_positive_length <= 4 * DIM_LIMIT
    &&& 0 <= a.y_axis_negative_length <= 4 * DIM_LIMIT
    &&& point_in_range(a.origin)
}

/// A point stays within the canvas bound, in quarter-pixel units.
pub open spec fn point_in_range(p: Point) -> bool {
    &&& -4 * DIM_LIMIT <= p.x <= 8 * DIM_LIMIT
    &&& -4 * DIM_LIMIT <= p.y <= 8 * DIM_LIMIT
}

} // verus!
