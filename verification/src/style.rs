//! Style parameters for a bar chart. Lengths are in pixels; values are in
//! hundredths of a data unit. An unset option falls back to the coordinate
//! system's default.

use vstd::prelude::*;

use std::collections::HashMap;

use crate::color::Rgb;
use crate::coord::{CoordinateSystemLegendAlignment, DIM_LIMIT, MARKING_LIMIT};
use crate::data::VALUE_LIMIT;

verus! {

/// The style of one bar chart. `color_map` overrides the color of single
/// series by id; series without an entry draw with the library's fixed
/// default palette, indexed by id modulo the palette size.
#[derive(Debug)]
pub struct BarChartStyleInfoIced {
    pub color_map: HashMap<u32, Rgb>,
    pub axis_stroke_width: Option<i64>,
    pub axis_stroke_color: Option<Rgb>,
    pub separator_stroke_width: Option<i64>,
    pub separator_stroke_color: Option<Rgb>,
    pub maximum_bar_width: i64,
    pub min_cluster_spacing: i64,
    pub bar_spacing: i64,
    pub x_marking_amount: Option<usize>,
    pub y_marking_amount: Option<usize>,
    pub max_value: Option<i64>,
    pub markings_color: Option<Rgb>,
    pub cluster_color: Option<Rgb>,
    pub headline: Option<String>,
    pub headline_color: Option<Rgb>,
    pub legend_alignment: Option<CoordinateSystemLegendAlignment>,
    pub text_padding: Option<i64>,
    pub cluster_text_size: Option<i64>,
    pub headline_size: Option<i64>,
    pub markings_text_size: Option<i64>,
}

/// A style holds plausible magnitudes everywhere.
pub open spec fn style_wf(s: BarChartStyleInfoIced) -> bool {
    &&& 0 <= s.maximum_bar_width <= DIM_LIMIT
    &&& 0 <= s.min_cluster_spacing <= DIM_LIMIT
    &&& 0 <= s.bar_spacing <= DIM_LIMIT
    &&& s.max_value matches Some(v) ==> -VALUE_LIMIT <= v <= VALUE_LIMIT
    &&& s.x_marking_amount matches Some(n) ==> n <= MARKING_LIMIT
    &&& s.y_marking_amount matches Some(n) ==> n <= MARKING_LIMIT
    &&& s.axis_stroke_width matches Some(w) ==> 0 <= w <= DIM_LIMIT
    &&& s.separator_stroke_width matches Some(w) ==> 0 <= w <= DIM_LIMIT
    &&& s.text_padding matches Some(p) ==> 0 <= p <= DIM_LIMIT
    &&& s.cluster_text_size matches Some(t) ==> 0 <= t <= DIM_LIMIT
    &&& s.headline_size matches Some(t) ==> 0 <= t <= DIM_LIMIT
    &&& s.markings_text_size matches Some(t) ==> 0 <= t <= DIM_LIMIT
}

impl BarChartStyleInfoIced {
    pub fn new() -> (r: BarChartStyleInfoIced)
        ensures
            r.color_map@ == Map::<u32, Rgb>::empty(),
            r.axis_stroke_width is None,
            r.axis_stroke_color is None,
            r.separator_stroke_width is None,
            r.separator_stroke_color is None,
            r.maximum_bar_width == 50,
            r.min_cluster_spacing == 5,
            r.bar_spacing == 2,
            r.x_marking_amount == Some(5usize),
            r.y_marking_amount == Some(5usize),
            r.max_value is None,
            r.markings_color is None,
            r.cluster_color is None,
            r.headline is None,
            r.headline_color is None,
            r.legend_alignment is None,
            r.text_padding is None,
            r.cluster_text_size is None,
            r.headline_size is None,
            r.markings_text_size is None,
            style_wf(r),
    {
        BarChartStyleInfoIced {
            color_map: HashMap::new(),
            axis_stroke_width: None,
            axis_stroke_color: None,
            separator_stroke_width: None,
            separator_stroke_color: None,
            maximum_bar_width: 50,
            min_cluster_spacing: 5,
            bar_spacing: 2,
            x_marking_amount: Some(5),
            y_marking_amount: Some(5),
            max_value: None,
            markings_color: None,
            cluster_color: None,
            headline: None,
            headline_color: None,
            legend_alignment: None,
            text_padding: None,
            cluster_text_size: None,
            headline_size: None,
            markings_text_size: None,
        }
    }
}

} // verus!
