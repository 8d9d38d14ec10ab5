//! The bar chart itself: validated construction, series mutation with
//! layout invalidation, configuration derivation, and pointer hit-testing
//! over the lazily rebuilt rectangle list.

use vstd::prelude::*;

use std::collections::HashMap;

use crate::axis::{spec_compatible, validate, BarChartDataAxis, XAxisOrientation, YAxisOrientation};
use crate::bars::{
    bar_in_range, bar_view, layout_bars, spec_c, spec_pass_scale, spec_s, BarLayout,
    BarLayoutInput, BarModel, LaidOutBar,
};
use crate::color::Rgb;
use crate::coord::{
    axis_in_range, config_wf, spec_axis_of, AxisAndOrigin, CoordinateSystem,
    CoordinateSystemConfig, DIM_LIMIT,
};
use crate::data::{
    abs_val, data_wf, dataset_wf, spec_max_abs, BarChartData, Dataset, COUNT_LIMIT, VALUE_LIMIT,
};
use crate::error::{ChartsLibError, ErrorKind};
use crate::style::{style_wf, BarChartStyleInfoIced};

verus! {

/// The scale-defining magnitude a chart works with: the larger of the
/// configured maximum value's magnitude and the largest data magnitude.
pub open spec fn spec_biggest_abs(mv: Option<i64>, datasets: Seq<Dataset>) -> int {
    let b = spec_max_abs(datasets);
    match mv {
        Some(v) => if abs_val(v as int) > b {
            abs_val(v as int)
        } else {
            b
        },
        None => b,
    }
}

/// The value bound written into the configuration: like
/// `spec_biggest_abs`, but comparing the configured maximum as signed, the
/// way the configuration derivation does.
pub open spec fn spec_config_biggest(mv: Option<i64>, datasets: Seq<Dataset>) -> int {
    let b = spec_max_abs(datasets);
    match mv {
        Some(v) => if v > b {
            v as int
        } else {
            b
        },
        None => b,
    }
}

/// Computes the scale-defining magnitude.
pub fn calculate_biggest_data_value(style: &BarChartStyleInfoIced, data: &BarChartData) -> (r: i64)
    requires
        data_wf(*data),
        style_wf(*style),
    ensures
        r == spec_biggest_abs(style.max_value, data.datasets@),
        0 <= r <= VALUE_LIMIT,
{
    let biggest_entry_abs = data.get_biggest_data_entry_abs();
    match style.max_value {
        Some(max_value) => {
            let a = if max_value < 0 {
                -max_value
            } else {
                max_value
            };
            if a > biggest_entry_abs {
                a
            } else {
                biggest_entry_abs
            }
        },
        None => biggest_entry_abs,
    }
}

/// Copies a list of label texts.
fn clone_string_vec(v: &Vec<String>) -> (r: Vec<String>)
    ensures
        r@.len() == v@.len(),
        forall|i: int| 0 <= i < r@.len() ==> #[trigger] r@[i]@ == v@[i]@,
{
    let mut r: Vec<String> = Vec::new();
    let n = v.len();
    for i in 0..n
        invariant
            n == v@.len(),
            r@.len() == i,
            forall|k: int| 0 <= k < i ==> #[trigger] r@[k]@ == v@[k]@,
    {
        r.push(v[i].clone());
    }
    r
}

/// What the configuration derivation produces, field by field: the marked
/// axis's value bounds, the label placements, the text sizes and the style
/// overrides over the defaults.
pub open spec fn config_matches(
    r: CoordinateSystemConfig,
    data_axis: BarChartDataAxis,
    x_axis_orientation: XAxisOrientation,
    y_axis_orientation: YAxisOrientation,
    datasets: Seq<Dataset>,
    cluster_names: Seq<String>,
    style: BarChartStyleInfoIced,
) -> bool {
    let big = spec_config_biggest(style.max_value, datasets);
    &&& (data_axis == BarChartDataAxis::XPositive || data_axis == BarChartDataAxis::XNegative)
        ==> {
        &&& r.x_text matches Some(t) && t@.len() == cluster_names.len() && (forall|i: int|
            0 <= i < t@.len() ==> #[trigger] t@[i]@ == cluster_names[i]@)
        &&& r.y_text is None
        &&& r.draw_cluster_label_on_x_axis == Some(
            if data_axis == BarChartDataAxis::XPositive {
                XAxisOrientation::Positive
            } else {
                XAxisOrientation::Negative
            },
        )
        &&& r.draw_marking_label_on_y_axis == Some(y_axis_orientation)
        &&& r.draw_cluster_label_on_y_axis is None
        &&& r.draw_marking_label_on_x_axis is None
        &&& r.y_max_value == (if y_axis_orientation != YAxisOrientation::Negative {
            big
        } else {
            0int
        })
        &&& r.y_min_value == (if y_axis_orientation != YAxisOrientation::Positive {
            -big
        } else {
            0int
        })
        &&& r.x_max_value == 0
        &&& r.x_min_value == 0
        &&& r.y_text_size == (match style.markings_text_size {
            Some(m) => m as int,
            None => 16int,
        })
        &&& r.x_text_size == (match style.cluster_text_size {
            Some(t) => t as int,
            None => 16int,
        })
    }
    &&& (data_axis == BarChartDataAxis::YPositive || data_axis == BarChartDataAxis::YNegative)
        ==> {
        &&& r.y_text matches Some(t) && t@.len() == cluster_names.len() && (forall|i: int|
            0 <= i < t@.len() ==> #[trigger] t@[i]@ == cluster_names[i]@)
        &&& r.x_text is None
        &&& r.draw_cluster_label_on_y_axis == Some(
            if data_axis == BarChartDataAxis::YPositive {
                YAxisOrientation::Positive
            } else {
                YAxisOrientation::Negative
            },
        )
        &&& r.draw_marking_label_on_x_axis == Some(x_axis_orientation)
        &&& r.draw_cluster_label_on_x_axis is None
        &&& r.draw_marking_label_on_y_axis is None
        &&& r.x_max_value == (if x_axis_orientation != XAxisOrientation::Negative {
            big
        } else {
            0int
        })
        &&& r.x_min_value == (if x_axis_orientation != XAxisOrientation::Positive {
            -big
        } else {
            0int
        })
        &&& r.y_max_value == 0
        &&& r.y_min_value == 0
        &&& r.x_text_size == (match style.markings_text_size {
            Some(m) => m as int,
            None => 16int,
        })
        &&& r.y_text_size == (match style.cluster_text_size {
            Some(t) => t as int,
            None => 16int,
        })
    }
    &&& r.x_marking_amount == style.x_marking_amount
    &&& r.y_marking_amount == style.y_marking_amount
    &&& r.axis_stroke_width == (match style.axis_stroke_width {
        Some(w) => w as int,
        None => 2int,
    })
    &&& r.axis_stroke_color == (match style.axis_stroke_color {
        Some(c) => c,
        None => Rgb { red: 0, green: 0, blue: 0 },
    })
    &&& r.separator_stroke_width == (match style.separator_stroke_width {
        Some(w) => w as int,
        None => 2int,
    })
    &&& r.separator_stroke_color == (match style.separator_stroke_color {
        Some(c) => c,
        None => Rgb { red: 175, green: 181, blue: 189 },
    })
    &&& (style.headline is Some <==> r.headline is Some)
    &&& (style.headline matches Some(h) ==> r.headline matches Some(rh) && rh@ == h@)
    &&& r.headline_color == (match style.headline_color {
        Some(c) => c,
        None => Rgb { red: 0, green: 0, blue: 0 },
    })
    &&& r.headline_size == (match style.headline_size {
        Some(t) => t as int,
        None => 16int,
    })
    &&& r.legend_alignment == style.legend_alignment
    &&& r.text_padding == (match style.text_padding {
        Some(p) => p as int,
        None => 5int,
    })
    &&& r.x_text_color == (Rgb { red: 0, green: 0, blue: 0 })
    &&& r.y_text_color == (Rgb { red: 0, green: 0, blue: 0 })
}

/// Derives the coordinate-system configuration from the chart's data axis,
/// orientation, data, cluster names and style: which axis carries cluster
/// labels and which carries numeric markings, the value bounds of the
/// marked axis, and the style overrides over the defaults.
#[verifier::rlimit(100)]
pub fn update_config(
    data_axis: &BarChartDataAxis,
    x_axis_orientation: &XAxisOrientation,
    y_axis_orientation: &YAxisOrientation,
    data: &BarChartData,
    cluster_names: &Vec<String>,
    style: &BarChartStyleInfoIced,
) -> (r: CoordinateSystemConfig)
    requires
        spec_compatible(*data_axis, *x_axis_orientation, *y_axis_orientation),
        data_wf(*data),
        style_wf(*style),
        cluster_names@.len() <= 65536,
    ensures
        config_wf(r),
        config_matches(
            r,
            *data_axis,
            *x_axis_orientation,
            *y_axis_orientation,
            data.datasets@,
            cluster_names@,
            *style,
        ),
{
    let biggest_entry_abs = data.get_biggest_data_entry_abs();
    let biggest_entry = match style.max_value {
        Some(max_value) => {
            if max_value > biggest_entry_abs {
                max_value
            } else {
                biggest_entry_abs
            }
        },
        None => biggest_entry_abs,
    };
    let mut coordinate_system_config = CoordinateSystemConfig::new();
    match data_axis {
        BarChartDataAxis::XPositive | BarChartDataAxis::XNegative => {
            let cluster_orientation = if matches!(data_axis, BarChartDataAxis::XPositive) {
                XAxisOrientation::Positive
            } else {
                XAxisOrientation::Negative
            };
            match y_axis_orientation {
                YAxisOrientation::Positive => {
                    coordinate_system_config.y_max_value = biggest_entry;
                },
                YAxisOrientation::Negative => {
                    coordinate_system_config.y_min_value = -biggest_entry;
                },
                YAxisOrientation::Complete => {
                    coordinate_system_config.y_max_value = biggest_entry;
                    coordinate_system_config.y_min_value = -biggest_entry;
                },
            }
            coordinate_system_config.draw_cluster_label_on_x_axis = Some(cluster_orientation);
            coordinate_system_config.draw_marking_label_on_y_axis = Some(*y_axis_orientation);
            if let Some(markings_text_size) = style.markings_text_size {
                coordinate_system_config.y_text_size = markings_text_size;
            }
            if let Some(clusters_text_size) = style.cluster_text_size {
                coordinate_system_config.x_text_size = clusters_text_size;
            }
            coordinate_system_config.x_text = Some(clone_string_vec(cluster_names));
        },
        BarChartDataAxis::YPositive | BarChartDataAxis::YNegative => {
            let cluster_orientation = if matches!(data_axis, BarChartDataAxis::YPositive) {
                YAxisOrientation::Positive
            } else {
                YAxisOrientation::Negative
            };
            match x_axis_orientation {
                XAxisOrientation::Positive => {
                    coordinate_system_config.x_max_value = biggest_entry;
                },
                XAxisOrientation::Negative => {
                    coordinate_system_config.x_min_value = -biggest_entry;
                },
                XAxisOrientation::Complete => {
                    coordinate_system_config.x_max_value = biggest_entry;
                    coordinate_system_config.x_min_value = -biggest_entry;
                },
            }
            coordinate_system_config.draw_cluster_label_on_y_axis = Some(cluster_orientation);
            coordinate_system_config.draw_marking_label_on_x_axis = Some(*x_axis_orientation);
            if let Some(markings_text_size) = style.markings_text_size {
                coordinate_system_config.x_text_size = markings_text_size;
            }
            if let Some(clusters_text_size) = style.cluster_text_size {
                coordinate_system_config.y_text_size = clusters_text_size;
            }
            coordinate_system_config.y_text = Some(clone_string_vec(cluster_names));
        },
    }
    coordinate_system_config.x_marking_amount = style.x_marking_amount;
    coordinate_system_config.y_marking_amount = style.y_marking_amount;
    if let Some(axis_stroke_width) = style.axis_stroke_width {
        coordinate_system_config.axis_stroke_width = axis_stroke_width;
    }
    if let Some(axis_stroke_color) = style.axis_stroke_color {
        coordinate_system_config.axis_stroke_color = axis_stroke_color;
    }
    if let Some(separator_stroke_width) = style.separator_stroke_width {
        coordinate_system_config.separator_stroke_width = separator_stroke_width;
    }
    if let Some(separator_stroke_color) = style.separator_stroke_color {
        coordinate_system_config.separator_stroke_color = separator_stroke_color;
    }
    coordinate_system_config.headline = match &style.headline {
        Some(h) => Some(h.clone()),
        None => None,
    };
    if let Some(headline_color) = style.headline_color {
        coordinate_system_config.headline_color = headline_color;
    }
    if let Some(headline_size) = style.headline_size {
        coordinate_system_config.headline_size = headline_size;
    }
    coordinate_system_config.legend_alignment = style.legend_alignment;
    if let Some(text_padding) = style.text_padding {
        coordinate_system_config.text_padding = text_padding;
    }
    coordinate_system_config
}

/// The lazily rebuilt hit-test state: the canvas size it was computed for,
/// the pass's fine-unit scale, and the laid-out bars.
#[derive(Debug)]
pub struct HitCache {
    pub width: i64,
    pub height: i64,
    pub scale: i128,
    pub bars: Vec<LaidOutBar>,
}

/// A bar chart: a validated orientation, its data and style, the derived
/// coordinate-system configuration, the scale-defining magnitude, and the
/// lazily rebuilt hit-test rectangle list.
#[derive(Debug)]
pub struct BarChartIcedStruct {
    pub coordinate_system: CoordinateSystem,
    pub data_axis: BarChartDataAxis,
    pub data: BarChartData,
    pub cluster_names: Vec<String>,
    pub style: BarChartStyleInfoIced,
    pub rectangle_list: Option<HitCache>,
    pub biggest_data_entry_abs: i64,
}

/// The layout input a chart hands the bar engine for a given geometry:
/// its orientation triple, the geometry, the style lengths brought to
/// quarter-pixel units, and the scale-defining magnitude.
pub open spec fn spec_chart_input(c: BarChartIcedStruct, a: AxisAndOrigin) -> BarLayoutInput {
    BarLayoutInput {
        data_axis: c.data_axis,
        x_axis_orientation: c.coordinate_system.x_axis_orientation,
        y_axis_orientation: c.coordinate_system.y_axis_orientation,
        axis_and_origin: a,
        maximum_bar_width: (4 * c.style.maximum_bar_width) as i64,
        min_cluster_spacing: (4 * c.style.min_cluster_spacing) as i64,
        bar_spacing: (4 * c.style.bar_spacing) as i64,
        biggest_data_entry_abs: c.biggest_data_entry_abs,
    }
}

/// When a hit cache is present, it is exactly what a layout pass over the
/// chart's current data at the cached canvas size produces.
pub open spec fn spec_cache_coherent(c: BarChartIcedStruct) -> bool {
    c.rectangle_list matches Some(cache) ==> {
        let inp = spec_chart_input(
            c,
            spec_axis_of(c.coordinate_system, cache.width as int, cache.height as int),
        );
        let bars = crate::bars::spec_layout_bars(inp, c.data, c.style.color_map@);
        &&& 0 <= cache.width <= DIM_LIMIT
        &&& 0 <= cache.height <= DIM_LIMIT
        &&& cache.bars@.len() == bars.len()
        &&& forall|i: int| 0 <= i < bars.len() ==> bar_view(#[trigger] cache.bars@[i]) == bars[i]
        &&& forall|i: int| 0 <= i < bars.len() ==> bar_in_range(#[trigger] cache.bars@[i])
        &&& spec_c(c.data) >= 1 && spec_s(c.data) >= 1 ==> cache.scale == spec_pass_scale(
            inp,
            c.data,
        )
        &&& spec_c(c.data) == 0 || spec_s(c.data) == 0 ==> cache.scale == 1
        &&& 1 <= cache.scale <= 200_000_000_000_000_000
    }
}

/// A chart's standing invariant: a compatible orientation triple,
/// well-formed data, style and configuration, a bounded scale magnitude,
/// and a coherent hit cache.
pub open spec fn chart_wf(c: BarChartIcedStruct) -> bool {
    &&& spec_compatible(
        c.data_axis,
        c.coordinate_system.x_axis_orientation,
        c.coordinate_system.y_axis_orientation,
    )
    &&& data_wf(c.data)
    &&& style_wf(c.style)
    &&& c.cluster_names@.len() <= 65536
    &&& config_wf(c.coordinate_system.coordinate_system_config)
    &&& 0 <= c.biggest_data_entry_abs <= VALUE_LIMIT
    &&& spec_cache_coherent(c)
}

/// The first bar of the walked list that contains the point, scanned from
/// index `i`; its value when one exists.
pub open spec fn spec_first_hit_from(bars: Seq<BarModel>, x: int, y: int, i: int) -> Option<int>
    decreases bars.len() - i,
{
    if i < 0 || i >= bars.len() {
        None
    } else if spec_bar_hit(bars[i], x, y) {
        Some(bars[i].value)
    } else {
        spec_first_hit_from(bars, x, y, i + 1)
    }
}

/// Whether a bar's hit-test rectangle contains the point: closed on the
/// low edges, open on the high edges.
pub open spec fn spec_bar_hit(b: BarModel, x: int, y: int) -> bool {
    &&& b.hx <= x < b.hx + b.hw
    &&& b.hy <= y < b.hy + b.hh
}

impl BarChartIcedStruct {
    /// Constructs a chart, rejecting any data axis that is incompatible
    /// with the coordinate-system orientation: the chart cannot exist in an
    /// invalid configuration.
    pub fn new(
        data_axis: BarChartDataAxis,
        x_axis_orientation: XAxisOrientation,
        y_axis_orientation: YAxisOrientation,
        data: BarChartData,
        cluster_names: Vec<String>,
        style: BarChartStyleInfoIced,
    ) -> (r: Result<BarChartIcedStruct, ChartsLibError>)
        requires
            data_wf(data),
            style_wf(style),
            cluster_names@.len() <= 65536,
        ensures
            r is Ok <==> spec_compatible(data_axis, x_axis_orientation, y_axis_orientation),
            r matches Err(e) ==> e.spec_kind() == ErrorKind::IncompatibleOrientationAndDataAxis,
            r matches Ok(chart) ==> {
                &&& chart_wf(chart)
                &&& chart.data_axis == data_axis
                &&& chart.coordinate_system.x_axis_orientation == x_axis_orientation
                &&& chart.coordinate_system.y_axis_orientation == y_axis_orientation
                &&& chart.data == data
                &&& chart.cluster_names == cluster_names
                &&& chart.style == style
                &&& chart.biggest_data_entry_abs == spec_biggest_abs(
                    style.max_value,
                    data.datasets@,
                )
                &&& chart.rectangle_list is None
                &&& config_matches(
                    chart.coordinate_system.coordinate_system_config,
                    data_axis,
                    x_axis_orientation,
                    y_axis_orientation,
                    data.datasets@,
                    cluster_names@,
                    style,
                )
            },
    {
        match validate(data_axis, x_axis_orientation, y_axis_orientation) {
            Err(e) => Err(e),
            Ok(()) => {
                let biggest_data_entry_abs = calculate_biggest_data_value(&style, &data);
                let config = update_config(
                    &data_axis,
                    &x_axis_orientation,
                    &y_axis_orientation,
                    &data,
                    &cluster_names,
                    &style,
                );
                Ok(
                    BarChartIcedStruct {
                        coordinate_system: CoordinateSystem::new(
                            x_axis_orientation,
                            y_axis_orientation,
                            config,
                        ),
                        data_axis,
                        data,
                        cluster_names,
                        style,
                        rectangle_list: None,
                        biggest_data_entry_abs,
                    },
                )
            },
        }
    }

    /// Recomputes the derived configuration and the scale-defining
    /// magnitude after a data change. With no series left, both keep
    /// their previous values.
    fn recalculate_after_data_changes(&mut self)
        requires
            spec_compatible(
                old(self).data_axis,
                old(self).coordinate_system.x_axis_orientation,
                old(self).coordinate_system.y_axis_orientation,
            ),
            data_wf(old(self).data),
            style_wf(old(self).style),
            old(self).cluster_names@.len() <= 65536,
        ensures
            final(self).data == old(self).data,
            final(self).data_axis == old(self).data_axis,
            final(self).coordinate_system.x_axis_orientation == old(
                self,
            ).coordinate_system.x_axis_orientation,
            final(self).coordinate_system.y_axis_orientation == old(
                self,
            ).coordinate_system.y_axis_orientation,
            final(self).cluster_names == old(self).cluster_names,
            final(self).style == old(self).style,
            final(self).rectangle_list == old(self).rectangle_list,
            old(self).data.datasets@.len() > 0 ==> {
                &&& final(self).biggest_data_entry_abs == spec_biggest_abs(
                    old(self).style.max_value,
                    old(self).data.datasets@,
                )
                &&& 0 <= final(self).biggest_data_entry_abs <= VALUE_LIMIT
                &&& config_wf(final(self).coordinate_system.coordinate_system_config)
                &&& config_matches(
                    final(self).coordinate_system.coordinate_system_config,
                    old(self).data_axis,
                    old(self).coordinate_system.x_axis_orientation,
                    old(self).coordinate_system.y_axis_orientation,
                    old(self).data.datasets@,
                    old(self).cluster_names@,
                    old(self).style,
                )
            },
            old(self).data.datasets@.len() == 0 ==> final(self).biggest_data_entry_abs == old(
                self,
            ).biggest_data_entry_abs && final(self).coordinate_system.coordinate_system_config
                == old(self).coordinate_system.coordinate_system_config,
    {
        if self.data.datasets.len() > 0 {
            let data_axis = self.data_axis;
            let xo = self.coordinate_system.x_axis_orientation;
            let yo = self.coordinate_system.y_axis_orientation;
            let config = update_config(
                &data_axis,
                &xo,
                &yo,
                &self.data,
                &self.cluster_names,
                &self.style,
            );
            self.coordinate_system.coordinate_system_config = config;
            self.biggest_data_entry_abs = calculate_biggest_data_value(&self.style, &self.data);
        }
    }

    /// Appends a series and invalidates every cached layout.
    pub fn add_dataset(&mut self, dataset: Dataset)
        requires
            chart_wf(*old(self)),
            dataset_wf(dataset),
            old(self).data.datasets@.len() < COUNT_LIMIT,
        ensures
            chart_wf(*final(self)),
            final(self).data.datasets@ == old(self).data.datasets@.push(dataset),
            final(self).rectangle_list is None,
            final(self).biggest_data_entry_abs == spec_biggest_abs(
                old(self).style.max_value,
                final(self).data.datasets@,
            ),
            config_matches(
                final(self).coordinate_system.coordinate_system_config,
                old(self).data_axis,
                old(self).coordinate_system.x_axis_orientation,
                old(self).coordinate_system.y_axis_orientation,
                final(self).data.datasets@,
                old(self).cluster_names@,
                old(self).style,
            ),
            final(self).data_axis == old(self).data_axis,
            final(self).coordinate_system.x_axis_orientation == old(
                self,
            ).coordinate_system.x_axis_orientation,
            final(self).coordinate_system.y_axis_orientation == old(
                self,
            ).coordinate_system.y_axis_orientation,
            final(self).cluster_names == old(self).cluster_names,
            final(self).style == old(self).style,
    {
        self.data.datasets.push(dataset);
        self.rectangle_list = None;
        self.recalculate_after_data_changes();
    }

    /// Replaces the whole dataset and invalidates every cached layout.
    pub fn replace_data(&mut self, data: BarChartData)
        requires
            chart_wf(*old(self)),
            data_wf(data),
        ensures
            chart_wf(*final(self)),
            final(self).data == data,
            final(self).rectangle_list is None,
            data.datasets@.len() > 0 ==> final(self).biggest_data_entry_abs == spec_biggest_abs(
                old(self).style.max_value,
                data.datasets@,
            ) && config_matches(
                final(self).coordinate_system.coordinate_system_config,
                old(self).data_axis,
                old(self).coordinate_system.x_axis_orientation,
                old(self).coordinate_system.y_axis_orientation,
                data.datasets@,
                old(self).cluster_names@,
                old(self).style,
            ),
            data.datasets@.len() == 0 ==> final(self).biggest_data_entry_abs == old(
                self,
            ).biggest_data_entry_abs && final(self).coordinate_system.coordinate_system_config
                == old(self).coordinate_system.coordinate_system_config,
            final(self).data_axis == old(self).data_axis,
            final(self).coordinate_system.x_axis_orientation == old(
                self,
            ).coordinate_system.x_axis_orientation,
            final(self).coordinate_system.y_axis_orientation == old(
                self,
            ).coordinate_system.y_axis_orientation,
            final(self).cluster_names == old(self).cluster_names,
            final(self).style == old(self).style,
    {
        self.data = data;
        self.rectangle_list = None;
        self.recalculate_after_data_changes();
    }

    /// Removes the last series, when one exists, and invalidates every
    /// cached layout. The scale-defining magnitude is recomputed from the
    /// remaining series; when none remain it keeps its previous value.
    pub fn remove_last_dataset(&mut self)
        requires
            chart_wf(*old(self)),
        ensures
            chart_wf(*final(self)),
            old(self).data.datasets@.len() == 0 ==> *final(self) == *old(self),
            old(self).data.datasets@.len() > 0 ==> {
                &&& final(self).data.datasets@ == old(self).data.datasets@.drop_last()
                &&& final(self).rectangle_list is None
                &&& final(self).data.datasets@.len() > 0 ==> final(self).biggest_data_entry_abs
                    == spec_biggest_abs(old(self).style.max_value, final(self).data.datasets@)
                    && config_matches(
                    final(self).coordinate_system.coordinate_system_config,
                    old(self).data_axis,
                    old(self).coordinate_system.x_axis_orientation,
                    old(self).coordinate_system.y_axis_orientation,
                    final(self).data.datasets@,
                    old(self).cluster_names@,
                    old(self).style,
                )
                &&& final(self).data.datasets@.len() == 0 ==> final(self).biggest_data_entry_abs
                    == old(self).biggest_data_entry_abs
                    && final(self).coordinate_system.coordinate_system_config == old(
                    self,
                ).coordinate_system.coordinate_system_config
            },
            final(self).data_axis == old(self).data_axis,
            final(self).coordinate_system.x_axis_orientation == old(
                self,
            ).coordinate_system.x_axis_orientation,
            final(self).coordinate_system.y_axis_orientation == old(
                self,
            ).coordinate_system.y_axis_orientation,
            final(self).cluster_names == old(self).cluster_names,
            final(self).style == old(self).style,
    {
        if self.data.datasets.len() == 0 {
            return ;
        }
        self.data.datasets.pop();
        self.rectangle_list = None;
        self.recalculate_after_data_changes();
    }

    /// Sets the headline and invalidates every cached layout, since the
    /// headline changes the reserved margins.
    pub fn set_headline(&mut self, headline: String)
        requires
            chart_wf(*old(self)),
        ensures
            chart_wf(*final(self)),
            final(self).coordinate_system.coordinate_system_config.headline matches Some(h)
                && h@ == headline@,
            final(self).rectangle_list is None,
            final(self).coordinate_system.coordinate_system_config == (CoordinateSystemConfig {
                headline: final(self).coordinate_system.coordinate_system_config.headline,
                ..old(self).coordinate_system.coordinate_system_config
            }),
            final(self).data == old(self).data,
            final(self).data_axis == old(self).data_axis,
            final(self).coordinate_system.x_axis_orientation == old(
                self,
            ).coordinate_system.x_axis_orientation,
            final(self).coordinate_system.y_axis_orientation == old(
                self,
            ).coordinate_system.y_axis_orientation,
            final(self).cluster_names == old(self).cluster_names,
            final(self).style == old(self).style,
            final(self).biggest_data_entry_abs == old(self).biggest_data_entry_abs,
    {
        self.coordinate_system.coordinate_system_config.headline = Some(headline);
        self.rectangle_list = None;
    }
}

/// Adding a series and then removing the last series restores the prior
/// series list and the prior scale-defining magnitude. The premises are
/// exactly what `add_dataset` and `remove_last_dataset` guarantee of a
/// chart whose series list was not empty before the round trip.
pub proof fn lemma_add_then_remove_restores(
    before: Seq<Dataset>,
    after_add: Seq<Dataset>,
    after_remove: Seq<Dataset>,
    max_value: Option<i64>,
    biggest_before: int,
    biggest_after_remove: int,
    d: Dataset,
)
    requires
        before.len() >= 1,
        biggest_before == spec_biggest_abs(max_value, before),
        after_add == before.push(d),
        after_remove == after_add.drop_last(),
        biggest_after_remove == spec_biggest_abs(max_value, after_remove),
    ensures
        after_remove == before,
        biggest_after_remove == biggest_before,
{
    assert(after_add.drop_last() =~= before);
}

impl BarChartIcedStruct {
    /// The bar width and cluster spacing of a pass over the given arm
    /// length, in fine units of the pass's scale.
    pub fn calculate_bar_width_and_cluster_spacing(&self, axis_length: i64) -> (r: (i128, i128))
        requires
            chart_wf(*self),
            0 <= axis_length <= 4 * DIM_LIMIT,
            spec_c(self.data) >= 1,
            spec_s(self.data) >= 1,
        ensures
            r.0 == crate::bars::spec_bar_width_fine(
                axis_length as int,
                spec_c(self.data),
                spec_s(self.data),
                4 * self.style.min_cluster_spacing,
                4 * self.style.bar_spacing,
                4 * self.style.maximum_bar_width,
                if self.biggest_data_entry_abs < 1 {
                    1int
                } else {
                    self.biggest_data_entry_abs as int
                },
            ),
            r.1 == crate::bars::spec_cluster_spacing_fine(
                axis_length as int,
                spec_c(self.data),
                spec_s(self.data),
                4 * self.style.min_cluster_spacing,
                4 * self.style.bar_spacing,
                4 * self.style.maximum_bar_width,
                if self.biggest_data_entry_abs < 1 {
                    1int
                } else {
                    self.biggest_data_entry_abs as int
                },
            ),
    {
        proof {
            crate::data::lemma_max_len_bounded(self.data.datasets@);
        }
        let c = self.data.get_biggest_amount_of_data_entries_in_one_dataset();
        let s = self.data.datasets.len();
        let mn = if self.biggest_data_entry_abs < 1 {
            1
        } else {
            self.biggest_data_entry_abs
        };
        crate::bars::calculate_bar_width_and_cluster_spacing(
            axis_length,
            c,
            s,
            4 * self.style.min_cluster_spacing,
            4 * self.style.bar_spacing,
            4 * self.style.maximum_bar_width,
            mn,
        )
    }

    /// Runs the bar layout pass for the given geometry.
    pub fn draw_bars(&self, axis_and_origin: &AxisAndOrigin) -> (r: BarLayout)
        requires
            chart_wf(*self),
            axis_in_range(*axis_and_origin),
        ensures
            ({
                let inp = spec_chart_input(*self, *axis_and_origin);
                let bars = crate::bars::spec_layout_bars(inp, self.data, self.style.color_map@);
                &&& r.bars@.len() == bars.len()
                &&& forall|i: int|
                    0 <= i < r.bars@.len() ==> bar_view(#[trigger] r.bars@[i]) == bars[i]
                &&& forall|i: int| 0 <= i < r.bars@.len() ==> bar_in_range(#[trigger] r.bars@[i])
                &&& spec_c(self.data) >= 1 && spec_s(self.data) >= 1 ==> r.scale
                    == spec_pass_scale(inp, self.data) && r.bar_width
                    == crate::bars::spec_pass_bar_width(inp, self.data) && r.cluster_spacing
                    == crate::bars::spec_pass_cluster_spacing(inp, self.data)
                &&& spec_c(self.data) == 0 || spec_s(self.data) == 0 ==> r.scale == 1
                    && r.bars@.len() == 0
                &&& 1 <= r.scale <= 200_000_000_000_000_000
            }),
    {
        let input = BarLayoutInput {
            data_axis: self.data_axis,
            x_axis_orientation: self.coordinate_system.x_axis_orientation,
            y_axis_orientation: self.coordinate_system.y_axis_orientation,
            axis_and_origin: *axis_and_origin,
            maximum_bar_width: 4 * self.style.maximum_bar_width,
            min_cluster_spacing: 4 * self.style.min_cluster_spacing,
            bar_spacing: 4 * self.style.bar_spacing,
            biggest_data_entry_abs: self.biggest_data_entry_abs,
        };
        layout_bars(&input, &self.data, &self.style.color_map)
    }

    /// Builds the hit-test rectangle list for the given canvas size, the
    /// full layout pass without any painting.
    fn create_rectangle_list_for_hover(&self, width: i64, height: i64) -> (r: HitCache)
        requires
            chart_wf(*self),
            0 <= width <= DIM_LIMIT,
            0 <= height <= DIM_LIMIT,
        ensures
            r.width == width,
            r.height == height,
            ({
                let inp = spec_chart_input(
                    *self,
                    spec_axis_of(self.coordinate_system, width as int, height as int),
                );
                let bars = crate::bars::spec_layout_bars(inp, self.data, self.style.color_map@);
                &&& r.bars@.len() == bars.len()
                &&& forall|i: int|
                    0 <= i < bars.len() ==> bar_view(#[trigger] r.bars@[i]) == bars[i]
                &&& forall|i: int| 0 <= i < bars.len() ==> bar_in_range(#[trigger] r.bars@[i])
                &&& spec_c(self.data) >= 1 && spec_s(self.data) >= 1 ==> r.scale
                    == spec_pass_scale(inp, self.data)
                &&& spec_c(self.data) == 0 || spec_s(self.data) == 0 ==> r.scale == 1
                &&& 1 <= r.scale <= 200_000_000_000_000_000
            }),
    {
        let axis_and_origin = self.coordinate_system.calculate_axis_length_and_origin(
            width,
            height,
        );
        let layout = self.draw_bars(&axis_and_origin);
        HitCache { width, height, scale: layout.scale, bars: layout.bars }
    }

    /// Answers which bar, if any, contains the canvas point `(x, y)` (in
    /// pixels), and returns its value. The rectangle list is rebuilt
    /// lazily: only when no coherent list for this canvas size is cached.
    #[verifier::loop_isolation(false)]
    pub fn hit_test(&mut self, width: i64, height: i64, x: i64, y: i64) -> (r: Option<i64>)
        requires
            chart_wf(*old(self)),
            0 <= width <= DIM_LIMIT,
            0 <= height <= DIM_LIMIT,
            0 <= x <= DIM_LIMIT,
            0 <= y <= DIM_LIMIT,
        ensures
            chart_wf(*final(self)),
            final(self).data == old(self).data,
            final(self).data_axis == old(self).data_axis,
            final(self).coordinate_system == old(self).coordinate_system,
            final(self).cluster_names == old(self).cluster_names,
            final(self).style == old(self).style,
            final(self).biggest_data_entry_abs == old(self).biggest_data_entry_abs,
            ({
                let inp = spec_chart_input(
                    *old(self),
                    spec_axis_of(old(self).coordinate_system, width as int, height as int),
                );
                let bars = crate::bars::spec_layout_bars(
                    inp,
                    old(self).data,
                    old(self).style.color_map@,
                );
                let scl: int = if spec_c(old(self).data) >= 1 && spec_s(old(self).data) >= 1 {
                    spec_pass_scale(inp, old(self).data)
                } else {
                    1
                };
                let hit = spec_first_hit_from(bars, 4 * x * scl, 4 * y * scl, 0);
                &&& (r matches Some(v) ==> hit == Some(v as int))
                &&& (r is None ==> hit is None)
            }),
    {
        let rebuild = match &self.rectangle_list {
            Some(cache) => cache.width != width || cache.height != height,
            None => true,
        };
        if rebuild {
            let cache = self.create_rectangle_list_for_hover(width, height);
            self.rectangle_list = Some(cache);
        }
        let cache = match &self.rectangle_list {
            Some(cache) => cache,
            None => {
                return None;
            },
        };
        proof {
            lemma_mul_abs_bound_chart(4 * x as int, cache.scale as int);
            lemma_mul_abs_bound_chart(4 * y as int, cache.scale as int);
        }
        let fx: i128 = 4 * (x as i128) * cache.scale;
        let fy: i128 = 4 * (y as i128) * cache.scale;
        let ghost inp = spec_chart_input(
            *self,
            spec_axis_of(self.coordinate_system, width as int, height as int),
        );
        let ghost bars_model = crate::bars::spec_layout_bars(
            inp,
            self.data,
            self.style.color_map@,
        );
        let n = cache.bars.len();
        for i in 0..n
            invariant
                n == cache.bars@.len(),
                n == bars_model.len(),
                forall|k2: int|
                    0 <= k2 < n ==> bar_view(#[trigger] cache.bars@[k2]) == bars_model[k2],
                forall|k2: int| 0 <= k2 < n ==> bar_in_range(#[trigger] cache.bars@[k2]),
                spec_first_hit_from(bars_model, fx as int, fy as int, 0) == spec_first_hit_from(
                    bars_model,
                    fx as int,
                    fy as int,
                    i as int,
                ),
        {
            let b = &cache.bars[i];
            let hb = b.hit_bounds;
            if hb.x <= fx && fx < hb.x + hb.width && hb.y <= fy && fy < hb.y + hb.height {
                proof {
                    assert(spec_bar_hit(bars_model[i as int], fx as int, fy as int));
                }
                return Some(b.value);
            }
        }
        None
    }
}

/// A scaled point coordinate stays far inside `i128`.
proof fn lemma_mul_abs_bound_chart(a: int, b: int)
    requires
        0 <= a <= 4_000_000,
        1 <= b <= 200_000_000_000_000_000,
    ensures
        0 <= a * b <= 0x1_0000_0000_0000_0000_0000_0000,
{
    assert(0 <= a * b <= 0x1_0000_0000_0000_0000_0000_0000int) by (nonlinear_arith)
        requires
            0 <= a <= 4_000_000,
            1 <= b <= 200_000_000_000_000_000,
    ;
}

} // verus!
