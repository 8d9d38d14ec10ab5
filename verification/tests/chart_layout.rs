use std::collections::HashMap;

use chart_layout::axis::{compatible, validate, BarChartDataAxis, XAxisOrientation, YAxisOrientation};
use chart_layout::bars::calculate_bar_width_and_cluster_spacing;
use chart_layout::chart::{calculate_biggest_data_value, BarChartIcedStruct};
use chart_layout::color::{resolve_color, standard_color, Rgb};
use chart_layout::coord::{
    AxisAndOrigin, CoordinateSystem, CoordinateSystemConfig, Point,
};
use chart_layout::data::{BarChartData, Dataset};
use chart_layout::error::ErrorKind;
use chart_layout::num::centi_label;
use chart_layout::style::BarChartStyleInfoIced;
use chart_layout::util::{
    placeholder_get_max_text_height, placeholder_get_max_text_width, placeholder_get_text_height,
    placeholder_get_text_width,
};

fn axes() -> [BarChartDataAxis; 4] {
    [
        BarChartDataAxis::XPositive,
        BarChartDataAxis::XNegative,
        BarChartDataAxis::YPositive,
        BarChartDataAxis::YNegative,
    ]
}

fn x_orients() -> [XAxisOrientation; 3] {
    [XAxisOrientation::Positive, XAxisOrientation::Negative, XAxisOrientation::Complete]
}

fn y_orients() -> [YAxisOrientation; 3] {
    [YAxisOrientation::Positive, YAxisOrientation::Negative, YAxisOrientation::Complete]
}

/// The compatibility table: three valid orientation pairs per data axis,
/// six invalid ones, matching the table exactly.
#[test]
fn validate_matches_table_for_all_pairs() {
    for axis in axes() {
        let mut valid = 0;
        for xo in x_orients() {
            for yo in y_orients() {
                let expected = match axis {
                    BarChartDataAxis::XPositive => xo == XAxisOrientation::Positive,
                    BarChartDataAxis::XNegative => xo == XAxisOrientation::Negative,
                    BarChartDataAxis::YPositive => yo == YAxisOrientation::Positive,
                    BarChartDataAxis::YNegative => yo == YAxisOrientation::Negative,
                };
                assert_eq!(compatible(axis, xo, yo), expected);
                let r = validate(axis, xo, yo);
                assert_eq!(r.is_ok(), expected);
                if let Err(e) = r {
                    assert!(matches!(e.kind(), ErrorKind::IncompatibleOrientationAndDataAxis));
                }
                if expected {
                    valid += 1;
                }
            }
        }
        assert_eq!(valid, 3);
    }
}

/// Constructing with DataAxis Y-Positive in an (X Positive, Y Negative)
/// coordinate system fails with the incompatible-orientation error.
#[test]
fn incompatible_construction_is_rejected() {
    let data = BarChartData::new(vec![Dataset::new(0, String::from("a"), vec![100])]);
    let r = BarChartIcedStruct::new(
        BarChartDataAxis::YPositive,
        XAxisOrientation::Positive,
        YAxisOrientation::Negative,
        data,
        vec![String::from("one")],
        BarChartStyleInfoIced::new(),
    );
    match r {
        Ok(_) => panic!("incompatible configuration was accepted"),
        Err(e) => {
            assert!(matches!(e.kind(), ErrorKind::IncompatibleOrientationAndDataAxis));
        }
    }
}

/// With the default (empty) configuration no margins are reserved, so the
/// plotting box is the whole canvas in quarter-pixel units, and each axis's
/// arms sum exactly to it.
#[test]
fn geometry_arms_partition_plotting_box() {
    for xo in x_orients() {
        for yo in y_orients() {
            let cs = CoordinateSystem::new(xo, yo, CoordinateSystemConfig::new());
            for (w, h) in [(400i64, 300i64), (401, 301), (0, 0), (7, 1000000)] {
                let a = cs.calculate_axis_length_and_origin(w, h);
                assert!(a.x_axis_positive_length >= 0);
                assert!(a.x_axis_negative_length >= 0);
                assert!(a.y_axis_positive_length >= 0);
                assert!(a.y_axis_negative_length >= 0);
                assert_eq!(a.x_axis_positive_length + a.x_axis_negative_length, 4 * w);
                assert_eq!(a.y_axis_positive_length + a.y_axis_negative_length, 4 * h);
                if xo == XAxisOrientation::Complete {
                    assert_eq!(a.x_axis_positive_length, a.x_axis_negative_length);
                }
                if yo == YAxisOrientation::Complete {
                    assert_eq!(a.y_axis_positive_length, a.y_axis_negative_length);
                }
            }
        }
    }
}

/// A chart's reserved margins still leave arms that partition the
/// remaining plotting box.
#[test]
fn geometry_arms_partition_box_with_margins() {
    let data = BarChartData::new(vec![Dataset::new(0, String::from("a"), vec![100, 200])]);
    let chart = BarChartIcedStruct::new(
        BarChartDataAxis::XPositive,
        XAxisOrientation::Positive,
        YAxisOrientation::Positive,
        data,
        vec![String::from("one"), String::from("two")],
        BarChartStyleInfoIced::new(),
    )
    .unwrap();
    let cs = &chart.coordinate_system;
    let sc = cs.calculate_spacing();
    let a = cs.calculate_axis_length_and_origin(400, 300);
    let box_w = (4 * 400 - sc.space_left - sc.space_right).max(0);
    let box_h = (4 * 300 - sc.space_top - sc.space_bottom).max(0);
    assert_eq!(a.x_axis_positive_length + a.x_axis_negative_length, box_w);
    assert_eq!(a.y_axis_positive_length + a.y_axis_negative_length, box_h);
    // x-positive chart: y markings reserve width left and half-heights top
    // and bottom; cluster labels reserve height at the bottom.
    assert_eq!(sc.space_left, 120);
    assert_eq!(sc.space_top, 40);
    assert_eq!(sc.space_bottom, 120);
    assert_eq!(sc.space_right, 0);
}

/// Bar width is clamped to the configured maximum and the freed space is
/// redistributed so that the consumed axis length still equals the arm.
#[test]
fn bar_width_clamped_and_arm_fully_consumed() {
    // arm 416 quarter-units, 2 clusters of 2 series, minimum cluster
    // spacing 4, no bar spacing, maximum width 8, unit magnitude.
    let (bw, cs) = calculate_bar_width_and_cluster_spacing(416, 2, 2, 4, 0, 8, 1);
    let scale: i128 = 2 * 2 * 2 * 1;
    assert_eq!(bw, 8 * scale);
    assert_eq!(cs, 4 * scale + (400 - 32) * 2);
    let consumed = 2 * (2 * cs + 2 * bw + 0);
    assert_eq!(consumed, 416 * scale);
}

/// Without clamping the exact unclamped width comes back and the arm is
/// also fully consumed.
#[test]
fn bar_width_unclamped_consumes_arm() {
    // arm 100, 2 clusters of 2 series, spacing 4, bar spacing 2, max 1000.
    let (bw, cs) = calculate_bar_width_and_cluster_spacing(100, 2, 2, 4, 2, 1000, 1);
    let scale: i128 = 8;
    // width numerator: 100 - 2*2*4 - 2*1*2 = 80, over c*s = 4.
    assert_eq!(bw, 80 * 2);
    assert_eq!(cs, 4 * scale);
    let consumed = 2 * (2 * cs + 2 * bw + 1 * 2 * scale);
    assert_eq!(consumed, 100 * scale);
}

fn scenario_chart() -> BarChartIcedStruct {
    let d0 = Dataset::new(0, String::from("first"), vec![100, -50]);
    let d1 = Dataset::new(1, String::from("second"), vec![200, 100]);
    BarChartIcedStruct::new(
        BarChartDataAxis::XPositive,
        XAxisOrientation::Positive,
        YAxisOrientation::Positive,
        BarChartData::new(vec![d0, d1]),
        vec![String::from("one"), String::from("two")],
        BarChartStyleInfoIced::new(),
    )
    .unwrap()
}

/// The scenario with two series over two clusters in a positive/positive
/// coordinate system: the negative value of cluster one is suppressed,
/// the three non-negative values paint, and the largest magnitude is 2.0.
#[test]
fn positive_chart_suppresses_negative_values() {
    let chart = scenario_chart();
    assert_eq!(chart.biggest_data_entry_abs, 200);
    // A margin-free 400 x 300 canvas: full arms, origin bottom-left.
    let axis = AxisAndOrigin::new((1600, 0, 1200, 0, Point { x: 0, y: 1200 }));
    let layout = chart.draw_bars(&axis);
    let values: Vec<i64> = layout.bars.iter().map(|b| b.value).collect();
    assert_eq!(values, vec![100, 200, 100]);
}

/// The single largest-magnitude value scales to the full indicator arm
/// length, exactly.
#[test]
fn biggest_value_spans_full_arm() {
    let chart = scenario_chart();
    let axis = AxisAndOrigin::new((1600, 0, 1200, 0, Point { x: 0, y: 1200 }));
    let layout = chart.draw_bars(&axis);
    // scale = 2 * clusters * series * max = 2 * 2 * 2 * 200.
    assert_eq!(layout.scale, 1600);
    let full = layout.bars.iter().find(|b| b.value == 200).unwrap();
    assert_eq!(full.bounds.height, 1200 * layout.scale);
    // A half-magnitude value spans half the arm.
    let half = layout.bars.iter().find(|b| b.value == 100).unwrap();
    assert_eq!(half.bounds.height, 600 * layout.scale);
}

/// Every hit-test rectangle spans the full indicator arm, independent of
/// the bar's own scaled length, while matching the paint rectangle's
/// width.
#[test]
fn hit_rectangles_span_full_arm() {
    let chart = scenario_chart();
    let axis = AxisAndOrigin::new((1600, 0, 1200, 0, Point { x: 0, y: 1200 }));
    let layout = chart.draw_bars(&axis);
    assert_eq!(layout.bars.len(), 3);
    for b in layout.bars.iter() {
        assert_eq!(b.hit_bounds.height, 1200 * layout.scale);
        assert_eq!(b.hit_bounds.y, 0);
        assert_eq!(b.hit_bounds.width, b.bounds.width);
        assert_eq!(b.hit_bounds.x, b.bounds.x);
    }
}

/// Adding a series and then removing the last series restores the prior
/// series list and the prior scale-defining magnitude.
#[test]
fn add_then_remove_restores_series_and_scale() {
    let mut chart = scenario_chart();
    let before: Vec<(u32, String, Vec<i64>)> = chart
        .data
        .datasets
        .iter()
        .map(|d| (d.id, d.name.clone(), d.data.clone()))
        .collect();
    let biggest_before = chart.biggest_data_entry_abs;
    chart.add_dataset(Dataset::new(7, String::from("extra"), vec![900, -400]));
    assert_eq!(chart.biggest_data_entry_abs, 900);
    chart.remove_last_dataset();
    let after: Vec<(u32, String, Vec<i64>)> = chart
        .data
        .datasets
        .iter()
        .map(|d| (d.id, d.name.clone(), d.data.clone()))
        .collect();
    assert_eq!(after, before);
    assert_eq!(chart.biggest_data_entry_abs, biggest_before);
}

/// Removing from an empty chart is a no-op.
#[test]
fn remove_from_empty_chart_is_noop() {
    let mut chart = BarChartIcedStruct::new(
        BarChartDataAxis::XPositive,
        XAxisOrientation::Positive,
        YAxisOrientation::Positive,
        BarChartData::new(vec![]),
        vec![],
        BarChartStyleInfoIced::new(),
    )
    .unwrap();
    chart.remove_last_dataset();
    assert_eq!(chart.data.datasets.len(), 0);
}

/// Marking generation for the range 0..10 with five markings yields the
/// evenly spaced two-decimal labels.
#[test]
fn marking_labels_for_zero_to_ten() {
    let cs = CoordinateSystem::new(
        XAxisOrientation::Positive,
        YAxisOrientation::Positive,
        CoordinateSystemConfig::new(),
    );
    let labels = cs.create_axis_markings_texts_vector(0, 1000, 5, false);
    assert_eq!(labels, vec!["0", "2.5", "5", "7.5", "10"]);
}

/// Marking generation edge cases: no markings, a single marking, and a
/// negative-arm magnitude with the explicit minus prefix.
#[test]
fn marking_labels_edge_cases() {
    let cs = CoordinateSystem::new(
        XAxisOrientation::Positive,
        YAxisOrientation::Positive,
        CoordinateSystemConfig::new(),
    );
    assert_eq!(cs.create_axis_markings_texts_vector(0, 1000, 0, false).len(), 0);
    assert_eq!(cs.create_axis_markings_texts_vector(0, 1000, 1, false), vec!["0"]);
    assert_eq!(
        cs.create_axis_markings_texts_vector(0, -300, 4, true),
        vec!["-0", "-1", "-2", "-3"]
    );
}

/// Value rendering in hundredths: whole values drop the fraction, tenths
/// keep one digit, hundredths keep two.
#[test]
fn centi_labels_render_exactly() {
    assert_eq!(centi_label(0, false), "0");
    assert_eq!(centi_label(250, false), "2.5");
    assert_eq!(centi_label(1000, false), "10");
    assert_eq!(centi_label(123, false), "1.23");
    assert_eq!(centi_label(120, false), "1.2");
    assert_eq!(centi_label(5, false), "0.05");
    assert_eq!(centi_label(1000, true), "-10");
}

/// The scale-defining magnitude is the maximum of the data magnitudes and
/// the configured maximum's magnitude.
#[test]
fn biggest_value_combines_data_and_style() {
    let data = BarChartData::new(vec![
        Dataset::new(0, String::from("a"), vec![100, -350]),
        Dataset::new(1, String::from("b"), vec![200]),
    ]);
    let mut style = BarChartStyleInfoIced::new();
    assert_eq!(calculate_biggest_data_value(&style, &data), 350);
    style.max_value = Some(-500);
    assert_eq!(calculate_biggest_data_value(&style, &data), 500);
    style.max_value = Some(10);
    assert_eq!(calculate_biggest_data_value(&style, &data), 350);
}

/// Series colors resolve through the override map first, then the default
/// palette by id modulo its size.
#[test]
fn colors_resolve_via_overrides_then_palette() {
    let mut overrides: HashMap<u32, Rgb> = HashMap::new();
    overrides.insert(3, Rgb { red: 1, green: 2, blue: 3 });
    assert_eq!(resolve_color(&overrides, 3), Rgb { red: 1, green: 2, blue: 3 });
    assert_eq!(resolve_color(&overrides, 12), standard_color(1));
    assert_eq!(resolve_color(&overrides, 0), standard_color(0));
}

/// The placeholder text metrics are fixed, and zero for empty text lists.
#[test]
fn placeholder_metrics_are_fixed() {
    assert_eq!(placeholder_get_text_width("anything"), 30);
    assert_eq!(placeholder_get_text_height(""), 20);
    assert_eq!(placeholder_get_max_text_width(&vec![]), 0);
    assert_eq!(placeholder_get_max_text_height(&vec![String::from("x")]), 20);
}

/// Hovering inside a bar's column returns its value; hovering outside
/// returns nothing; mutating the data invalidates the cached rectangles.
#[test]
fn hit_test_finds_bar_and_respects_invalidation() {
    let mut chart = BarChartIcedStruct::new(
        BarChartDataAxis::XPositive,
        XAxisOrientation::Positive,
        YAxisOrientation::Positive,
        BarChartData::new(vec![Dataset::new(0, String::from("a"), vec![100])]),
        vec![String::from("one")],
        BarChartStyleInfoIced::new(),
    )
    .unwrap();
    assert_eq!(chart.hit_test(400, 300, 200, 100), Some(100));
    assert!(chart.rectangle_list.is_some());
    assert_eq!(chart.hit_test(400, 300, 10, 10), None);
    chart.add_dataset(Dataset::new(1, String::from("b"), vec![-100]));
    assert!(chart.rectangle_list.is_none());
}
