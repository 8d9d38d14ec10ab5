//! A mutable holder a renderer can populate step by step with the values
//! of one drawing pass.

use vstd::prelude::*;

use crate::coord::{AxisAndOrigin, Point, SpaceCalculator};

verus! {

/// Read access to the values of one drawing pass.
pub trait DrawingHelper {
    fn get_x_axis_positive_length(&self) -> i64;

    fn get_x_axis_negative_length(&self) -> i64;

    fn get_y_axis_positive_length(&self) -> i64;

    fn get_y_axis_negative_length(&self) -> i64;

    fn get_origin(&self) -> Point;

    fn get_space_calculator(&self) -> SpaceCalculator;

    fn get_cluster_amount(&self) -> usize;
}

/// The values of one bar-chart drawing pass, populated piecewise. Lengths
/// are in quarter-pixel units; widths and spacings in fine units.
#[derive(Debug)]
pub struct BarChartDrawingHelper {
    cluster_amount: usize,
    amount_of_bars_in_per_cluster: usize,
    bar_width: i128,
    cluster_spacing: i128,
    x_axis_positive_length: i64,
    x_axis_negative_length: i64,
    y_axis_positive_length: i64,
    y_axis_negative_length: i64,
    origin: Point,
    space_calculator: SpaceCalculator,
}

impl BarChartDrawingHelper {
    /// The populated geometry, as spec values.
    pub closed spec fn spec_axis(&self) -> (i64, i64, i64, i64, Point) {
        (
            self.x_axis_positive_length,
            self.x_axis_negative_length,
            self.y_axis_positive_length,
            self.y_axis_negative_length,
            self.origin,
        )
    }

    /// The populated bar width and cluster spacing, as spec values.
    pub closed spec fn spec_bar_width_and_cluster_spacing(&self) -> (i128, i128) {
        (self.bar_width, self.cluster_spacing)
    }

    /// The populated space calculator, as a spec value.
    pub closed spec fn spec_space(&self) -> SpaceCalculator {
        self.space_calculator
    }

    /// The counts the helper was created with, as spec values.
    pub closed spec fn spec_counts(&self) -> (usize, usize) {
        (self.cluster_amount, self.amount_of_bars_in_per_cluster)
    }

    pub fn new(cluster_amount: usize, amount_of_bars_in_per_cluster: usize) -> (r:
        BarChartDrawingHelper)
        ensures
            r.spec_counts() == (cluster_amount, amount_of_bars_in_per_cluster),
            r.spec_axis() == (0i64, 0i64, 0i64, 0i64, Point { x: 0, y: 0 }),
            r.spec_bar_width_and_cluster_spacing() == (0i128, 0i128),
            r.spec_space() == (SpaceCalculator {
                space_top: 0,
                space_bottom: 0,
                space_left: 0,
                space_right: 0,
            }),
    {
        BarChartDrawingHelper {
            cluster_amount,
            amount_of_bars_in_per_cluster,
            bar_width: 0,
            cluster_spacing: 0,
            x_axis_positive_length: 0,
            x_axis_negative_length: 0,
            y_axis_positive_length: 0,
            y_axis_negative_length: 0,
            origin: Point { x: 0, y: 0 },
            space_calculator: SpaceCalculator {
                space_top: 0,
                space_bottom: 0,
                space_left: 0,
                space_right: 0,
            },
        }
    }

    pub fn populate_axis_and_origin(&mut self, axis_data: &AxisAndOrigin)
        ensures
            final(self).spec_axis() == (
                axis_data.x_axis_positive_length,
                axis_data.x_axis_negative_length,
                axis_data.y_axis_positive_length,
                axis_data.y_axis_negative_length,
                axis_data.origin,
            ),
            final(self).spec_counts() == old(self).spec_counts(),
            final(self).spec_bar_width_and_cluster_spacing() == old(
                self,
            ).spec_bar_width_and_cluster_spacing(),
            final(self).spec_space() == old(self).spec_space(),
    {
        self.x_axis_positive_length = axis_data.x_axis_positive_length;
        self.x_axis_negative_length = axis_data.x_axis_negative_length;
        self.y_axis_positive_length = axis_data.y_axis_positive_length;
        self.y_axis_negative_length = axis_data.y_axis_negative_length;
        self.origin = axis_data.origin;
    }

    pub fn populate_space_calculator(&mut self, space_calculator: SpaceCalculator)
        ensures
            final(self).spec_space() == space_calculator,
            final(self).spec_counts() == old(self).spec_counts(),
            final(self).spec_axis() == old(self).spec_axis(),
            final(self).spec_bar_width_and_cluster_spacing() == old(
                self,
            ).spec_bar_width_and_cluster_spacing(),
    {
        self.space_calculator = space_calculator;
    }

    pub fn populate_bar_width_and_cluster_spacing(
        &mut self,
        bar_width_and_cluster_spacing: (i128, i128),
    )
        ensures
            final(self).spec_bar_width_and_cluster_spacing() == bar_width_and_cluster_spacing,
            final(self).spec_counts() == old(self).spec_counts(),
            final(self).spec_axis() == old(self).spec_axis(),
            final(self).spec_space() == old(self).spec_space(),
    {
        self.bar_width = bar_width_and_cluster_spacing.0;
        self.cluster_spacing = bar_width_and_cluster_spacing.1;
    }

    pub fn get_amount_of_bars_in_per_cluster(&self) -> (r: usize)
        ensures
            r == self.spec_counts().1,
    {
        self.amount_of_bars_in_per_cluster
    }
}

impl DrawingHelper for BarChartDrawingHelper {
    fn get_x_axis_positive_length(&self) -> i64 {
        self.x_axis_positive_length
    }

    fn get_x_axis_negative_length(&self) -> i64 {
        self.x_axis_negative_length
    }

    fn get_y_axis_positive_length(&self) -> i64 {
        self.y_axis_positive_length
    }

    fn get_y_axis_negative_length(&self) -> i64 {
        self.y_axis_negative_length
    }

    fn get_origin(&self) -> Point {
        self.origin
    }

    fn get_space_calculator(&self) -> SpaceCalculator {
        self.space_calculator
    }

    fn get_cluster_amount(&self) -> usize {
        self.cluster_amount
    }
}

} // verus!
