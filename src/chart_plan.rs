//! The layout of the line chart of a series: canvas and margins, title and
//! axis labels, the two scales and the pixel position of every point.
use vstd::prelude::*;
use crate::date::iso_text;
use crate::data_point::DataPoint;
use crate::chart_model::{ChartModel, dates_wf};
use crate::scale::{
    BandScale, LinearScale, Pixel, band_offset, linear_pixel, pixel_lt, lemma_band_offsets_increase,
    lemma_linear_decreasing,
};

verus! {

pub const CHART_WIDTH: u32 = 800;
pub const CHART_HEIGHT: u32 = 600;
pub const MARGIN_TOP: u32 = 90;
pub const MARGIN_RIGHT: u32 = 40;
pub const MARGIN_BOTTOM: u32 = 50;
pub const MARGIN_LEFT: u32 = 60;
/// Fewest points a chart is drawn from.
pub const MIN_CHART_POINTS: usize = 2;
/// Width of the plotting area inside the margins.
pub const INNER_WIDTH: u32 = 700;
/// Height of the plotting area inside the margins.
pub const INNER_HEIGHT: u32 = 460;

/// Smallest value among the points.
pub open spec fn min_value(s: Seq<DataPoint>) -> int
    decreases s.len(),
{
    if s.len() <= 1 {
        s[0].acre_feet as int
    } else {
        let rest = min_value(s.drop_last());
        let last = s.last().acre_feet as int;
        if last < rest { last } else { rest }
    }
}

/// Largest value among the points.
pub open spec fn max_value(s: Seq<DataPoint>) -> int
    decreases s.len(),
{
    if s.len() <= 1 {
        s[0].acre_feet as int
    } else {
        let rest = max_value(s.drop_last());
        let last = s.last().acre_feet as int;
        if last > rest { last } else { rest }
    }
}

/// Why no chart can be laid out.
#[derive(Debug, PartialEq, Eq, Structural)]
pub enum ChartError {
    /// A chart needs at least `MIN_CHART_POINTS` points.
    TooFewSamples,
}

/// Everything the drawing of a chart needs, in pixels.
pub struct ChartPlan {
    pub width: u32,
    pub height: u32,
    pub top: u32,
    pub right: u32,
    pub bottom: u32,
    pub left: u32,
    pub title: String,
    pub left_label: String,
    pub bottom_label: String,
    pub x: BandScale,
    pub y: LinearScale,
    /// Pixel position of each point inside the plotting area.
    pub points: Vec<(Pixel, Pixel)>,
}

impl ChartModel {
    /// The chart of the series; a series of fewer than two points has none.
    pub fn chart_plan(&self) -> (r: Result<ChartPlan, ChartError>)
        requires
            self.wf(),
        ensures
            r is Err <==> self.data.len() < MIN_CHART_POINTS,
            r matches Err(e) ==> e == ChartError::TooFewSamples,
            r matches Ok(p) ==> {
                let s = self.data@;
                let n = s.len() as int;
                &&& p.width == CHART_WIDTH && p.height == CHART_HEIGHT
                &&& p.top == MARGIN_TOP && p.right == MARGIN_RIGHT
                &&& p.bottom == MARGIN_BOTTOM && p.left == MARGIN_LEFT
                &&& p.title@ == self.label@
                &&& p.left_label@ == "Acrefeet"@
                &&& p.bottom_label@ == "Date"@
                &&& p.x.extent == INNER_WIDTH
                &&& p.x.domain.len() == n
                &&& forall|i: int| 0 <= i < n ==> #[trigger] p.x.domain@[i]@ == iso_text(s[i].date.day as int)
                &&& p.y.min == min_value(s) && p.y.max == max_value(s)
                &&& p.y.extent == INNER_HEIGHT
                &&& p.points.len() == n
                &&& forall|i: int| 0 <= i < n ==> #[trigger] p.points@[i] == (
                    band_offset(i, n, INNER_WIDTH as int),
                    linear_pixel(s[i].acre_feet as int, min_value(s), max_value(s), INNER_HEIGHT as int),
                )
                &&& forall|i: int, j: int| 0 <= i < j < n ==> pixel_lt(#[trigger] p.points@[i].0, #[trigger] p.points@[j].0)
                &&& forall|i: int, j: int| 0 <= i < n && 0 <= j < n && s[i].acre_feet < s[j].acre_feet
                    ==> pixel_lt(#[trigger] p.points@[j].1, #[trigger] p.points@[i].1)
            },
    {
        if self.data.len() < MIN_CHART_POINTS {
            return Err(ChartError::TooFewSamples);
        }
        let keys = date_keys(&self.data);
        let x = BandScale::new(keys, INNER_WIDTH);
        let (lo, hi) = value_bounds(&self.data);
        let y = LinearScale::new(lo, hi, INNER_HEIGHT);
        let mut points: Vec<(Pixel, Pixel)> = Vec::new();
        let mut i: usize = 0;
        while i < self.data.len()
            invariant
                x.wf(),
                x.domain.len() == self.data.len(),
                x.extent == INNER_WIDTH,
                y.min == min_value(self.data@),
                y.max == max_value(self.data@),
                y.extent == INNER_HEIGHT,
                y.wf(),
                i <= self.data.len(),
                points.len() == i,
                forall|k: int| 0 <= k < self.data.len() ==> min_value(self.data@) <= #[trigger] self.data@[k].acre_feet <= max_value(self.data@),
                forall|k: int| 0 <= k < i ==> #[trigger] points@[k] == (
                    band_offset(k, self.data.len() as int, INNER_WIDTH as int),
                    linear_pixel(self.data@[k].acre_feet as int, min_value(self.data@), max_value(self.data@), INNER_HEIGHT as int),
                ),
            decreases self.data.len() - i,
        {
            let v = self.data[i].acre_feet;
            let px = x.offset(i);
            let py = y.map(v);
            points.push((px, py));
            i = i + 1;
        }
        proof {
            let s = self.data@;
            let n = s.len() as int;
            assert forall|i: int, j: int| 0 <= i < j < n implies pixel_lt(#[trigger] points@[i].0, #[trigger] points@[j].0) by {
                lemma_band_offsets_increase(i, j, n, INNER_WIDTH as int);
            }
            assert forall|i: int, j: int| 0 <= i < n && 0 <= j < n && s[i].acre_feet < s[j].acre_feet
                implies pixel_lt(#[trigger] points@[j].1, #[trigger] points@[i].1) by {
                lemma_linear_decreasing(s[i].acre_feet as int, s[j].acre_feet as int, min_value(s), max_value(s), INNER_HEIGHT as int);
            }
        }
        Ok(ChartPlan {
            width: CHART_WIDTH,
            height: CHART_HEIGHT,
            top: MARGIN_TOP,
            right: MARGIN_RIGHT,
            bottom: MARGIN_BOTTOM,
            left: MARGIN_LEFT,
            title: self.label.clone(),
            left_label: String::from_str("Acrefeet"),
            bottom_label: String::from_str("Date"),
            x,
            y,
            points,
        })
    }
}

/// The `YYYY-MM-DD` text of each point's date, in order.
fn date_keys(data: &Vec<DataPoint>) -> (r: Vec<String>)
    requires
        dates_wf(data@),
    ensures
        r.len() == data.len(),
        forall|i: int| 0 <= i < data.len() ==> #[trigger] r@[i]@ == iso_text(data@[i].date.day as int),
{
    let mut keys: Vec<String> = Vec::new();
    let mut i: usize = 0;
    while i < data.len()
        invariant
            dates_wf(data@),
            i <= data.len(),
            keys.len() == i,
            forall|k: int| 0 <= k < i ==> #[trigger] keys@[k]@ == iso_text(data@[k].date.day as int),
        decreases data.len() - i,
    {
        assert(data@[i as int].date.wf());
        keys.push(data[i].get_x());
        i = i + 1;
    }
    keys
}

/// The smallest and largest value among the points; every value lies between.
fn value_bounds(data: &Vec<DataPoint>) -> (r: (i64, i64))
    requires
        data.len() > 0,
    ensures
        r.0 == min_value(data@),
        r.1 == max_value(data@),
        forall|k: int| 0 <= k < data.len() ==> r.0 <= #[trigger] data@[k].acre_feet <= r.1,
{
    let mut lo: i64 = data[0].acre_feet;
    let mut hi: i64 = data[0].acre_feet;
    let mut i: usize = 1;
    while i < data.len()
        invariant
            1 <= i <= data.len(),
            lo == min_value(data@.subrange(0, i as int)),
            hi == max_value(data@.subrange(0, i as int)),
            forall|k: int| 0 <= k < i ==> lo <= #[trigger] data@[k].acre_feet <= hi,
        decreases data.len() - i,
    {
        let v = data[i].acre_feet;
        assert(data@.subrange(0, i as int + 1).drop_last() =~= data@.subrange(0, i as int));
        if v < lo {
            lo = v;
        }
        if v > hi {
            hi = v;
        }
        i = i + 1;
    }
    assert(data@.subrange(0, data.len() as int) =~= data@);
    (lo, hi)
}

} // verus!
