use acre_chart::chart_model::{ChartModel, Events, GENERATED_START_DAY};
use acre_chart::chart_plan::{ChartError, INNER_HEIGHT, INNER_WIDTH};
use acre_chart::data_point::DataPoint;
use acre_chart::date::Date;
use acre_chart::scale::{BandScale, LinearScale, Pixel};

fn ymd(y: i32, m: u32, d: u32) -> Date {
    Date::from_ymd(y, m, d).unwrap()
}

fn three_days() -> ChartModel {
    ChartModel::new(
        String::from("flow"),
        vec![
            DataPoint::new(ymd(2020, 1, 1), 0),
            DataPoint::new(ymd(2020, 1, 2), 1),
            DataPoint::new(ymd(2020, 1, 3), 2),
        ],
    )
}

fn px(p: Pixel) -> (u128, u128) {
    (p.num, p.den)
}

fn plotted(points: &[(Pixel, Pixel)]) -> Vec<((u128, u128), (u128, u128))> {
    points.iter().map(|(x, y)| (px(*x), px(*y))).collect()
}

fn iso_dates(m: &ChartModel) -> Vec<String> {
    m.data.iter().map(|p| p.date.to_iso_string()).collect()
}

fn values(m: &ChartModel) -> Vec<i64> {
    m.data.iter().map(|p| p.acre_feet).collect()
}

#[test]
fn rebase_end_extends_span() {
    let mut m = three_days();
    m.update_end_date(ymd(2020, 1, 5));
    assert_eq!(
        iso_dates(&m),
        vec!["2020-01-01", "2020-01-02", "2020-01-03", "2020-01-04", "2020-01-05"]
    );
    assert_eq!(values(&m), vec![0, 1, 2, 3, 4]);
    assert_eq!(m.label, "flow");
}

#[test]
fn generated_series_bounds() {
    let m = ChartModel::generate_random_data(10);
    assert_eq!(m.data.len(), 10);
    assert_eq!(m.first_date().to_iso_string(), "1989-06-22");
    assert_eq!(m.last_date().to_iso_string(), "1989-07-01");
    assert_eq!(m.label, "test");
    assert_eq!(values(&m), (0..10).collect::<Vec<i64>>());
}

#[test]
fn generated_start_is_1989_06_22() {
    assert_eq!(ymd(1989, 6, 22).day, GENERATED_START_DAY);
}

#[test]
fn generate_zero_is_empty() {
    assert!(ChartModel::generate_random_data(0).data.is_empty());
}

#[test]
fn single_sample_chart_is_rejected() {
    let m = ChartModel::new(String::from("one"), vec![DataPoint::new(ymd(2020, 1, 1), 7)]);
    assert!(matches!(m.chart_plan(), Err(ChartError::TooFewSamples)));
}

#[test]
fn empty_chart_is_rejected() {
    let m = ChartModel::new(String::from("none"), vec![]);
    assert!(matches!(m.chart_plan(), Err(ChartError::TooFewSamples)));
}

#[test]
fn rebase_start_later_shrinks_span() {
    let mut m = three_days();
    m.update_start_date(ymd(2020, 1, 2));
    assert_eq!(iso_dates(&m), vec!["2020-01-02", "2020-01-03"]);
    assert_eq!(values(&m), vec![0, 1]);
}

#[test]
fn rebase_start_earlier_keeps_end() {
    let mut m = three_days();
    m.update_start_date(ymd(2019, 12, 30));
    assert_eq!(m.data.len(), 5);
    assert_eq!(m.first_date().to_iso_string(), "2019-12-30");
    assert_eq!(m.last_date().to_iso_string(), "2020-01-03");
    assert_eq!(values(&m), vec![0, 1, 2, 3, 4]);
}

#[test]
fn rebase_start_past_end_is_empty() {
    let mut m = three_days();
    m.rebase(ymd(2020, 1, 10), false);
    assert!(m.data.is_empty());
}

#[test]
fn rebase_end_to_start_leaves_one() {
    let mut m = three_days();
    m.rebase(ymd(2020, 1, 1), true);
    assert_eq!(iso_dates(&m), vec!["2020-01-01"]);
    assert_eq!(values(&m), vec![0]);
}

#[test]
fn rebase_reads_unsorted_points() {
    let mut m = ChartModel::new(
        String::from("mixed"),
        vec![
            DataPoint::new(ymd(2020, 1, 3), 9),
            DataPoint::new(ymd(2020, 1, 1), 8),
            DataPoint::new(ymd(2020, 1, 2), 7),
        ],
    );
    m.rebase(ymd(2020, 1, 4), true);
    assert_eq!(
        iso_dates(&m),
        vec!["2020-01-01", "2020-01-02", "2020-01-03", "2020-01-04"]
    );
    assert_eq!(values(&m), vec![0, 1, 2, 3]);
}

#[test]
fn rebase_is_ascending_across_month_end() {
    let mut m = ChartModel::generate_random_data(3);
    m.update_end_date(ymd(1989, 7, 2));
    assert_eq!(m.data.len(), 11);
    for w in m.data.windows(2) {
        assert!(w[0].date.day < w[1].date.day);
    }
    assert_eq!(m.last_date().to_iso_string(), "1989-07-02");
}

#[test]
fn rebase_at_own_boundary_keeps_points() {
    let mut m = ChartModel::generate_random_data(5);
    let before = m.data.clone();
    let first = m.first_date();
    m.rebase(first, false);
    assert_eq!(values(&m), before.iter().map(|p| p.acre_feet).collect::<Vec<i64>>());
    assert_eq!(iso_dates(&m), before.iter().map(|p| p.date.to_iso_string()).collect::<Vec<String>>());
    let last = m.last_date();
    m.rebase(last, true);
    assert_eq!(values(&m), vec![0, 1, 2, 3, 4]);
    assert_eq!(m.last_date(), last);
}

#[test]
fn update_with_same_start_is_no_change() {
    let mut m = three_days();
    let start = m.first_date();
    assert!(!m.update(Events::StartDateUpdated(start)));
    assert_eq!(values(&m), vec![0, 1, 2]);
}

#[test]
fn update_with_same_end_is_no_change() {
    let mut m = ChartModel::new(
        String::from("kept"),
        vec![DataPoint::new(ymd(2020, 1, 1), 40), DataPoint::new(ymd(2020, 1, 2), 50)],
    );
    let end = m.last_date();
    assert!(!m.update(Events::EndDateUpdated(end)));
    assert_eq!(values(&m), vec![40, 50]);
}

#[test]
fn update_with_new_end_rebases() {
    let mut m = three_days();
    assert!(m.update(Events::for_boundary(ymd(2020, 1, 4), true)));
    assert_eq!(m.data.len(), 4);
    assert_eq!(m.last_date().to_iso_string(), "2020-01-04");
}

#[test]
fn update_with_new_start_rebases() {
    let mut m = three_days();
    assert!(m.update(Events::for_boundary(ymd(2019, 12, 31), false)));
    assert_eq!(m.data.len(), 4);
    assert_eq!(m.first_date().to_iso_string(), "2019-12-31");
}

#[test]
fn chart_plan_layout() {
    let m = three_days();
    let p = m.chart_plan().unwrap();
    assert_eq!((p.width, p.height), (800, 600));
    assert_eq!((p.top, p.right, p.bottom, p.left), (90, 40, 50, 60));
    assert_eq!(p.title, "flow");
    assert_eq!(p.left_label, "Acrefeet");
    assert_eq!(p.bottom_label, "Date");
    assert_eq!(p.x.domain, vec!["2020-01-01", "2020-01-02", "2020-01-03"]);
    assert_eq!(p.x.extent, INNER_WIDTH);
    assert_eq!((p.y.min, p.y.max, p.y.extent), (0, 2, INNER_HEIGHT));
    assert_eq!(plotted(&p.points), vec![((0, 3), (920, 2)), ((700, 3), (460, 2)), ((1400, 3), (0, 2))]);
}

#[test]
fn chart_plan_flat_values_share_pixel() {
    let m = ChartModel::new(
        String::from("flat"),
        vec![
            DataPoint::new(ymd(2021, 3, 1), 5),
            DataPoint::new(ymd(2021, 3, 2), 5),
            DataPoint::new(ymd(2021, 3, 3), 5),
            DataPoint::new(ymd(2021, 3, 4), 5),
        ],
    );
    let p = m.chart_plan().unwrap();
    assert_eq!(
        plotted(&p.points),
        vec![((0, 4), (460, 1)), ((700, 4), (460, 1)), ((1400, 4), (460, 1)), ((2100, 4), (460, 1))]
    );
}

#[test]
fn chart_plan_negative_values() {
    let m = ChartModel::new(
        String::from("neg"),
        vec![DataPoint::new(ymd(2021, 3, 1), -10), DataPoint::new(ymd(2021, 3, 2), 30)],
    );
    let p = m.chart_plan().unwrap();
    assert_eq!((p.y.min, p.y.max), (-10, 30));
    assert_eq!(plotted(&p.points), vec![((0, 2), (18400, 40)), ((700, 2), (0, 40))]);
}

#[test]
fn linear_scale_ends() {
    let y = LinearScale::new(3, 13, 460);
    assert_eq!(px(y.map(3)), (4600, 10));
    assert_eq!(px(y.map(13)), (0, 10));
    assert_eq!(px(y.map(8)), (2300, 10));
    assert_eq!(px(y.map(4)), (4140, 10));
}

#[test]
fn linear_scale_degenerate() {
    let y = LinearScale::new(7, 7, 460);
    assert_eq!(px(y.map(7)), (460, 1));
}

#[test]
fn linear_scale_extreme_domain() {
    let y = LinearScale::new(i64::MIN, i64::MAX, 460);
    let span = u64::MAX as u128;
    assert_eq!(px(y.map(i64::MIN)), (span * 460, span));
    assert_eq!(px(y.map(i64::MAX)), (0, span));
}

#[test]
fn band_scale_offsets() {
    let x = BandScale::new(vec![String::from("a"), String::from("b"), String::from("c"), String::from("d")], 700);
    assert_eq!(px(x.offset(0)), (0, 4));
    assert_eq!(px(x.offset(1)), (700, 4));
    assert_eq!(px(x.offset(3)), (2100, 4));
    assert_eq!(px(x.band_width()), (700, 4));
}

#[test]
fn long_series_keeps_distinct_bands() {
    let m = ChartModel::generate_random_data(701);
    let p = m.chart_plan().unwrap();
    assert_eq!(px(p.points[0].0), (0, 701));
    assert_eq!(px(p.points[1].0), (700, 701));
    for w in p.points.windows(2) {
        assert!(w[0].0.num * w[1].0.den < w[1].0.num * w[0].0.den);
    }
}

#[test]
fn wide_values_keep_distinct_heights() {
    let m = ChartModel::new(
        String::from("wide"),
        vec![
            DataPoint::new(ymd(2021, 3, 1), 0),
            DataPoint::new(ymd(2021, 3, 2), 1),
            DataPoint::new(ymd(2021, 3, 3), 1000),
        ],
    );
    let p = m.chart_plan().unwrap();
    assert_eq!(plotted(&p.points)[0].1, (460000, 1000));
    assert_eq!(plotted(&p.points)[1].1, (459540, 1000));
    assert_eq!(plotted(&p.points)[2].1, (0, 1000));
}

#[test]
fn points_after_previews_events() {
    let m = three_days();
    assert_eq!(m.points_after(&Events::EndDateUpdated(ymd(2020, 1, 5))), 5);
    assert_eq!(m.points_after(&Events::EndDateUpdated(ymd(2020, 1, 3))), 3);
    assert_eq!(m.points_after(&Events::StartDateUpdated(ymd(2020, 1, 4))), 0);
    assert_eq!(m.points_after(&Events::StartDateUpdated(ymd(2020, 1, 1))), 3);
    assert_eq!(m.data.len(), 3);
}

#[test]
fn rebase_start_at_own_boundary_keeps_run() {
    let mut m = ChartModel::generate_random_data(4);
    let first = m.first_date();
    m.update_start_date(first);
    assert_eq!(values(&m), vec![0, 1, 2, 3]);
    assert_eq!(m.first_date(), first);
    assert_eq!(m.last_date().to_iso_string(), "1989-06-25");
}
