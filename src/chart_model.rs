//! The series: a label and its dated points, and the reflow of its date span.
use vstd::prelude::*;
use crate::date::{Date, FIRST_DAY, LAST_DAY};
use crate::data_point::DataPoint;

verus! {

/// Day number of 1989-06-22, where generated series begin.
pub const GENERATED_START_DAY: i32 = 726275;

/// Earliest date among the points.
pub open spec fn min_day(s: Seq<DataPoint>) -> int
    decreases s.len(),
{
    if s.len() <= 1 {
        s[0].date.day as int
    } else {
        let rest = min_day(s.drop_last());
        let last = s.last().date.day as int;
        if last < rest { last } else { rest }
    }
}

/// Latest date among the points.
pub open spec fn max_day(s: Seq<DataPoint>) -> int
    decreases s.len(),
{
    if s.len() <= 1 {
        s[0].date.day as int
    } else {
        let rest = max_day(s.drop_last());
        let last = s.last().date.day as int;
        if last > rest { last } else { rest }
    }
}

/// Every point holds a valid date.
pub open spec fn dates_wf(s: Seq<DataPoint>) -> bool {
    forall|i: int| 0 <= i < s.len() ==> #[trigger] s[i].date.wf()
}

/// Dates strictly ascend, so none repeats.
pub open spec fn strictly_ascending(s: Seq<DataPoint>) -> bool {
    forall|i: int, j: int| 0 <= i < j < s.len() ==> s[i].date.day < s[j].date.day
}

/// `n` points, one per day from `start`, the value of each its index.
pub open spec fn daily_run(start: int, n: nat) -> Seq<DataPoint> {
    Seq::new(n, |i: int| DataPoint { date: Date { day: (start + i) as i32 }, acre_feet: i as i64 })
}

/// First day of the span after moving one boundary to `d`.
pub open spec fn new_start(s: Seq<DataPoint>, d: int, is_end: bool) -> int {
    if is_end { min_day(s) } else { d }
}

/// Last day of the span after moving one boundary to `d`.
pub open spec fn new_end(s: Seq<DataPoint>, d: int, is_end: bool) -> int {
    if is_end { d } else { max_day(s) }
}

/// Number of days from `start` to `end`, both included; none where `end` comes first.
pub open spec fn span_len(start: int, end: int) -> nat {
    if end >= start { (end - start + 1) as nat } else { 0 }
}

/// The points after moving the start (or, with `is_end`, the end) boundary to `d`.
pub open spec fn rebased(s: Seq<DataPoint>, d: int, is_end: bool) -> Seq<DataPoint> {
    let start = new_start(s, d, is_end);
    daily_run(start, span_len(start, new_end(s, d, is_end)))
}

/// The points are consecutive days from the first date, each valued by its index,
/// as generation and every rebase leave them.
pub open spec fn is_daily_run(s: Seq<DataPoint>) -> bool {
    &&& s.len() > 0
    &&& FIRST_DAY <= s[0].date.day
    &&& s[0].date.day + s.len() - 1 <= LAST_DAY
    &&& s == daily_run(s[0].date.day as int, s.len())
}

/// The current first (or, with `is_end`, last) date's day number.
pub open spec fn boundary_day(s: Seq<DataPoint>, is_end: bool) -> int {
    if is_end { s.last().date.day as int } else { s[0].date.day as int }
}

/// The points after a boundary event: unchanged where the event names the
/// current boundary, rebased otherwise.
pub open spec fn updated(s: Seq<DataPoint>, msg: Events) -> Seq<DataPoint> {
    match msg {
        Events::StartDateUpdated(d) => if d == s[0].date { s } else { rebased(s, d.day as int, false) },
        Events::EndDateUpdated(d) => if d == s.last().date { s } else { rebased(s, d.day as int, true) },
    }
}

/// Request to move one boundary of the series' date span.
pub enum Events {
    StartDateUpdated(Date),
    EndDateUpdated(Date),
}

impl Events {
    /// The event for a new start date, or with `is_end` for a new end date.
    pub fn for_boundary(date: Date, is_end: bool) -> (r: Events)
        ensures
            r == (if is_end { Events::EndDateUpdated(date) } else { Events::StartDateUpdated(date) }),
    {
        if is_end {
            Events::EndDateUpdated(date)
        } else {
            Events::StartDateUpdated(date)
        }
    }
}

/// A labelled series of dated points.
#[derive(Clone, Debug)]
pub struct ChartModel {
    pub label: String,
    pub data: Vec<DataPoint>,
}

impl ChartModel {
    pub open spec fn wf(&self) -> bool {
        dates_wf(self.data@)
    }

    /// Wraps the given points as they are.
    pub fn new(label: String, data: Vec<DataPoint>) -> (r: ChartModel)
        ensures
            r.label == label,
            r.data@ == data@,
    {
        ChartModel { label, data }
    }

    /// `sample_size` daily points from 1989-06-22, the value of each its index.
    pub fn generate_random_data(sample_size: usize) -> (r: ChartModel)
        requires
            sample_size <= LAST_DAY - GENERATED_START_DAY + 1,
        ensures
            r.label@ == "test"@,
            r.data@ == daily_run(GENERATED_START_DAY as int, sample_size as nat),
            r.wf(),
    {
        let data = daily_points(GENERATED_START_DAY, sample_size);
        ChartModel { label: String::from_str("test"), data }
    }

    /// Replaces the points by one per day over the span whose start (or, with
    /// `is_end`, whose end) is moved to `d`, the value of each its index.
    pub fn rebase(&mut self, d: Date, is_end: bool)
        requires
            old(self).wf(),
            old(self).data.len() > 0,
            d.wf(),
        ensures
            final(self).label == old(self).label,
            final(self).data@ == rebased(old(self).data@, d.day as int, is_end),
            final(self).wf(),
            strictly_ascending(final(self).data@),
            final(self).data.len() == span_len(
                new_start(old(self).data@, d.day as int, is_end),
                new_end(old(self).data@, d.day as int, is_end),
            ),
            forall|i: int| 0 <= i < final(self).data.len() ==> #[trigger] final(self).data@[i].acre_feet == i,
            is_daily_run(old(self).data@) && d.day == boundary_day(old(self).data@, is_end)
                ==> final(self).data@ == old(self).data@,
    {
        let (start, n) = self.span_of(d, is_end);
        self.data = daily_points(start, n);
        proof {
            lemma_daily_run_ascending(start as int, n as nat);
            if is_daily_run(old(self).data@) && d.day == boundary_day(old(self).data@, is_end) {
                lemma_rebase_at_own_boundary(old(self).data@, is_end);
            }
        }
    }

    /// First day and number of days of the span whose start (or, with
    /// `is_end`, whose end) is moved to `d`.
    fn span_of(&self, d: Date, is_end: bool) -> (r: (i32, usize))
        requires
            self.wf(),
            self.data.len() > 0,
            d.wf(),
        ensures
            r.0 == new_start(self.data@, d.day as int, is_end),
            r.1 == span_len(r.0 as int, new_end(self.data@, d.day as int, is_end)),
            FIRST_DAY <= r.0,
            r.1 == 0 || r.0 + r.1 - 1 <= LAST_DAY,
    {
        let (lo, hi) = date_bounds(&self.data);
        let (start, end) = if is_end { (lo, d.day) } else { (d.day, hi) };
        let n: usize = if end >= start { (end - start + 1) as usize } else { 0 };
        (start, n)
    }

    /// How many points the series would hold after `msg`, leaving it as it is.
    pub fn points_after(&self, msg: &Events) -> (r: usize)
        requires
            self.wf(),
            self.data.len() > 0,
            match *msg {
                Events::StartDateUpdated(d) => d.wf(),
                Events::EndDateUpdated(d) => d.wf(),
            },
        ensures
            r == updated(self.data@, *msg).len(),
    {
        match msg {
            Events::StartDateUpdated(d) => {
                if self.first_date() == *d {
                    self.data.len()
                } else {
                    self.span_of(*d, false).1
                }
            },
            Events::EndDateUpdated(d) => {
                if self.last_date() == *d {
                    self.data.len()
                } else {
                    self.span_of(*d, true).1
                }
            },
        }
    }

    /// Moves the start of the span to `new_date`.
    pub fn update_start_date(&mut self, new_date: Date)
        requires
            old(self).wf(),
            old(self).data.len() > 0,
            new_date.wf(),
        ensures
            final(self).label == old(self).label,
            final(self).data@ == rebased(old(self).data@, new_date.day as int, false),
            final(self).wf(),
            strictly_ascending(final(self).data@),
            is_daily_run(old(self).data@) && new_date.day == boundary_day(old(self).data@, false)
                ==> final(self).data@ == old(self).data@,
    {
        self.rebase(new_date, false);
    }

    /// Moves the end of the span to `new_end_date`.
    pub fn update_end_date(&mut self, new_end_date: Date)
        requires
            old(self).wf(),
            old(self).data.len() > 0,
            new_end_date.wf(),
        ensures
            final(self).label == old(self).label,
            final(self).data@ == rebased(old(self).data@, new_end_date.day as int, true),
            final(self).wf(),
            strictly_ascending(final(self).data@),
            is_daily_run(old(self).data@) && new_end_date.day == boundary_day(old(self).data@, true)
                ==> final(self).data@ == old(self).data@,
    {
        self.rebase(new_end_date, true);
    }

    /// Date of the first point.
    pub fn first_date(&self) -> (r: Date)
        requires
            self.data.len() > 0,
        ensures
            r == self.data@[0].date,
    {
        self.data[0].date
    }

    /// Date of the last point.
    pub fn last_date(&self) -> (r: Date)
        requires
            self.data.len() > 0,
        ensures
            r == self.data@.last().date,
    {
        self.data[self.data.len() - 1].date
    }

    /// Applies a boundary event and returns whether the points were replaced.
    /// A boundary equal to the current first (or last) date is left alone.
    pub fn update(&mut self, msg: Events) -> (changed: bool)
        requires
            old(self).wf(),
            old(self).data.len() > 0,
            match msg {
                Events::StartDateUpdated(d) => d.wf(),
                Events::EndDateUpdated(d) => d.wf(),
            },
        ensures
            final(self).label == old(self).label,
            final(self).wf(),
            final(self).data@ == updated(old(self).data@, msg),
            match msg {
                Events::StartDateUpdated(d) => {
                    &&& changed == (d != old(self).data@[0].date)
                    &&& final(self).data@ == (if changed {
                        rebased(old(self).data@, d.day as int, false)
                    } else {
                        old(self).data@
                    })
                },
                Events::EndDateUpdated(d) => {
                    &&& changed == (d != old(self).data@.last().date)
                    &&& final(self).data@ == (if changed {
                        rebased(old(self).data@, d.day as int, true)
                    } else {
                        old(self).data@
                    })
                },
            },
    {
        match msg {
            Events::EndDateUpdated(new_end_date) => {
                let end_date = self.last_date();
                if end_date == new_end_date {
                    false
                } else {
                    self.update_end_date(new_end_date);
                    true
                }
            },
            Events::StartDateUpdated(new_start_date) => {
                let start_date = self.first_date();
                if start_date == new_start_date {
                    false
                } else {
                    self.update_start_date(new_start_date);
                    true
                }
            },
        }
    }
}

/// Consecutive days ascend strictly.
pub proof fn lemma_daily_run_ascending(start: int, n: nat)
    requires
        FIRST_DAY <= start,
        n == 0 || start + n - 1 <= LAST_DAY,
    ensures
        strictly_ascending(daily_run(start, n)),
{
}

/// In a strictly ascending series the first date is the earliest and the last
/// date the latest.
pub proof fn lemma_ascending_bounds(s: Seq<DataPoint>)
    requires
        s.len() > 0,
        strictly_ascending(s),
    ensures
        min_day(s) == s[0].date.day,
        max_day(s) == s.last().date.day,
    decreases s.len(),
{
    if s.len() > 1 {
        let t = s.drop_last();
        assert(strictly_ascending(t));
        lemma_ascending_bounds(t);
        assert(s[0].date.day < s.last().date.day);
        assert(t.last() == s[s.len() - 2]);
    }
}

/// Whatever the points and the new boundary, a rebased series ascends strictly
/// by date, holds one point per day from its new start to its new end, and the
/// value of each point is its index.
pub proof fn lemma_rebased_shape(s: Seq<DataPoint>, d: int, is_end: bool)
    requires
        s.len() > 0,
        dates_wf(s),
        FIRST_DAY <= d <= LAST_DAY,
    ensures
        strictly_ascending(rebased(s, d, is_end)),
        rebased(s, d, is_end).len() == span_len(new_start(s, d, is_end), new_end(s, d, is_end)),
        forall|i: int| 0 <= i < rebased(s, d, is_end).len() ==> #[trigger] rebased(s, d, is_end)[i].acre_feet == i,
        forall|i: int| 0 <= i < rebased(s, d, is_end).len() ==>
            #[trigger] rebased(s, d, is_end)[i].date.day == new_start(s, d, is_end) + i,
{
    lemma_day_bounds(s);
    lemma_daily_run_ascending(new_start(s, d, is_end), span_len(new_start(s, d, is_end), new_end(s, d, is_end)));
}

/// The earliest and latest dates of valid points are valid day numbers.
pub proof fn lemma_day_bounds(s: Seq<DataPoint>)
    requires
        s.len() > 0,
        dates_wf(s),
    ensures
        FIRST_DAY <= min_day(s) <= LAST_DAY,
        FIRST_DAY <= max_day(s) <= LAST_DAY,
    decreases s.len(),
{
    assert(s[0].date.wf());
    if s.len() > 1 {
        let t = s.drop_last();
        assert(dates_wf(t)) by {
            assert forall|i: int| 0 <= i < t.len() implies #[trigger] t[i].date.wf() by {
                assert(t[i] == s[i]);
            }
        }
        lemma_day_bounds(t);
        assert(s[s.len() - 1].date.wf());
    }
}

/// Moving a boundary of a series of consecutive days, valued by index, to the
/// date it already has leaves the points as they are.
pub proof fn lemma_rebase_at_own_boundary(s: Seq<DataPoint>, is_end: bool)
    requires
        s.len() > 0,
        FIRST_DAY <= s[0].date.day,
        s[0].date.day + s.len() - 1 <= LAST_DAY,
        s == daily_run(s[0].date.day as int, s.len()),
    ensures
        rebased(s, (if is_end { s.last().date.day } else { s[0].date.day }) as int, is_end) == s,
{
    let start = s[0].date.day as int;
    lemma_daily_run_ascending(start, s.len());
    lemma_ascending_bounds(s);
    let d = (if is_end { s.last().date.day } else { s[0].date.day }) as int;
    assert(new_start(s, d, is_end) == start);
    assert(new_end(s, d, is_end) == start + s.len() - 1);
    assert(rebased(s, d, is_end) =~= s);
}

/// The earliest and latest date among the points.
fn date_bounds(data: &Vec<DataPoint>) -> (r: (i32, i32))
    requires
        data.len() > 0,
        dates_wf(data@),
    ensures
        r.0 == min_day(data@),
        r.1 == max_day(data@),
        FIRST_DAY <= r.0 <= LAST_DAY,
        FIRST_DAY <= r.1 <= LAST_DAY,
{
    let mut lo: i32 = data[0].date.day;
    let mut hi: i32 = data[0].date.day;
    let mut i: usize = 1;
    assert(data@[0].date.wf());
    while i < data.len()
        invariant
            1 <= i <= data.len(),
            dates_wf(data@),
            lo == min_day(data@.subrange(0, i as int)),
            hi == max_day(data@.subrange(0, i as int)),
            FIRST_DAY <= lo <= LAST_DAY,
            FIRST_DAY <= hi <= LAST_DAY,
        decreases data.len() - i,
    {
        let day = data[i].date.day;
        assert(data@.subrange(0, i as int + 1).drop_last() =~= data@.subrange(0, i as int));
        assert(data@[i as int].date.wf());
        if day < lo {
            lo = day;
        }
        if day > hi {
            hi = day;
        }
        i = i + 1;
    }
    assert(data@.subrange(0, data.len() as int) =~= data@);
    (lo, hi)
}

/// `n` points, one per day from `start`, the value of each its index.
fn daily_points(start: i32, n: usize) -> (r: Vec<DataPoint>)
    requires
        FIRST_DAY <= start,
        n == 0 || start + n - 1 <= LAST_DAY,
    ensures
        r@ == daily_run(start as int, n as nat),
        dates_wf(r@),
{
    let mut out: Vec<DataPoint> = Vec::new();
    let mut i: usize = 0;
    while i < n
        invariant
            i <= n,
            FIRST_DAY <= start,
            n == 0 || start + n - 1 <= LAST_DAY,
            out@ =~= daily_run(start as int, i as nat),
        decreases n - i,
    {
        let date = Date { day: start + i as i32 };
        out.push(DataPoint { date, acre_feet: i as i64 });
        i = i + 1;
        assert(out@ =~= daily_run(start as int, i as nat));
    }
    out
}

} // verus!
