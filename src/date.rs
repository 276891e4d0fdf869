//! Calendar dates held as day numbers of the proleptic Gregorian calendar.
use vstd::prelude::*;

verus! {

/// Day number of 0001-01-01, the first date a `Date` can hold.
pub const FIRST_DAY: i32 = 1;

/// Day number of 9999-12-31, the last date a `Date` can hold.
pub const LAST_DAY: i32 = 3652059;

/// Day number of a year, month and day, or `None` where chrono has no such date.
pub uninterp spec fn ymd_lookup(y: int, m: int, d: int) -> Option<int>;

/// The `YYYY-MM-DD` text of a day number.
pub uninterp spec fn iso_text(day: int) -> Seq<char>;

/// Day number of a `YYYY-MM-DD` text, or `None` where chrono rejects the text.
pub uninterp spec fn iso_parse(s: Seq<char>) -> Option<int>;

/// A calendar date, counted in days with 0001-01-01 as day 1.
#[derive(Clone, Copy, Debug, PartialEq, Eq, Structural)]
pub struct Date {
    pub day: i32,
}

impl Date {
    /// The date lies in the years 1 to 9999.
    pub open spec fn wf(self) -> bool {
        FIRST_DAY <= self.day <= LAST_DAY
    }

    pub open spec fn spec_from_day_number(n: int) -> Option<Date> {
        if FIRST_DAY <= n <= LAST_DAY {
            Some(Date { day: n as i32 })
        } else {
            None
        }
    }

    /// The date with day number `n`, if it lies in the years 1 to 9999.
    pub fn from_day_number(n: i32) -> (r: Option<Date>)
        ensures
            r == Self::spec_from_day_number(n as int),
            r matches Some(d) ==> d.wf(),
    {
        if FIRST_DAY <= n && n <= LAST_DAY {
            Some(Date { day: n })
        } else {
            None
        }
    }

    pub open spec fn spec_from_lookup(found: Option<int>) -> Option<Date> {
        match found {
            Some(n) => Self::spec_from_day_number(n),
            None => None,
        }
    }

    /// The date of year `y`, month `m` and day `d`.
    pub fn from_ymd(y: i32, m: u32, d: u32) -> (r: Option<Date>)
        ensures
            r == Self::spec_from_lookup(ymd_lookup(y as int, m as int, d as int)),
            r matches Some(x) ==> x.wf(),
    {
        match day_number_of_ymd(y, m, d) {
            Some(n) => Self::from_day_number(n),
            None => None,
        }
    }

    /// The date that a `YYYY-MM-DD` text names.
    pub fn parse_iso(s: &str) -> (r: Option<Date>)
        ensures
            r == Self::spec_from_lookup(iso_parse(s@)),
            r matches Some(x) ==> x.wf(),
    {
        match day_number_of_iso(s) {
            Some(n) => Self::from_day_number(n),
            None => None,
        }
    }

    /// The `YYYY-MM-DD` text of the date.
    pub fn to_iso_string(&self) -> (r: String)
        requires
            self.wf(),
        ensures
            r@ == iso_text(self.day as int),
            r@.len() == 10,
            iso_parse(r@) == Some(self.day as int),
    {
        iso_text_of_day(self.day)
    }

    /// The date `n` days later.
    pub fn add_days(&self, n: i32) -> (r: Date)
        requires
            self.wf(),
            FIRST_DAY <= self.day + n <= LAST_DAY,
        ensures
            r.wf(),
            r.day == self.day + n,
    {
        Date { day: self.day + n }
    }

    /// Days from `self` to `later`, negative where `later` comes first.
    pub fn days_until(&self, later: &Date) -> (r: i32)
        requires
            self.wf(),
            later.wf(),
        ensures
            r == later.day - self.day,
    {
        later.day - self.day
    }
}

/// Relies on chrono's `NaiveDate::from_ymd_opt`, which gives `None` for an
/// invalid month or day or an out-of-range date, and on
/// `Datelike::num_days_from_ce`, which counts 0001-01-01 as day 1.
#[verifier::external_body]
fn day_number_of_ymd(y: i32, m: u32, d: u32) -> (r: Option<i32>)
    ensures
        r matches Some(n) ==> ymd_lookup(y as int, m as int, d as int) == Some(n as int),
        r is None ==> ymd_lookup(y as int, m as int, d as int) is None,
        (m < 1 || m > 12 || d < 1 || d > 31) ==> r is None,
{
    match chrono::NaiveDate::from_ymd_opt(y, m, d) {
        Some(date) => Some(chrono::Datelike::num_days_from_ce(&date)),
        None => None,
    }
}

/// Relies on chrono's `NaiveDate::parse_from_str` with the format `%Y-%m-%d`,
/// and on `Datelike::num_days_from_ce` for the day number of what it parsed.
#[verifier::external_body]
fn day_number_of_iso(s: &str) -> (r: Option<i32>)
    ensures
        r matches Some(n) ==> iso_parse(s@) == Some(n as int),
        r is None ==> iso_parse(s@) is None,
{
    match chrono::NaiveDate::parse_from_str(s, "%Y-%m-%d") {
        Ok(date) => Some(chrono::Datelike::num_days_from_ce(&date)),
        Err(_) => None,
    }
}

/// Relies on chrono's `NaiveDate::from_num_days_from_ce_opt`, which has a date
/// for every day number of the years 1 to 9999, and on its `format("%Y-%m-%d")`,
/// which pads the year to four digits; `parse_from_str` with the same format
/// reads the text back as the same date.
#[verifier::external_body]
fn iso_text_of_day(day: i32) -> (r: String)
    requires
        FIRST_DAY <= day <= LAST_DAY,
    ensures
        r@ == iso_text(day as int),
        r@.len() == 10,
        iso_parse(r@) == Some(day as int),
{
    chrono::NaiveDate::from_num_days_from_ce_opt(day).unwrap().format("%Y-%m-%d").to_string()
}

} // verus!
