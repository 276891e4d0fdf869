//! One dated observation. Equality and order go by the date alone.
use vstd::prelude::*;
use crate::date::{Date, iso_text};
use std::cmp::Ordering;

verus! {

/// A (date, value) observation of the series.
#[derive(Clone, Copy, Debug)]
pub struct DataPoint {
    pub date: Date,
    pub acre_feet: i64,
}

pub open spec fn order_of(a: int, b: int) -> Ordering {
    if a < b {
        Ordering::Less
    } else if a == b {
        Ordering::Equal
    } else {
        Ordering::Greater
    }
}

impl PartialEq for DataPoint {
    fn eq(&self, other: &DataPoint) -> (r: bool) {
        self.date.day == other.date.day
    }
}

impl vstd::std_specs::cmp::PartialEqSpecImpl for DataPoint {
    open spec fn obeys_eq_spec() -> bool {
        true
    }

    open spec fn eq_spec(&self, other: &DataPoint) -> bool {
        self.date.day == other.date.day
    }
}

impl Eq for DataPoint {
}

impl PartialOrd for DataPoint {
    fn partial_cmp(&self, other: &DataPoint) -> (r: Option<Ordering>) {
        Some(self.cmp(other))
    }
}

impl vstd::std_specs::cmp::PartialOrdSpecImpl for DataPoint {
    open spec fn obeys_partial_cmp_spec() -> bool {
        true
    }

    open spec fn partial_cmp_spec(&self, other: &DataPoint) -> Option<Ordering> {
        Some(order_of(self.date.day as int, other.date.day as int))
    }
}

impl DataPoint {
    pub fn new(date: Date, acre_feet: i64) -> (r: DataPoint)
        ensures
            r.date == date,
            r.acre_feet == acre_feet,
    {
        DataPoint { date, acre_feet }
    }

    /// Order of the two dates.
    pub fn cmp(&self, other: &DataPoint) -> (r: Ordering)
        ensures
            r == order_of(self.date.day as int, other.date.day as int),
    {
        if self.date.day < other.date.day {
            Ordering::Less
        } else if self.date.day == other.date.day {
            Ordering::Equal
        } else {
            Ordering::Greater
        }
    }

    /// The later of the two; `self` where the dates are equal.
    pub fn max(self, other: DataPoint) -> (r: DataPoint)
        ensures
            r == (if self.date.day < other.date.day { other } else { self }),
    {
        if self.date.day < other.date.day {
            other
        } else {
            self
        }
    }

    /// The earlier of the two; `other` where the dates are equal.
    pub fn min(self, other: DataPoint) -> (r: DataPoint)
        ensures
            r == (if self.date.day < other.date.day { self } else { other }),
    {
        if self.date.day < other.date.day {
            self
        } else {
            other
        }
    }

    /// `self` held between `min` and `max` by date.
    pub fn clamp(self, min: DataPoint, max: DataPoint) -> (r: DataPoint)
        requires
            min.date.day <= max.date.day,
        ensures
            r == (if self.date.day < min.date.day {
                min
            } else if self.date.day > max.date.day {
                max
            } else {
                self
            }),
    {
        if self.date.day < min.date.day {
            min
        } else if self.date.day > max.date.day {
            max
        } else {
            self
        }
    }

    pub fn lt(&self, other: &DataPoint) -> (r: bool)
        ensures
            r == (self.date.day < other.date.day),
    {
        self.date.day < other.date.day
    }

    pub fn le(&self, other: &DataPoint) -> (r: bool)
        ensures
            r == (self.date.day <= other.date.day),
    {
        let eq = self.date.day == other.date.day;
        let lt = self.date.day < other.date.day;
        eq || lt
    }

    pub fn gt(&self, other: &DataPoint) -> (r: bool)
        ensures
            r == (self.date.day > other.date.day),
    {
        !self.le(other)
    }

    pub fn ge(&self, other: &DataPoint) -> (r: bool)
        ensures
            r == (self.date.day >= other.date.day),
    {
        let eq = self.date.day == other.date.day;
        let gt = self.date.day > other.date.day;
        eq || gt
    }

    pub fn ne(&self, other: &DataPoint) -> (r: bool)
        ensures
            r == (self.date.day != other.date.day),
    {
        self.date.day != other.date.day
    }

    /// The band key of the point: its date as `YYYY-MM-DD`.
    pub fn get_x(&self) -> (r: String)
        requires
            self.date.wf(),
        ensures
            r@ == iso_text(self.date.day as int),
    {
        self.date.to_iso_string()
    }

    /// The plotted value.
    pub fn get_y(&self) -> (r: i64)
        ensures
            r == self.acre_feet,
    {
        self.acre_feet
    }

    /// The series key of the point; a single series has the empty key.
    pub fn get_key(&self) -> (r: String)
        ensures
            r@ == Seq::<char>::empty(),
    {
        String::new()
    }
}

} // verus!
