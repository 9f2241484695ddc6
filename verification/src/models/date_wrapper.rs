//! Calendar days, counted as the crate `chrono` counts them: day 1 is the
//! first of January of the year 1.

use chrono::Datelike;
use vstd::prelude::*;

verus! {

/// The format in which a date is read: year, month and day, parted by
/// dashes.
pub const DATE_FORMAT: &'static str = "%Y-%m-%d";

/// What the crate `chrono` writes for the day with the number `days`, where
/// its calendar reaches that day.
pub uninterp spec fn date_text(days: i32) -> Option<Seq<char>>;

/// The number of the day that the crate `chrono` reads from `text` in the
/// format `format`, where the text is a date in that format.
pub uninterp spec fn parsed_date(text: Seq<char>, format: Seq<char>) -> Option<i32>;

/// The calendar of the crate `chrono` reaches the day with the number
/// `days`: the crate has a date for it.
pub open spec fn reached(days: i32) -> bool {
    date_text(days) is Some
}

/// The local date of `chrono::offset::Local::now`, as the number of its day.
/// It depends on the clock and the time zone of the machine. What holds of
/// every outcome: it is the number of a date of the crate, so the crate has
/// a date for it.
#[verifier::external_body]
fn today_from_ce() -> (days: i32)
    ensures
        reached(days),
{
    chrono::offset::Local::now().naive_local().date().num_days_from_ce()
}

/// `NaiveDate::from_num_days_from_ce_opt` of the crate `chrono`, and the
/// date that it gives written with `to_string`. The answer depends on the
/// number alone.
#[verifier::external_body]
fn write_date(days: i32) -> (r: Option<String>)
    ensures
        match r {
            Some(text) => date_text(days) == Some(text@),
            None => date_text(days) is None,
        },
{
    match chrono::NaiveDate::from_num_days_from_ce_opt(days) {
        Some(date) => Some(date.to_string()),
        None => None,
    }
}

/// `NaiveDate::parse_from_str` of the crate `chrono`, and the number of the
/// day that it gives. The answer depends on the two texts alone.
#[verifier::external_body]
fn read_date(text: &str, format: &str) -> (r: Option<i32>)
    ensures
        r == parsed_date(text@, format@),
{
    match chrono::NaiveDate::parse_from_str(text, format) {
        Ok(date) => Some(date.num_days_from_ce()),
        Err(_) => None,
    }
}

/// A calendar day that the calendar of the crate `chrono` reaches.
#[derive(Debug, Clone, Copy, PartialEq, Eq, PartialOrd, Ord, Structural)]
pub struct DateWrapper {
    days: i32,
}

/// The number of the day that lies `days` days after the day with the number
/// `from`, where that number fits.
pub open spec fn shifted(from: i32, days: i64) -> Option<i32> {
    if i32::MIN <= from + days <= i32::MAX {
        Some((from + days) as i32)
    } else {
        None
    }
}

/// The number of the day that lies `days` days after the day with the number
/// `from`, where the calendar reaches that day.
pub open spec fn landed(from: i32, days: i64) -> Option<i32> {
    match shifted(from, days) {
        Some(n) => if reached(n) {
            Some(n)
        } else {
            None
        },
        None => None,
    }
}

/// The number of days from the day `from` to the day `to`, where `to` lies
/// after `from`.
pub open spec fn days_between(from: i32, to: i32) -> Option<i64> {
    if to > from {
        Some((to - from) as i64)
    } else {
        None
    }
}

impl DateWrapper {
    #[verifier::type_invariant]
    spec fn is_reached(self) -> bool {
        reached(self.days)
    }

    /// The number of the day.
    pub closed spec fn days(self) -> i32 {
        self.days
    }

    /// Creates the day with the given number.
    pub fn new(days: i32) -> (date: Self)
        requires
            reached(days),
        ensures
            date.days() == days,
    {
        Self { days }
    }

    /// The day with the given number, where the calendar reaches it.
    pub fn from_days(days: i32) -> (r: Option<Self>)
        ensures
            match r {
                Some(date) => reached(days) && date.days() == days,
                None => !reached(days),
            },
    {
        match write_date(days) {
            Some(_) => Some(Self::new(days)),
            None => None,
        }
    }

    /// Today, by the clock and the time zone of the machine.
    pub fn now() -> (date: Self)
        ensures
            reached(date.days()),
    {
        Self::new(today_from_ce())
    }

    /// The day that lies `days` days after today, where the calendar reaches
    /// it.
    pub fn in_days(days: i64) -> (date: Option<Self>)
        ensures
            exists|today: i32|
                reached(today) && match #[trigger] landed(today, days) {
                    Some(n) => date matches Some(d) && d.days() == n,
                    None => date is None,
                },
    {
        let today: Self = Self::now();
        let date: Option<Self> = today.checked_add_days(days);
        assert(reached(today.days()) && match landed(today.days(), days) {
            Some(n) => date matches Some(d) && d.days() == n,
            None => date is None,
        });
        date
    }

    /// The day that lies `days` days after this one, where the calendar
    /// reaches it.
    pub fn checked_add_days(&self, days: i64) -> (date: Option<Self>)
        ensures
            match landed(self.days(), days) {
                Some(n) => date matches Some(d) && d.days() == n,
                None => date is None,
            },
    {
        let from: i64 = self.days as i64;
        if days > i32::MAX as i64 - from || days < i32::MIN as i64 - from {
            return None;
        }
        match write_date((from + days) as i32) {
            Some(_) => Some(self.add_days(days)),
            None => None,
        }
    }

    /// The day that lies `days` days after this one.
    pub fn add_days(&self, days: i64) -> (date: Self)
        requires
            landed(self.days(), days) is Some,
        ensures
            Some(date.days()) == landed(self.days(), days),
    {
        Self { days: (self.days as i64 + days) as i32 }
    }

    /// The number of the day.
    pub fn num_days_from_ce(&self) -> (days: i32)
        ensures
            days == self.days(),
            reached(days),
    {
        proof {
            use_type_invariant(self);
        }
        self.days
    }

    /// The number of days since `other`, where this day lies after it.
    pub fn days_from(&self, other: &DateWrapper) -> (r: Option<i64>)
        ensures
            r == days_between(other.days(), self.days()),
    {
        let total: i64 = self.days as i64 - other.days as i64;
        if total > 0 {
            Some(total)
        } else {
            None
        }
    }

    /// The number of days until `other`, where this day lies before it.
    pub fn days_till(&self, other: &DateWrapper) -> (r: Option<i64>)
        ensures
            r == days_between(self.days(), other.days()),
    {
        let total: i64 = other.days as i64 - self.days as i64;
        if total > 0 {
            Some(total)
        } else {
            None
        }
    }

    /// Writes the day as a date.
    pub fn to_text(&self) -> (text: String)
        ensures
            date_text(self.days()) == Some(text@),
    {
        proof {
            use_type_invariant(self);
        }
        match write_date(self.days) {
            Some(text) => text,
            None => String::new(),
        }
    }

    /// Reads a day from a date of year, month and day, parted by dashes.
    pub fn from_text(text: &str) -> (r: Option<Self>)
        ensures
            match parsed_date(text@, DATE_FORMAT@) {
                Some(days) => match r {
                    Some(date) => reached(days) && date.days() == days,
                    None => !reached(days),
                },
                None => r is None,
            },
    {
        match read_date(text, DATE_FORMAT) {
            Some(days) => Self::from_days(days),
            None => None,
        }
    }
}

impl Default for DateWrapper {
    fn default() -> (date: Self)
        ensures
            reached(date.days()),
    {
        Self::now()
    }
}

} // verus!
