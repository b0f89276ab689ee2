//! Instants and calendar months.
//!
//! A [`Timestamp`] is an instant on the UTC time line, held as plain
//! integers.  What year and month an instant falls in is the business of the
//! `chrono` crate: the library asks it and reasons about the answers under the
//! names [`utc_year`] and [`utc_month`].

use chrono::{DateTime, Datelike, Months, Utc};
use vstd::prelude::*;

verus! {

/// An instant in UTC: the whole seconds since 1970-01-01 00:00:00 and the
/// nanoseconds into that second.
#[derive(Clone, Copy, Debug, PartialEq, Eq, Structural)]
pub struct Timestamp {
    pub secs: i64,
    pub nanos: u32,
}

/// A calendar month of a year: the window a harvest is made for.
#[derive(Clone, Copy, Debug, PartialEq, Eq, Structural)]
pub struct MonthWindow {
    pub year: i32,
    pub month: u32,
}

/// How many months `last_month_date` steps back from today.
pub const MONTHS_BACK: u32 = 0;

/// The calendar year in which `chrono` places the instant, or `None` where
/// `chrono` cannot represent the instant.
pub uninterp spec fn utc_year(secs: i64, nanos: u32) -> Option<i32>;

/// The calendar month, counted from 1, in which `chrono` places the instant,
/// or `None` where `chrono` cannot represent the instant.
pub uninterp spec fn utc_month(secs: i64, nanos: u32) -> Option<u32>;

/// The instant that `chrono` finds the given number of calendar months before
/// the given one, or `None` where it finds none.
pub uninterp spec fn utc_months_before(secs: i64, nanos: u32, months: u32) -> Option<(i64, u32)>;

/// Calls `chrono::DateTime::<Utc>::from_timestamp` and, on the date and time it
/// gives, `Datelike::year`.  Nothing is claimed of the year but that it is the
/// one `utc_year` names.
#[verifier::external_body]
fn chrono_year(secs: i64, nanos: u32) -> (y: Option<i32>)
    ensures
        y == utc_year(secs, nanos),
{
    DateTime::<Utc>::from_timestamp(secs, nanos).map(|t| t.year())
}

/// Calls `chrono::DateTime::<Utc>::from_timestamp` and, on the date and time it
/// gives, `Datelike::month`.  Nothing is claimed of the month but that it is
/// the one `utc_month` names.
#[verifier::external_body]
fn chrono_month(secs: i64, nanos: u32) -> (m: Option<u32>)
    ensures
        m == utc_month(secs, nanos),
{
    DateTime::<Utc>::from_timestamp(secs, nanos).map(|t| t.month())
}

/// Calls `chrono::Utc::now` and takes the instant apart with
/// `DateTime::timestamp` and `DateTime::timestamp_subsec_nanos`.  The contract
/// claims only that `chrono` can represent what it has just produced, which its
/// documentation of the round trip through `from_timestamp` promises.  `chrono`
/// gives up on a machine whose clock stands before 1970.
#[verifier::external_body]
fn chrono_now() -> (t: Timestamp)
    ensures
        utc_year(t.secs, t.nanos) is Some,
        utc_month(t.secs, t.nanos) is Some,
{
    let now = Utc::now();
    Timestamp { secs: now.timestamp(), nanos: now.timestamp_subsec_nanos() }
}

/// Calls `chrono::DateTime::checked_sub_months` on the date and time that
/// `from_timestamp` gives.  The result is the one `utc_months_before` names;
/// beyond that the contract claims what the source shows for a step of zero
/// months: an instant that `chrono` can represent comes back unchanged.
#[verifier::external_body]
fn chrono_months_before(t: Timestamp, months: u32) -> (r: Option<Timestamp>)
    ensures
        as_pair(r) == utc_months_before(t.secs, t.nanos, months),
        months == 0 && utc_year(t.secs, t.nanos) is Some ==> r == Some(t),
{
    let then = DateTime::<Utc>::from_timestamp(t.secs, t.nanos)?.checked_sub_months(
        Months::new(months),
    )?;
    Some(Timestamp { secs: then.timestamp(), nanos: then.timestamp_subsec_nanos() })
}

/// An optional instant as the pair of its two numbers.
pub open spec fn as_pair(t: Option<Timestamp>) -> Option<(i64, u32)> {
    match t {
        Some(t) => Some((t.secs, t.nanos)),
        None => None,
    }
}

impl Timestamp {
    /// The instant as one number that grows with time: nanoseconds are the
    /// low 32 bits' worth below each second.
    pub open spec fn time_key(self) -> int {
        self.secs * 0x1_0000_0000 + self.nanos
    }

    /// `chrono` knows the year and the month of the instant.
    pub open spec fn has_month(self) -> bool {
        utc_year(self.secs, self.nanos) is Some && utc_month(self.secs, self.nanos) is Some
    }

    /// `self` is no later than `other`.
    pub open spec fn no_later_than(self, other: Timestamp) -> bool {
        self.secs < other.secs || (self.secs == other.secs && self.nanos <= other.nanos)
    }

    /// The number by which instants are ordered.
    pub fn sort_key(&self) -> (k: i128)
        ensures
            k == self.time_key(),
    {
        (self.secs as i128) * 0x1_0000_0000 + (self.nanos as i128)
    }

    /// The instant the given number of calendar months earlier, as `chrono`
    /// computes it.
    pub fn months_before(&self, months: u32) -> (r: Option<Timestamp>)
        ensures
            as_pair(r) == utc_months_before(self.secs, self.nanos, months),
            months == 0 && utc_year(self.secs, self.nanos) is Some ==> r == Some(*self),
    {
        chrono_months_before(*self, months)
    }
}

/// Ordering instants by `time_key` is ordering them by seconds, then by
/// nanoseconds.
pub proof fn time_key_orders_instants(a: Timestamp, b: Timestamp)
    ensures
        a.time_key() <= b.time_key() <==> a.no_later_than(b),
        a.time_key() == b.time_key() <==> a == b,
{
}

impl MonthWindow {
    /// Whether a year and a month, as read off an instant, are this month.
    pub open spec fn is_month(self, year: Option<i32>, month: Option<u32>) -> bool {
        year == Some(self.year) && month == Some(self.month)
    }

    /// Whether a page whose oldest message was written in the given year and
    /// month has walked past this window, so that no further page is asked
    /// for: the year lies before the window's, or it is the window's year and
    /// the month number is greater than the window's.
    pub open spec fn is_passed(self, year: Option<i32>, month: Option<u32>) -> bool {
        match (year, month) {
            (Some(y), Some(m)) => y < self.year || (y == self.year && m > self.month),
            _ => false,
        }
    }

    /// The instant falls in this month.
    pub open spec fn holds(self, t: Timestamp) -> bool {
        self.is_month(utc_year(t.secs, t.nanos), utc_month(t.secs, t.nanos))
    }

    /// The instant lies where a harvest for this month stops.
    pub open spec fn passed_at(self, t: Timestamp) -> bool {
        self.is_passed(utc_year(t.secs, t.nanos), utc_month(t.secs, t.nanos))
    }

    /// Decides `is_month` on a year and a month already read off an instant.
    pub fn matches(&self, year: Option<i32>, month: Option<u32>) -> (b: bool)
        ensures
            b == self.is_month(year, month),
    {
        match (year, month) {
            (Some(y), Some(m)) => y == self.year && m == self.month,
            _ => false,
        }
    }

    /// Decides `is_passed` on a year and a month already read off an instant.
    pub fn passed(&self, year: Option<i32>, month: Option<u32>) -> (b: bool)
        ensures
            b == self.is_passed(year, month),
    {
        match (year, month) {
            (Some(y), Some(m)) => y < self.year || (y == self.year && m > self.month),
            _ => false,
        }
    }

    /// Whether the instant falls in this month.
    pub fn contains(&self, t: &Timestamp) -> (b: bool)
        ensures
            b == self.holds(*t),
    {
        self.matches(chrono_year(t.secs, t.nanos), chrono_month(t.secs, t.nanos))
    }

    /// Whether a page whose oldest message carries this instant ends the
    /// harvest.
    pub fn passed_by(&self, t: &Timestamp) -> (b: bool)
        ensures
            b == self.passed_at(*t),
    {
        self.passed(chrono_year(t.secs, t.nanos), chrono_month(t.secs, t.nanos))
    }

    /// The month in which the instant falls; `None` exactly where `chrono`
    /// cannot represent the instant.
    pub fn containing(t: &Timestamp) -> (w: Option<MonthWindow>)
        ensures
            match w {
                Some(w) => w.holds(*t),
                None => !t.has_month(),
            },
    {
        match (chrono_year(t.secs, t.nanos), chrono_month(t.secs, t.nanos)) {
            (Some(year), Some(month)) => Some(MonthWindow { year, month }),
            _ => None,
        }
    }
}

/// The instant from which the month to harvest is read: today, stepped back
/// by `MONTHS_BACK` calendar months.  The clock decides which instant it is;
/// whatever it says, an instant comes back, and one whose month is known.
pub fn last_month_date() -> (r: Option<Timestamp>)
    ensures
        r matches Some(t) && t.has_month(),
{
    let now = chrono_now();
    now.months_before(MONTHS_BACK)
}

} // verus!
