//! Calendar days and moments, held as the plain numbers a calendar shows.

use vstd::prelude::*;
use chrono::Datelike;
use chrono::Timelike;

verus! {

/// A calendar day, by year, month and day of the month.
#[derive(Clone, Copy, Debug, PartialEq, Eq, Structural)]
pub struct Date {
    pub year: i32,
    pub month: u32,
    pub day: u32,
}

/// A moment on a calendar day, to the second. It is the key under which a
/// journal keeps an entry.
#[derive(Clone, Copy, Debug, PartialEq, Eq, Structural)]
pub struct Timestamp {
    pub date: Date,
    pub hour: u32,
    pub minute: u32,
    pub second: u32,
}

impl Date {
    /// Whether this day comes before `other`: days are ordered by year, then
    /// month, then day of the month.
    pub open spec fn precedes(self, other: Date) -> bool {
        ||| self.year < other.year
        ||| self.year == other.year && self.month < other.month
        ||| self.year == other.year && self.month == other.month && self.day < other.day
    }

    /// Whether the month is one of the twelve and the day one of the thirty-one
    /// that a month can have. Not every such day is on the calendar.
    pub open spec fn within_bounds(self) -> bool {
        1 <= self.month <= 12 && 1 <= self.day <= 31
    }
}

impl Timestamp {
    /// Whether this moment comes before `other`: moments are ordered by day,
    /// then hour, minute and second.
    pub open spec fn precedes(self, other: Timestamp) -> bool {
        ||| self.date.precedes(other.date)
        ||| self.date == other.date && self.hour < other.hour
        ||| self.date == other.date && self.hour == other.hour && self.minute < other.minute
        ||| self.date == other.date && self.hour == other.hour && self.minute == other.minute
            && self.second < other.second
    }

    /// Whether the day is within its bounds and the hour, the minute and the
    /// second are numbers that a clock shows.
    pub open spec fn within_bounds(self) -> bool {
        &&& self.date.within_bounds()
        &&& self.hour < 24
        &&& self.minute < 60
        &&& self.second < 60
    }

    /// Whether this moment is earlier than `other`.
    pub fn is_before(&self, other: &Timestamp) -> (earlier: bool)
        ensures
            earlier == self.precedes(*other),
    {
        if self.date.year != other.date.year {
            self.date.year < other.date.year
        } else if self.date.month != other.date.month {
            self.date.month < other.date.month
        } else if self.date.day != other.date.day {
            self.date.day < other.date.day
        } else if self.hour != other.hour {
            self.hour < other.hour
        } else if self.minute != other.minute {
            self.minute < other.minute
        } else {
            self.second < other.second
        }
    }
}

/// The day on which it is called, by the machine's clock.
pub fn naive_now() -> (today: Date)
    ensures
        today.within_bounds(),
{
    current_moment().date
}

/// The moment at which it is called, on the clock and in the time zone of the
/// machine: `chrono::Local::now`, by its year, month, day, hour, minute and
/// second. The contract claims what `chrono` documents of each of these
/// numbers, whatever the moment: a month from 1 to 12, a day from 1 to 31, an
/// hour from 0 to 23, a minute and a second from 0 to 59. `chrono` does not
/// return where the machine's clock stands before the year 1970.
#[verifier::external_body]
pub(crate) fn current_moment() -> (now: Timestamp)
    ensures
        now.within_bounds(),
{
    let now = chrono::Local::now();
    Timestamp {
        date: Date { year: now.year(), month: now.month(), day: now.day() },
        hour: now.hour(),
        minute: now.minute(),
        second: now.second(),
    }
}

/// The order of moments is a strict total order: of two different moments
/// exactly one comes first, and the order carries over a moment in between.
pub proof fn lemma_moments_are_totally_ordered(a: Timestamp, b: Timestamp, c: Timestamp)
    ensures
        !a.precedes(a),
        a.precedes(b) ==> !b.precedes(a),
        a != b ==> a.precedes(b) || b.precedes(a),
        a.precedes(b) && b.precedes(c) ==> a.precedes(c),
{
}

} // verus!
