//! The days that a look at a range of days goes through, one by one. The
//! calendar is that of `chrono`.

use vstd::prelude::*;
use chrono::Datelike;
use crate::date::Date;

verus! {

/// The number of days from `first` to `last` as `chrono` counts them: what
/// `chrono::NaiveDate::signed_duration_since` gives, in whole days, negative
/// where `last` comes first; `None` where `chrono` knows no such day as one of
/// the two.
pub uninterp spec fn days_between(first: Date, last: Date) -> Option<i64>;

/// The day that follows `date` as `chrono::NaiveDate::succ_opt` gives it;
/// `None` where `chrono` knows no such day as `date`, or none after it.
pub uninterp spec fn day_after(date: Date) -> Option<Date>;

/// The days from `first` on, one after another, `count` of them; fewer where
/// the calendar ends before.
pub open spec fn days_from(first: Date, count: nat) -> Seq<Date>
    decreases count,
{
    if count == 0 {
        Seq::empty()
    } else {
        match day_after(first) {
            Some(next) => seq![first] + days_from(next, (count - 1) as nat),
            None => seq![first],
        }
    }
}

/// The days from `first` to `last`, both among them; none where `last` comes
/// before `first` or one of the two is on no calendar.
pub open spec fn span(first: Date, last: Date) -> Seq<Date> {
    match days_between(first, last) {
        Some(apart) => if apart >= 0 {
            days_from(first, (apart + 1) as nat)
        } else {
            Seq::empty()
        },
        None => Seq::empty(),
    }
}

/// The days of the range that `given` names: from the one day given to
/// `today`, or from the first to the second of two; none where `given` holds
/// no day or more than two.
pub open spec fn range_of(given: Seq<Date>, today: Date) -> Seq<Date> {
    if given.len() == 1 {
        span(given[0], today)
    } else if given.len() == 2 {
        span(given[0], given[1])
    } else {
        Seq::empty()
    }
}

/// Makes both days by `chrono::NaiveDate::from_ymd_opt` and counts the days
/// from the first to the second by `signed_duration_since` and `num_days`. The
/// contract gives the result its name and claims nothing else of it.
#[verifier::external_body]
fn count_days(first: Date, last: Date) -> (apart: Option<i64>)
    ensures
        apart == days_between(first, last),
{
    let first = chrono::NaiveDate::from_ymd_opt(first.year, first.month, first.day)?;
    let last = chrono::NaiveDate::from_ymd_opt(last.year, last.month, last.day)?;
    Some(last.signed_duration_since(first).num_days())
}

/// Makes the day by `chrono::NaiveDate::from_ymd_opt` and takes the one that
/// follows it by `succ_opt`. The contract gives the result its name and claims
/// nothing else of it.
#[verifier::external_body]
fn next_day(date: Date) -> (next: Option<Date>)
    ensures
        next == day_after(date),
{
    let next = chrono::NaiveDate::from_ymd_opt(date.year, date.month, date.day)?.succ_opt()?;
    Some(Date { year: next.year(), month: next.month(), day: next.day() })
}

/// The days from `first` to `last`, both among them, in their order.
pub fn days_through(first: Date, last: Date) -> (days: Vec<Date>)
    ensures
        days@ == span(first, last),
{
    let mut days = Vec::new();
    let apart = match count_days(first, last) {
        Some(apart) => apart,
        None => return days,
    };
    if apart < 0 {
        return days;
    }
    let mut day = first;
    let mut left = apart;
    let mut more = true;
    while more
        invariant
            0 <= left <= apart,
            more ==> days@ + days_from(day, (left + 1) as nat) == days_from(
                first,
                (apart + 1) as nat,
            ),
            !more ==> days@ == days_from(first, (apart + 1) as nat),
        decreases
            if more {
                left + 1
            } else {
                0
            },
    {
        let ghost before = days@;
        let ghost rest = days_from(day, (left + 1) as nat);
        days.push(day);
        if left == 0 {
            more = false;
            assert(days@ == before + rest) by {
                reveal_with_fuel(days_from, 2);
            }
        } else {
            match next_day(day) {
                Some(next) => {
                    assert(days@ + days_from(next, left as nat) == before + rest);
                    day = next;
                    left -= 1;
                },
                None => {
                    more = false;
                    assert(days@ == before + rest);
                },
            }
        }
    }
    days
}

/// The days of the range that `given` names: from the one day given to
/// `today`, or from the first to the second of two, in their order. Where
/// `given` holds no day or more than two there is no range, and no day.
pub fn range_days(given: &Vec<Date>, today: Date) -> (days: Vec<Date>)
    ensures
        days@ == range_of(given@, today),
{
    if given.len() == 1 {
        days_through(given[0], today)
    } else if given.len() == 2 {
        days_through(given[0], given[1])
    } else {
        Vec::new()
    }
}

} // verus!
