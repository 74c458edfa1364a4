//! The proleptic Gregorian calendar, as the `time` crate computes it: the
//! passage between Julian day numbers and calendar dates.

use crate::clock::{Date, JULIAN_DAY_MAX, JULIAN_DAY_MIN, YEAR_MAX, YEAR_MIN};
use vstd::prelude::*;

verus! {

/// Year, month and day of the calendar date with the given Julian day number.
pub uninterp spec fn civil_of_julian_day(julian_day: int) -> (int, int, int);

/// Julian day number of the calendar date `year`-`month`-`day`.
pub uninterp spec fn julian_day_of_civil(year: int, month: int, day: int) -> int;

/// Whether `year`-`month`-`day` names a date that every month of every
/// supported year has: a day up to the 28th.
pub open spec fn always_valid(year: int, month: int, day: int) -> bool {
    YEAR_MIN <= year <= YEAR_MAX && 1 <= month <= 12 && 1 <= day <= 28
}

/// Whether the date `a` is the date `b` or an earlier one, by year, then
/// month, then day.
pub open spec fn civil_not_after(a: (int, int, int), b: (int, int, int)) -> bool {
    a.0 < b.0 || (a.0 == b.0 && (a.1 < b.1 || (a.1 == b.1 && a.2 <= b.2)))
}

/// Calendar date of a Julian day number: `time::Date::from_julian_day`, read
/// back through `year`, `month` and `day`.
///
/// Taken on trust: the date is the named one, its year and month are in range
/// and its day is at least 1; and Julian day numbers count the days in
/// calendar order, so that no date up to the 28th of a month which is not
/// after the result has a later number than the argument.
#[verifier::external_body]
pub(crate) fn date_from_julian_day(julian_day: i32) -> (r: Date)
    requires
        JULIAN_DAY_MIN <= julian_day <= JULIAN_DAY_MAX,
    ensures
        (r.year as int, r.month as int, r.day as int) == civil_of_julian_day(julian_day as int),
        YEAR_MIN <= r.year <= YEAR_MAX,
        1 <= r.month <= 12,
        1 <= r.day,
        forall|year: int, month: int, day: int|
            always_valid(year, month, day) && civil_not_after(
                (year, month, day),
                (r.year as int, r.month as int, r.day as int),
            ) ==> #[trigger] julian_day_of_civil(year, month, day) <= julian_day,
{
    let date = time::Date::from_julian_day(julian_day).unwrap();
    Date { year: date.year(), month: u8::from(date.month()), day: date.day() }
}

/// Julian day number of a calendar date: `time::Date::from_calendar_date`,
/// then `time::Date::to_julian_day`.
///
/// Taken on trust: a date up to the 28th of a month of a supported year is
/// always accepted; an accepted date has the named number, which lies within
/// the supported calendar; and `time::Date::from_julian_day` leads back from
/// that number to the date.
#[verifier::external_body]
pub(crate) fn julian_day_from_date(year: i32, month: u8, day: u8) -> (r: Option<i32>)
    ensures
        always_valid(year as int, month as int, day as int) ==> r.is_some(),
        r matches Some(n) ==> {
            &&& n == julian_day_of_civil(year as int, month as int, day as int)
            &&& JULIAN_DAY_MIN <= n <= JULIAN_DAY_MAX
            &&& civil_of_julian_day(n as int) == (year as int, month as int, day as int)
        },
{
    let month = time::Month::try_from(month).ok()?;
    match time::Date::from_calendar_date(year, month, day) {
        Ok(date) => Some(date.to_julian_day()),
        Err(_) => None,
    }
}

} // verus!
