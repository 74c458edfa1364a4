//! The time bucketer on the market's own clock: from a wall-clock reading to
//! the reading at which its bar begins.

use crate::calendar::{
    always_valid,
    civil_not_after,
    civil_of_julian_day,
    date_from_julian_day,
    julian_day_from_date,
    julian_day_of_civil,
};
use crate::clock::{Date, LocalDateTime, Time, JULIAN_DAY_MIN, NANOS_PER_MINUTE};
use crate::find_session::{find_session, spec_find_session, FindSessionResult};
use crate::market::TradeSession;
use crate::types::Period;
use vstd::arithmetic::div_mod::{
    lemma_fundamental_div_mod,
    lemma_mod_decreases,
    lemma_mod_multiples_basic,
    lemma_mod_pos_bound,
};
use vstd::arithmetic::mul::lemma_mul_is_commutative;
use vstd::prelude::*;

verus! {

/// The time of day that counts for a tick at `time`, with the index of its
/// window: the time itself inside a window; the window's end for a tick that
/// is late by less than the window's grace period; none before the first
/// window and once the grace period has run out.
pub open spec fn spec_session_time(windows: Seq<TradeSession>, time: int) -> Option<(int, int)> {
    match spec_find_session(windows, time) {
        FindSessionResult::BeforeFirst => None,
        FindSessionResult::Between(n) => Some((time, n as int)),
        FindSessionResult::After(n) => if time >= windows[n as int].spec_deadline() {
            None
        } else {
            Some((windows[n as int].end@, n as int))
        },
    }
}

/// The time of day that counts for a tick at `time`, and the index of the
/// window that it belongs to.
pub fn session_time(windows: &Vec<TradeSession>, time: Time) -> (r: Option<(Time, usize)>)
    ensures
        r matches Some(found) ==> {
            &&& spec_session_time(windows@, time@) == Some((found.0@, found.1 as int))
            &&& found.1 < windows.len()
            &&& windows[found.1 as int].start@ <= time@
            &&& found.0@ <= time@
            &&& found.0@ == time@ || found.0 == windows[found.1 as int].end
        },
        r is None ==> spec_session_time(windows@, time@) is None,
{
    match find_session(windows, time) {
        FindSessionResult::BeforeFirst => None,
        FindSessionResult::Between(n) => Some((time, n)),
        FindSessionResult::After(n) => {
            let window: TradeSession = windows[n];
            if time.as_nanos() >= window.deadline().as_nanos() {
                None
            } else {
                Some((window.end, n))
            }
        },
    }
}

/// `time` with its seconds and nanoseconds cut off.
pub open spec fn spec_minute_floor(time: int) -> int {
    time - time % 60_000_000_000
}

/// The start of the bar of `minutes` minutes that holds `time`, on a grid
/// whose first bar begins at `start`: `start` moved by the whole minutes
/// between the two, rounded towards zero to a multiple of `minutes`.
pub open spec fn spec_anchored(start: int, time: int, minutes: int) -> int {
    let elapsed = time / 60_000_000_000 - start / 60_000_000_000;
    if elapsed >= 0 {
        start + (elapsed - elapsed % minutes) * 60_000_000_000
    } else {
        start - ((-elapsed) - (-elapsed) % minutes) * 60_000_000_000
    }
}

/// The time of day at which the bar that holds `time` begins, in a window
/// that opens at `start`: the minute of `time` for a period of one minute; a
/// point of the grid anchored at `start` for a longer period of minutes;
/// midnight for a period of a day or longer.
pub open spec fn spec_bucket_time(period: Period, start: int, time: int) -> int {
    match period {
        Period::Min_1 => spec_minute_floor(time),
        Period::Day | Period::Week | Period::Month | Period::Quarter | Period::Year => 0,
        _ => spec_anchored(start, time, period.spec_minutes()),
    }
}

/// The first month of the period that holds `month`: the month itself, the
/// first month of its quarter, or January.
pub open spec fn spec_first_month(period: Period, month: int) -> int {
    match period {
        Period::Month => month,
        Period::Quarter => month - (month - 1) % 3,
        _ => 1,
    }
}

/// Julian day number of the Monday of the week that holds the day
/// `julian_day`.  Julian day numbers that are multiples of seven are Mondays.
pub open spec fn spec_week_start(julian_day: int) -> int {
    julian_day - julian_day % 7
}

/// Julian day number of the day on which the bar that holds the day
/// `julian_day` begins: the day itself for a period of up to a day; the
/// Monday of its week; the first day of its month, quarter or year.
pub open spec fn spec_bucket_day(period: Period, julian_day: int) -> int {
    match period {
        Period::Week => spec_week_start(julian_day),
        Period::Month | Period::Quarter | Period::Year => {
            let date = civil_of_julian_day(julian_day);
            julian_day_of_civil(date.0, spec_first_month(period, date.1), 1)
        },
        _ => julian_day,
    }
}

/// A bar of minutes never begins after the time that it holds, provided the
/// window opens on a whole minute and not after that time; a bar of a day or
/// longer begins at midnight.
pub proof fn lemma_bucket_time_not_after(period: Period, start: int, time: int)
    requires
        0 <= start,
        0 <= time,
        period.spec_minutes() > 1 ==> start % 60_000_000_000 == 0 && start <= time,
    ensures
        0 <= spec_bucket_time(period, start, time) <= time,
{
    let minutes = period.spec_minutes();
    if minutes > 1 {
        let elapsed = time / 60_000_000_000 - start / 60_000_000_000;
        lemma_mod_pos_bound(elapsed, minutes);
    }
}

/// The start of a bar is the start of its own bar.
pub proof fn lemma_bucket_time_idempotent(period: Period, start: int, time: int)
    requires
        0 <= start,
        0 <= time,
    ensures
        spec_bucket_time(period, start, spec_bucket_time(period, start, time)) == spec_bucket_time(
            period,
            start,
            time,
        ),
{
    let minutes = period.spec_minutes();
    if minutes > 1 {
        let elapsed = time / 60_000_000_000 - start / 60_000_000_000;
        let size = if elapsed >= 0 {
            elapsed
        } else {
            -elapsed
        };
        let whole = size - size % minutes;
        lemma_mod_pos_bound(size, minutes);
        lemma_fundamental_div_mod(size, minutes);
        lemma_mod_multiples_basic(size / minutes, minutes);
        lemma_mul_is_commutative(size / minutes, minutes);
        assert(whole % minutes == 0);
        let bucket = spec_anchored(start, time, minutes);
        if elapsed >= 0 {
            assert(bucket / 60_000_000_000 - start / 60_000_000_000 == whole);
        } else {
            assert(bucket / 60_000_000_000 - start / 60_000_000_000 == -whole);
        }
    }
}

/// Bars of minutes lie on a grid anchored at the window's start: a time at
/// or after the start falls in the bar that begins a whole number of periods
/// after the start, and no further than one period before the time's minute.
pub proof fn lemma_anchored_to_start(start: int, time: int, minutes: int)
    requires
        0 <= start <= time,
        minutes > 0,
    ensures
        ({
            let index = (time / 60_000_000_000 - start / 60_000_000_000) / minutes;
            let bucket = spec_anchored(start, time, minutes);
            &&& 0 <= index
            &&& bucket == start + index * minutes * 60_000_000_000
            &&& bucket / 60_000_000_000 <= time / 60_000_000_000 < bucket / 60_000_000_000
                + minutes
        }),
{
    let elapsed = time / 60_000_000_000 - start / 60_000_000_000;
    let index = elapsed / minutes;
    lemma_mod_pos_bound(elapsed, minutes);
    lemma_fundamental_div_mod(elapsed, minutes);
    lemma_mul_is_commutative(index, minutes);
    assert(elapsed - elapsed % minutes == index * minutes);
    assert(index >= 0) by (nonlinear_arith)
        requires
            index * minutes >= 0 - minutes + 1,
            index * minutes + minutes > 0,
            minutes > 0,
    ;
}

/// What keeps a bar from beginning after a time that it holds: a bar of
/// several minutes needs a window that opens on a whole minute and not after
/// `time`; any other bar needs nothing.
pub open spec fn opens_aligned(period: Period, start: int, time: int) -> bool {
    period.spec_minutes() > 1 ==> start % 60_000_000_000 == 0 && start <= time
}

/// The point of the grid of `minutes` minutes anchored at `start` at which
/// the bar that holds `time` begins.
fn anchored(start: Time, time: Time, minutes: u16) -> (r: Time)
    requires
        minutes > 0,
    ensures
        r@ == spec_anchored(start@, time@, minutes as int),
{
    let t: u64 = time.as_nanos();
    let s: u64 = start.as_nanos();
    let start_minutes: u64 = s / NANOS_PER_MINUTE;
    let current_minutes: u64 = t / NANOS_PER_MINUTE;
    let step: u64 = minutes as u64;
    let nanos: u64 = if current_minutes >= start_minutes {
        let elapsed: u64 = current_minutes - start_minutes;
        let rest: u64 = elapsed % step;
        proof {
            lemma_mod_decreases(elapsed as nat, step as nat);
        }
        let whole: u64 = elapsed - rest;
        s + whole * NANOS_PER_MINUTE
    } else {
        let behind: u64 = start_minutes - current_minutes;
        let rest: u64 = behind % step;
        proof {
            lemma_mod_decreases(behind as nat, step as nat);
        }
        let whole: u64 = behind - rest;
        s - whole * NANOS_PER_MINUTE
    };
    Time::from_nanos(nanos).unwrap()
}

/// The time of day at which the bar that holds `time` begins, in a window
/// that opens at `start`.
///
/// The bar does not begin after `time`, wherever `opens_aligned` holds.  The
/// start of a bar is the start of its own bar.
pub fn bucket_time(period: Period, start: Time, time: Time) -> (r: Time)
    ensures
        r@ == spec_bucket_time(period, start@, time@),
        opens_aligned(period, start@, time@) ==> r@ <= time@,
        spec_bucket_time(period, start@, r@) == r@,
{
    let t: u64 = time.as_nanos();
    let s: u64 = start.as_nanos();
    proof {
        if opens_aligned(period, start@, time@) {
            lemma_bucket_time_not_after(period, start@, time@);
        }
        lemma_bucket_time_idempotent(period, start@, time@);
    }
    match period.minutes() {
        None => Time::midnight(),
        Some(minutes) => if minutes == 1 {
            Time::from_nanos(t - t % NANOS_PER_MINUTE).unwrap()
        } else {
            anchored(start, time, minutes)
        },
    }
}

/// Julian day number of the Monday of the week that holds the day
/// `julian_day`: the day itself or one of the six days before it.
pub fn week_start(julian_day: i32) -> (r: i32)
    requires
        julian_day >= i32::MIN + 6,
    ensures
        r == spec_week_start(julian_day as int),
        r <= julian_day < r + 7,
        spec_week_start(r as int) == r,
{
    let weekday: i32 = julian_day % 7;
    if weekday < 0 {
        julian_day - (weekday + 7)
    } else {
        julian_day - weekday
    }
}

/// The first month of the period that holds `month`.
pub fn first_month(period: Period, month: u8) -> (r: u8)
    requires
        1 <= month <= 12,
    ensures
        r == spec_first_month(period, month as int),
        1 <= r <= month,
{
    match period {
        Period::Month => month,
        Period::Quarter => month - (month - 1) % 3,
        _ => 1,
    }
}

/// The wall-clock reading at which the bar that holds `local` begins, for a
/// window that opens at `start`; none where the bar's first day lies before
/// the supported calendar.
///
/// The bar does not begin after the reading, wherever `opens_aligned` holds.
/// The start of a bar is the start of its own bar.
pub fn bucket_start(period: Period, start: Time, local: &LocalDateTime) -> (r: Option<
    LocalDateTime,
>)
    ensures
        r.is_some() <==> spec_bucket_day(period, local.julian_day() as int) >= JULIAN_DAY_MIN,
        r matches Some(bucket) ==> {
            &&& bucket.julian_day() == spec_bucket_day(period, local.julian_day() as int)
            &&& bucket.time()@ == spec_bucket_time(period, start@, local.time()@)
            &&& bucket.offset() == local.offset()
            &&& opens_aligned(period, start@, local.time()@) ==> bucket.wall_nanos()
                <= local.wall_nanos()
            &&& spec_bucket_day(period, bucket.julian_day() as int) == bucket.julian_day()
            &&& spec_bucket_time(period, start@, bucket.time()@) == bucket.time()@
        },
{
    let day: i32 = local.julian_day();
    let time: Time = bucket_time(period, start, local.time());
    let first_day: i32 = match period {
        Period::Week => week_start(day),
        Period::Month | Period::Quarter | Period::Year => {
            let date: Date = date_from_julian_day(day);
            let month: u8 = first_month(period, date.month);
            assert(always_valid(date.year as int, month as int, 1));
            assert(civil_not_after(
                (date.year as int, month as int, 1),
                (date.year as int, date.month as int, date.day as int),
            ));
            julian_day_from_date(date.year, month, 1).unwrap()
        },
        _ => day,
    };
    LocalDateTime::new(first_day, time, local.offset())
}

} // verus!
