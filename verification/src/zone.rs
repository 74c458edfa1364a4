//! Time zones of the IANA database, as the `time-tz` crate holds them.  A
//! zone is known by its name, such as `Asia/Hong_Kong`.

use crate::clock::{
    instant_in_calendar,
    wall_day_in_calendar,
    wall_julian_day,
    wall_time,
    LocalDateTime,
    Time,
    Timestamp,
    UNIX_EPOCH_JULIAN_DAY,
    UNIX_SECONDS_MAX,
    UNIX_SECONDS_MIN,
};
use time_tz::{Offset, PrimitiveDateTimeExt, TimeZone};
use vstd::prelude::*;

verus! {

/// Whether the database holds a zone of this name.
pub uninterp spec fn zone_known(zone: Seq<char>) -> bool;

/// Seconds east of UTC that the zone's clocks are set to at the instant
/// `unix_seconds`.
pub uninterp spec fn zone_offset_seconds(zone: Seq<char>, unix_seconds: int) -> int;

/// Seconds east of UTC of the zone's clock when it first shows the wall-clock
/// reading `local_seconds`, counted as seconds since 1970-01-01T00:00:00 on that
/// clock; none where the clock skips the reading.
pub uninterp spec fn zone_first_offset_of_local(zone: Seq<char>, local_seconds: int) -> Option<
    int,
>;

/// Whether the database holds the zone: `time_tz::timezones::get_by_name`.
#[verifier::external_body]
pub(crate) fn zone_exists(zone: &str) -> (r: bool)
    ensures
        r == zone_known(zone@),
{
    time_tz::timezones::get_by_name(zone).is_some()
}

/// The zone's UTC offset at an instant: `time_tz::TimeZone::get_offset_utc` of
/// the zone that `time_tz::timezones::get_by_name` finds, in whole seconds.
///
/// Taken on trust: the result is the named offset, the same for the same
/// zone and second.
#[verifier::external_body]
pub(crate) fn zone_offset_at(zone: &str, unix_seconds: i64) -> (r: i32)
    requires
        zone_known(zone@),
        UNIX_SECONDS_MIN <= unix_seconds <= UNIX_SECONDS_MAX,
    ensures
        r == zone_offset_seconds(zone@, unix_seconds as int),
{
    let tz = time_tz::timezones::get_by_name(zone).unwrap();
    let at = time::OffsetDateTime::from_unix_timestamp(unix_seconds).unwrap();
    tz.get_offset_utc(&at).to_utc().whole_seconds()
}

/// The UTC offset that the zone gives a wall-clock reading:
/// `time_tz::PrimitiveDateTimeExt::assume_timezone`, then
/// `time_tz::OffsetResult::take_first`, in whole seconds.
///
/// Taken on trust: the result is the named offset, the same for the same
/// zone and reading.
#[verifier::external_body]
pub(crate) fn zone_offset_of_local(zone: &str, local_seconds: i64) -> (r: Option<i32>)
    requires
        zone_known(zone@),
        UNIX_SECONDS_MIN <= local_seconds <= UNIX_SECONDS_MAX,
    ensures
        r matches Some(offset) ==> zone_first_offset_of_local(zone@, local_seconds as int) == Some(
            offset as int,
        ),
        r is None ==> zone_first_offset_of_local(zone@, local_seconds as int) is None,
{
    let tz = time_tz::timezones::get_by_name(zone).unwrap();
    let wall = time::OffsetDateTime::from_unix_timestamp(local_seconds).unwrap();
    match time::PrimitiveDateTime::new(wall.date(), wall.time()).assume_timezone(tz).take_first() {
        Some(at) => Some(at.offset().whole_seconds()),
        None => None,
    }
}

/// The UTC offset in force in `zone` at the instant `t`: none for an unknown
/// zone or an instant outside the supported calendar.
pub open spec fn spec_offset_at(zone: Seq<char>, t: int) -> Option<int> {
    if zone_known(zone) && instant_in_calendar(t) {
        Some(zone_offset_seconds(zone, t / 1_000_000_000))
    } else {
        None
    }
}

/// The UTC offset in force in `zone` at the instant `t`, in seconds east of
/// UTC.
pub fn offset_at(zone: &str, t: Timestamp) -> (r: Option<i32>)
    ensures
        r matches Some(offset) ==> spec_offset_at(zone@, t@) == Some(offset as int),
        r is None ==> spec_offset_at(zone@, t@) is None,
{
    if !zone_exists(zone) {
        return None;
    }
    match t.unix_seconds() {
        Some(seconds) => Some(zone_offset_at(zone, seconds)),
        None => None,
    }
}

/// What the clocks of `zone` show at the instant `t`: the Julian day number,
/// the time of day in nanoseconds and the offset in seconds east of UTC.  None
/// for an unknown zone, for an instant outside the supported calendar and for
/// a day outside it.
pub open spec fn spec_local_time(zone: Seq<char>, t: int) -> Option<(int, int, int)> {
    match spec_offset_at(zone, t) {
        Some(offset) => if wall_day_in_calendar(t, offset) {
            Some((wall_julian_day(t, offset), wall_time(t, offset), offset))
        } else {
            None
        },
        None => None,
    }
}

/// What the clocks of `zone` show at the instant `t`.
pub fn local_time(zone: &str, t: Timestamp) -> (r: Option<LocalDateTime>)
    ensures
        r matches Some(local) ==> {
            &&& spec_local_time(zone@, t@) == Some(
                (local.julian_day() as int, local.time()@, local.offset() as int),
            )
            &&& local.instant() == t@
        },
        r is None ==> spec_local_time(zone@, t@) is None,
{
    match offset_at(zone, t) {
        Some(offset) => t.to_offset(offset),
        None => None,
    }
}

/// The instant at which a clock `offset` seconds east of UTC shows the time
/// of day `time` on the day `julian_day`, in nanoseconds since the Unix epoch.
pub open spec fn spec_instant(julian_day: int, time: int, offset: int) -> int {
    (julian_day - UNIX_EPOCH_JULIAN_DAY) * 86_400_000_000_000 + time - offset * 1_000_000_000
}

/// The first instant at which the clocks of `zone` show the time of day
/// `time` on the day `julian_day`; none for an unknown zone and for a reading
/// that the zone's clocks skip.
pub open spec fn spec_first_instant(zone: Seq<char>, julian_day: int, time: int) -> Option<int> {
    if zone_known(zone) {
        match zone_first_offset_of_local(
            zone,
            (julian_day - UNIX_EPOCH_JULIAN_DAY) * 86_400 + time / 1_000_000_000,
        ) {
            Some(offset) => Some(spec_instant(julian_day, time, offset)),
            None => None,
        }
    } else {
        None
    }
}

/// The first instant at which the clocks of `zone` show the day and the time
/// of day of `reading`, whatever offset the reading came with.
pub fn first_instant(zone: &str, reading: &LocalDateTime) -> (r: Option<Timestamp>)
    ensures
        r matches Some(t) ==> spec_first_instant(
            zone@,
            reading.julian_day() as int,
            reading.time()@,
        ) == Some(t@),
        r is None ==> spec_first_instant(zone@, reading.julian_day() as int, reading.time()@)
            is None,
{
    if !zone_exists(zone) {
        return None;
    }
    let day: i32 = reading.julian_day();
    let time: Time = reading.time();
    let seconds: i64 = (day as i64 - UNIX_EPOCH_JULIAN_DAY as i64) * 86_400 + (time.as_nanos()
        / 1_000_000_000) as i64;
    match zone_offset_of_local(zone, seconds) {
        Some(offset) => Some(LocalDateTime::new(day, time, offset).unwrap().to_timestamp()),
        None => None,
    }
}

} // verus!
