//! Plain time values: instants on the Unix timeline, times of day, durations,
//! calendar dates and wall-clock readings at a fixed UTC offset.

use vstd::prelude::*;

verus! {

pub const NANOS_PER_SECOND: u64 = 1_000_000_000;

pub const NANOS_PER_MINUTE: u64 = 60_000_000_000;

pub const NANOS_PER_HOUR: u64 = 3_600_000_000_000;

pub const NANOS_PER_DAY: u64 = 86_400_000_000_000;

/// Julian day number of 1 January 1970.
pub const UNIX_EPOCH_JULIAN_DAY: i32 = 2_440_588;

/// Julian day number of the first day of the supported calendar, 1 January -9999.
pub const JULIAN_DAY_MIN: i32 = -1_930_999;

/// Julian day number of the last day of the supported calendar, 31 December 9999.
pub const JULIAN_DAY_MAX: i32 = 5_373_484;

pub const YEAR_MIN: i32 = -9999;

pub const YEAR_MAX: i32 = 9999;

/// Unix time, in seconds, of the first second of the supported calendar in UTC.
pub const UNIX_SECONDS_MIN: i64 = -377_705_116_800;

/// Unix time, in seconds, of the last second of the supported calendar in UTC.
pub const UNIX_SECONDS_MAX: i64 = 253_402_300_799;

/// No duration is longer than this many nanoseconds, in either direction.
pub const DURATION_NANOS_LIMIT: i128 = 1_000_000_000_000_000_000_000_000_000_000_000;

/// Floor division of a signed number of nanoseconds by one day: the whole
/// days and the nanoseconds left over, which are never negative.
pub fn split_days(nanos: i128) -> (r: (i128, u64))
    ensures
        r.0 == nanos as int / 86_400_000_000_000,
        r.1 == nanos as int % 86_400_000_000_000,
        r.1 < NANOS_PER_DAY,
{
    let q: i128 = nanos / 86_400_000_000_000;
    let m: i128 = nanos % 86_400_000_000_000;
    if m < 0 {
        (q - 1, (m + 86_400_000_000_000) as u64)
    } else {
        (q, m as u64)
    }
}

/// Floor division of a signed number of nanoseconds by one second.
pub fn whole_seconds(nanos: i128) -> (r: i128)
    ensures
        r == nanos as int / 1_000_000_000,
{
    let q: i128 = nanos / 1_000_000_000;
    let m: i128 = nanos % 1_000_000_000;
    if m < 0 {
        q - 1
    } else {
        q
    }
}

/// Nanoseconds after midnight of the clock reading `hour:minute:second.nanosecond`.
pub open spec fn hms_nanos(hour: int, minute: int, second: int, nanosecond: int) -> int {
    hour * 3_600_000_000_000 + minute * 60_000_000_000 + second * 1_000_000_000 + nanosecond
}

/// A time of day with nanosecond precision.  Its view is the number of
/// nanoseconds since midnight, which is always less than one day.
#[derive(Clone, Copy, Debug, PartialEq, Eq, Structural, PartialOrd, Ord, Hash)]
pub struct Time {
    nanos: u64,
}

impl View for Time {
    type V = int;

    closed spec fn view(&self) -> int {
        self.nanos as int
    }
}

impl Time {
    #[verifier::type_invariant]
    spec fn within_day(self) -> bool {
        self.nanos < NANOS_PER_DAY
    }

    /// 00:00:00.
    pub fn midnight() -> (r: Time)
        ensures
            r@ == 0,
    {
        Time { nanos: 0 }
    }

    /// The time of day that lies `nanos` nanoseconds after midnight, if that
    /// is within the day.
    pub fn from_nanos(nanos: u64) -> (r: Option<Time>)
        ensures
            r.is_some() <==> nanos < NANOS_PER_DAY,
            r matches Some(t) ==> t@ == nanos,
    {
        if nanos < NANOS_PER_DAY {
            Some(Time { nanos })
        } else {
            None
        }
    }

    /// The time of day `hour:minute:second`, if each part is within its range.
    pub fn from_hms(hour: u8, minute: u8, second: u8) -> (r: Option<Time>)
        ensures
            r.is_some() <==> hour < 24 && minute < 60 && second < 60,
            r matches Some(t) ==> t@ == hms_nanos(hour as int, minute as int, second as int, 0),
    {
        Time::from_hms_nano(hour, minute, second, 0)
    }

    /// The time of day `hour:minute:second.nanosecond`, if each part is within
    /// its range.
    pub fn from_hms_nano(hour: u8, minute: u8, second: u8, nanosecond: u32) -> (r: Option<Time>)
        ensures
            r.is_some() <==> hour < 24 && minute < 60 && second < 60 && nanosecond < 1_000_000_000,
            r matches Some(t) ==> t@ == hms_nanos(
                hour as int,
                minute as int,
                second as int,
                nanosecond as int,
            ),
    {
        if hour < 24 && minute < 60 && second < 60 && nanosecond < 1_000_000_000 {
            let nanos: u64 = hour as u64 * NANOS_PER_HOUR + minute as u64 * NANOS_PER_MINUTE
                + second as u64 * NANOS_PER_SECOND + nanosecond as u64;
            Some(Time { nanos })
        } else {
            None
        }
    }

    /// Nanoseconds since midnight.
    pub fn as_nanos(&self) -> (r: u64)
        ensures
            r == self@,
            r < NANOS_PER_DAY,
    {
        proof {
            use_type_invariant(self);
        }
        self.nanos
    }

    /// The clock hour, 0 to 23.
    pub fn hour(&self) -> (r: u8)
        ensures
            r == self@ / 3_600_000_000_000,
            r < 24,
    {
        proof {
            use_type_invariant(self);
        }
        (self.nanos / NANOS_PER_HOUR) as u8
    }

    /// The minute within the hour, 0 to 59.
    pub fn minute(&self) -> (r: u8)
        ensures
            r == (self@ / 60_000_000_000) % 60,
            r < 60,
    {
        proof {
            use_type_invariant(self);
        }
        ((self.nanos / NANOS_PER_MINUTE) % 60) as u8
    }

    /// The second within the minute, 0 to 59.
    pub fn second(&self) -> (r: u8)
        ensures
            r == (self@ / 1_000_000_000) % 60,
            r < 60,
    {
        proof {
            use_type_invariant(self);
        }
        ((self.nanos / NANOS_PER_SECOND) % 60) as u8
    }

    /// The nanosecond within the second.
    pub fn nanosecond(&self) -> (r: u32)
        ensures
            r == self@ % 1_000_000_000,
            r < 1_000_000_000,
    {
        proof {
            use_type_invariant(self);
        }
        (self.nanos % NANOS_PER_SECOND) as u32
    }

    /// This time of day moved by `duration`, wrapping around midnight in
    /// either direction.
    pub fn wrapping_add(&self, duration: Duration) -> (r: Time)
        ensures
            r@ == (self@ + duration@) % 86_400_000_000_000,
    {
        proof {
            use_type_invariant(self);
        }
        let sum: i128 = self.nanos as i128 + duration.whole_nanoseconds();
        let parts: (i128, u64) = split_days(sum);
        Time { nanos: parts.1 }
    }
}

/// A signed span of time with nanosecond precision.  Its view is the number
/// of nanoseconds, negative for a span that points backwards.
#[derive(Clone, Copy, Debug, PartialEq, Eq, Structural, PartialOrd, Ord, Hash)]
pub struct Duration {
    nanos: i128,
}

impl View for Duration {
    type V = int;

    closed spec fn view(&self) -> int {
        self.nanos as int
    }
}

impl Duration {
    #[verifier::type_invariant]
    spec fn within_limit(self) -> bool {
        -DURATION_NANOS_LIMIT <= self.nanos <= DURATION_NANOS_LIMIT
    }

    /// The empty span.
    pub fn zero() -> (r: Duration)
        ensures
            r@ == 0,
    {
        Duration { nanos: 0 }
    }

    /// A span of `nanoseconds` nanoseconds.
    pub fn nanoseconds(nanoseconds: i64) -> (r: Duration)
        ensures
            r@ == nanoseconds,
    {
        Duration { nanos: nanoseconds as i128 }
    }

    /// A span of `seconds` seconds.
    pub fn seconds(seconds: i64) -> (r: Duration)
        ensures
            r@ == seconds * 1_000_000_000,
    {
        Duration { nanos: seconds as i128 * 1_000_000_000 }
    }

    /// A span of `minutes` minutes.
    pub fn minutes(minutes: i64) -> (r: Duration)
        ensures
            r@ == minutes * 60_000_000_000,
    {
        Duration { nanos: minutes as i128 * 60_000_000_000 }
    }

    /// A span of `seconds` seconds and `nanoseconds` nanoseconds.
    pub fn new(seconds: i64, nanoseconds: i32) -> (r: Duration)
        ensures
            r@ == seconds * 1_000_000_000 + nanoseconds,
    {
        Duration { nanos: seconds as i128 * 1_000_000_000 + nanoseconds as i128 }
    }

    /// The span in nanoseconds.
    pub fn whole_nanoseconds(&self) -> (r: i128)
        ensures
            r == self@,
            -DURATION_NANOS_LIMIT <= r <= DURATION_NANOS_LIMIT,
    {
        proof {
            use_type_invariant(self);
        }
        self.nanos
    }

    /// Whether the span is empty.
    pub fn is_zero(&self) -> (r: bool)
        ensures
            r == (self@ == 0),
    {
        self.nanos == 0
    }
}

/// An instant: nanoseconds since 1970-01-01T00:00:00Z.  An instant carries no
/// offset, so two instants are equal exactly when they denote the same moment.
#[derive(Clone, Copy, Debug, PartialEq, Eq, Structural, PartialOrd, Ord, Hash)]
pub struct Timestamp {
    pub nanos: i128,
}

impl View for Timestamp {
    type V = int;

    open spec fn view(&self) -> int {
        self.nanos as int
    }
}

impl Timestamp {
    /// The instant `nanos` nanoseconds after the Unix epoch.
    pub fn from_unix_nanos(nanos: i128) -> (r: Timestamp)
        ensures
            r@ == nanos,
    {
        Timestamp { nanos }
    }

    /// The instant `seconds` seconds after the Unix epoch.
    pub fn from_unix_seconds(seconds: i64) -> (r: Timestamp)
        ensures
            r@ == seconds * 1_000_000_000,
    {
        Timestamp { nanos: seconds as i128 * 1_000_000_000 }
    }

    /// Nanoseconds since the Unix epoch.
    pub fn unix_nanos(&self) -> (r: i128)
        ensures
            r == self@,
    {
        self.nanos
    }

    /// Whole seconds since the Unix epoch, rounded towards the past, for an
    /// instant within the supported calendar.
    pub fn unix_seconds(&self) -> (r: Option<i64>)
        ensures
            r.is_some() <==> instant_in_calendar(self@),
            r matches Some(s) ==> s == self@ / 1_000_000_000,
    {
        if self.nanos < -400_000_000_000_000_000_000 || self.nanos
            > 400_000_000_000_000_000_000 {
            return None;
        }
        let seconds: i128 = whole_seconds(self.nanos);
        if seconds < UNIX_SECONDS_MIN as i128 || seconds > UNIX_SECONDS_MAX as i128 {
            None
        } else {
            Some(seconds as i64)
        }
    }

    /// The wall-clock reading of this instant at `offset` seconds east of
    /// UTC, if its date lies within the supported calendar.
    pub fn to_offset(&self, offset: i32) -> (r: Option<LocalDateTime>)
        ensures
            r.is_some() <==> wall_day_in_calendar(self@, offset as int),
            r matches Some(local) ==> {
                &&& local.julian_day() == wall_julian_day(self@, offset as int)
                &&& local.time()@ == wall_time(self@, offset as int)
                &&& local.offset() == offset
                &&& local.instant() == self@
            },
    {
        if self.nanos < -400_000_000_000_000_000_000 || self.nanos
            > 400_000_000_000_000_000_000 {
            return None;
        }
        let wall: i128 = self.nanos + offset as i128 * 1_000_000_000;
        let parts: (i128, u64) = split_days(wall);
        let julian_day: i128 = parts.0 + UNIX_EPOCH_JULIAN_DAY as i128;
        if julian_day < JULIAN_DAY_MIN as i128 || julian_day > JULIAN_DAY_MAX as i128 {
            None
        } else {
            Some(
                LocalDateTime {
                    julian_day: julian_day as i32,
                    time: Time { nanos: parts.1 },
                    offset,
                },
            )
        }
    }
}

/// Whether the instant `nanos` lies within the supported calendar when read in
/// UTC.
pub open spec fn instant_in_calendar(nanos: int) -> bool {
    UNIX_SECONDS_MIN <= nanos / 1_000_000_000 <= UNIX_SECONDS_MAX
}

/// Julian day number of the date that a clock `offset` seconds east of UTC
/// shows at the instant `nanos`.
pub open spec fn wall_julian_day(nanos: int, offset: int) -> int {
    (nanos + offset * 1_000_000_000) / 86_400_000_000_000 + UNIX_EPOCH_JULIAN_DAY
}

/// Time of day, in nanoseconds since midnight, that a clock `offset` seconds
/// east of UTC shows at the instant `nanos`.
pub open spec fn wall_time(nanos: int, offset: int) -> int {
    (nanos + offset * 1_000_000_000) % 86_400_000_000_000
}

/// Whether the date shown at the instant `nanos` lies within the supported
/// calendar.
pub open spec fn wall_day_in_calendar(nanos: int, offset: int) -> bool {
    JULIAN_DAY_MIN <= wall_julian_day(nanos, offset) <= JULIAN_DAY_MAX
}

/// A date of the proleptic Gregorian calendar, as year, month and day.
#[derive(Clone, Copy, Debug, PartialEq, Eq, Structural, PartialOrd, Ord, Hash)]
pub struct Date {
    pub year: i32,
    pub month: u8,
    pub day: u8,
}

impl Date {
    /// The date `year`-`month`-`day`.
    pub fn new(year: i32, month: u8, day: u8) -> (r: Date)
        ensures
            r == (Date { year, month, day }),
    {
        Date { year, month, day }
    }
}

/// A wall-clock reading: a day, a time of day and the UTC offset of the clock
/// that showed them.  The day is held as its Julian day number and lies within
/// the supported calendar.
#[derive(Clone, Copy, Debug, PartialEq, Eq, Structural, Hash)]
pub struct LocalDateTime {
    julian_day: i32,
    time: Time,
    offset: i32,
}

impl LocalDateTime {
    #[verifier::type_invariant]
    spec fn within_calendar(self) -> bool {
        JULIAN_DAY_MIN <= self.julian_day <= JULIAN_DAY_MAX && self.time.within_day()
    }

    pub closed spec fn spec_julian_day(&self) -> i32 {
        self.julian_day
    }

    pub closed spec fn spec_time(&self) -> Time {
        self.time
    }

    pub closed spec fn spec_offset(&self) -> i32 {
        self.offset
    }

    /// Nanoseconds from the start of Julian day 0 to this reading, on the
    /// clock that showed it.  Readings of one clock are ordered by it.
    pub open spec fn wall_nanos(&self) -> int {
        self.julian_day() * 86_400_000_000_000 + self.time()@
    }

    /// The instant of this reading, in nanoseconds since the Unix epoch.
    pub open spec fn instant(&self) -> int {
        self.wall_nanos() - UNIX_EPOCH_JULIAN_DAY * 86_400_000_000_000 - self.offset()
            * 1_000_000_000
    }

    /// The reading of `time` on the day `julian_day` by a clock `offset`
    /// seconds east of UTC, if the day lies within the supported calendar.
    pub fn new(julian_day: i32, time: Time, offset: i32) -> (r: Option<LocalDateTime>)
        ensures
            r.is_some() <==> JULIAN_DAY_MIN <= julian_day <= JULIAN_DAY_MAX,
            r matches Some(local) ==> {
                &&& local.julian_day() == julian_day
                &&& local.time() == time
                &&& local.offset() == offset
            },
    {
        proof {
            use_type_invariant(&time);
        }
        if julian_day < JULIAN_DAY_MIN || julian_day > JULIAN_DAY_MAX {
            None
        } else {
            Some(LocalDateTime { julian_day, time, offset })
        }
    }

    /// Julian day number of the day.
    #[verifier::when_used_as_spec(spec_julian_day)]
    pub fn julian_day(&self) -> (r: i32)
        ensures
            r == self.julian_day(),
            JULIAN_DAY_MIN <= r <= JULIAN_DAY_MAX,
    {
        proof {
            use_type_invariant(self);
        }
        self.julian_day
    }

    /// The time of day.
    #[verifier::when_used_as_spec(spec_time)]
    pub fn time(&self) -> (r: Time)
        ensures
            r == self.time(),
    {
        self.time
    }

    /// The clock's offset in seconds east of UTC.
    #[verifier::when_used_as_spec(spec_offset)]
    pub fn offset(&self) -> (r: i32)
        ensures
            r == self.offset(),
    {
        self.offset
    }

    /// The same day on the same clock at another time of day.
    pub fn replace_time(&self, time: Time) -> (r: LocalDateTime)
        ensures
            r.julian_day() == self.julian_day(),
            r.time() == time,
            r.offset() == self.offset(),
    {
        proof {
            use_type_invariant(self);
            use_type_invariant(&time);
        }
        LocalDateTime { julian_day: self.julian_day, time, offset: self.offset }
    }

    /// The instant of this reading.
    pub fn to_timestamp(&self) -> (r: Timestamp)
        ensures
            r@ == self.instant(),
    {
        proof {
            use_type_invariant(self);
            use_type_invariant(&self.time);
        }
        let days: i128 = self.julian_day as i128 - UNIX_EPOCH_JULIAN_DAY as i128;
        let nanos: i128 = days * 86_400_000_000_000 + self.time.nanos as i128 - self.offset as i128
            * 1_000_000_000;
        Timestamp { nanos }
    }
}

} // verus!
