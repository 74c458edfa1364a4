//! Markets: their trading sessions and the decisions of the merge engine.

use crate::bucket::{
    bucket_start,
    session_time,
    spec_bucket_day,
    spec_bucket_time,
    spec_session_time,
};
use crate::calendar::{civil_of_julian_day, date_from_julian_day};
use crate::candlestick::{Bar, CandlestickType};
use crate::clock::{
    wall_julian_day,
    wall_time,
    Date,
    Duration,
    LocalDateTime,
    Time,
    Timestamp,
    JULIAN_DAY_MIN,
    NANOS_PER_MINUTE,
};
use crate::find_session::{
    ascending,
    is_ascending,
    lemma_find_session_locates,
    past,
    spec_find_session,
    FindSessionResult,
};
use crate::merge::{always_fits, merge_quote_at, merge_trade_at, spec_merge, spec_merge_quote};
use crate::numeric::{Numeric, Ordered};
use crate::types::{Period, QuoteType, TradeType, UpdateFields};
use crate::zone::{first_instant, local_time, spec_first_instant, spec_instant, spec_local_time};
use vstd::prelude::*;

verus! {

/// One trading window of a session: a span of the day's clock.
#[derive(Debug, Copy, Clone, Eq, PartialEq, Structural)]
pub struct TradeSession {
    /// The first moment of the window.
    pub start: Time,
    /// The closing moment, inside the window only when it is `inclusive`.
    pub end: Time,
    /// Whether `end` itself still belongs to the window.
    pub inclusive: bool,
    /// How long after `end` a late tick is still taken into the window's
    /// last bar.
    pub timeout: Duration,
}

impl TradeSession {
    /// The window from `start` up to `end`, with `end` outside it and no
    /// grace for late ticks.
    #[inline]
    pub fn new(start: Time, end: Time) -> (r: TradeSession)
        ensures
            r.start == start,
            r.end == end,
            !r.inclusive,
            r.timeout@ == 0,
    {
        TradeSession { start, end, inclusive: false, timeout: Duration::zero() }
    }

    /// The same window with a grace period of `timeout` after its end.
    #[inline]
    pub fn with_timeout(self, timeout: Duration) -> (r: TradeSession)
        ensures
            r == (TradeSession { timeout, ..self }),
    {
        TradeSession { timeout, ..self }
    }

    /// The same window with its end inside it.
    #[inline]
    pub fn with_inclusive(self) -> (r: TradeSession)
        ensures
            r == (TradeSession { inclusive: true, ..self }),
    {
        TradeSession { inclusive: true, ..self }
    }

    /// Whether the time of day `time`, in nanoseconds since midnight, lies
    /// inside the window: from `start` to before `end`, or up to `end`
    /// itself for an inclusive window.
    pub open spec fn spec_contains(&self, time: int) -> bool {
        self.start@ <= time && (time < self.end@ || (self.inclusive && time == self.end@))
    }

    /// The time of day at which the grace period runs out: `end + timeout`
    /// on a clock that wraps around midnight.
    pub open spec fn spec_deadline(&self) -> int {
        (self.end@ + self.timeout@) % 86_400_000_000_000
    }

    /// Whether `time` lies inside the window.
    pub fn contains(&self, time: Time) -> (r: bool)
        ensures
            r == self.spec_contains(time@),
    {
        let t: u64 = time.as_nanos();
        let start: u64 = self.start.as_nanos();
        let end: u64 = self.end.as_nanos();
        start <= t && (t < end || (self.inclusive && t == end))
    }

    /// Whether the window takes a tick at the time of day `time`: one
    /// inside the window, or a late one before the grace period runs out.
    pub open spec fn spec_accepts(&self, time: int) -> bool {
        self.spec_contains(time) || (self.start@ <= time && time < self.spec_deadline())
    }

    /// Whether the window takes a tick at `time`.
    pub fn accepts(&self, time: Time) -> (r: bool)
        ensures
            r == self.spec_accepts(time@),
    {
        self.contains(time) || (self.start.as_nanos() <= time.as_nanos() && time.as_nanos()
            < self.deadline().as_nanos())
    }

    /// Whether the window opens on a whole minute and does not close before
    /// it opens.
    pub open spec fn spec_aligned(&self) -> bool {
        self.start@ % 60_000_000_000 == 0 && self.start@ <= self.end@
    }

    /// Whether the window opens on a whole minute and does not close before
    /// it opens.
    pub fn is_aligned(&self) -> (r: bool)
        ensures
            r == self.spec_aligned(),
    {
        self.start.as_nanos() % NANOS_PER_MINUTE == 0 && self.start.as_nanos()
            <= self.end.as_nanos()
    }

    /// The time of day at which the grace period runs out.
    pub fn deadline(&self) -> (r: Time)
        ensures
            r@ == self.spec_deadline(),
    {
        self.end.wrapping_add(self.timeout)
    }
}

/// The kind of a trading session.
#[derive(Debug, Copy, Clone, Eq, PartialEq, Structural, Hash)]
pub enum TradeSessionKind {
    /// Regular trading hours.
    Intraday,
    /// Before the open.
    Pre,
    /// After the close.
    Post,
    /// The overnight session.
    Overnight,
}

pub const TRADE_SESSION_INTRADAY: TradeSessionKind = TradeSessionKind::Intraday;

pub const TRADE_SESSION_PRE: TradeSessionKind = TradeSessionKind::Pre;

pub const TRADE_SESSION_POST: TradeSessionKind = TradeSessionKind::Post;

pub const TRADE_SESSION_OVERNIGHT: TradeSessionKind = TradeSessionKind::Overnight;

impl TradeSessionKind {
    /// The place of the kind's window list in a market's session tables.
    pub open spec fn spec_index(&self) -> int {
        match self {
            TradeSessionKind::Intraday => 0,
            TradeSessionKind::Pre => 1,
            TradeSessionKind::Post => 2,
            TradeSessionKind::Overnight => 3,
        }
    }

    /// The place of the kind's window list in a market's session tables.
    pub fn index(&self) -> (r: usize)
        ensures
            r == self.spec_index(),
    {
        match self {
            TradeSessionKind::Intraday => 0,
            TradeSessionKind::Pre => 1,
            TradeSessionKind::Post => 2,
            TradeSessionKind::Overnight => 3,
        }
    }

    /// The kind whose window list stands at `index`, if there is one.
    pub fn from_index(index: usize) -> (r: Option<TradeSessionKind>)
        ensures
            r.is_some() <==> index < 4,
            r matches Some(kind) ==> kind.spec_index() == index,
    {
        if index == 0 {
            Some(TradeSessionKind::Intraday)
        } else if index == 1 {
            Some(TradeSessionKind::Pre)
        } else if index == 2 {
            Some(TradeSessionKind::Post)
        } else if index == 3 {
            Some(TradeSessionKind::Overnight)
        } else {
            None
        }
    }
}

/// A value that names a trading session.
pub trait TradeSessionType: Copy {
    /// The kind of session that the value names.
    spec fn spec_kind(&self) -> TradeSessionKind;

    /// The kind of session that the value names.
    fn kind(&self) -> (r: TradeSessionKind)
        ensures
            r == self.spec_kind(),
    ;

    /// Whether the value names the regular session.
    #[inline]
    fn is_intraday(&self) -> (r: bool)
        ensures
            r == (self.spec_kind() == TradeSessionKind::Intraday),
    {
        self.kind() == TRADE_SESSION_INTRADAY
    }

    /// The session's name in lower case.
    #[inline]
    fn as_str(&self) -> (r: &'static str)
        ensures
            r@ == session_name(self.spec_kind()),
    {
        let kind: TradeSessionKind = self.kind();
        if kind == TRADE_SESSION_INTRADAY {
            "intraday"
        } else if kind == TRADE_SESSION_PRE {
            "pre"
        } else if kind == TRADE_SESSION_POST {
            "post"
        } else {
            "overnight"
        }
    }
}

/// The lower-case name of a kind of session.
pub open spec fn session_name(kind: TradeSessionKind) -> Seq<char> {
    match kind {
        TradeSessionKind::Intraday => "intraday"@,
        TradeSessionKind::Pre => "pre"@,
        TradeSessionKind::Post => "post"@,
        TradeSessionKind::Overnight => "overnight"@,
    }
}

impl TradeSessionType for TradeSessionKind {
    open spec fn spec_kind(&self) -> TradeSessionKind {
        *self
    }

    #[inline]
    fn kind(&self) -> (r: TradeSessionKind) {
        *self
    }
}

/// An exchange: its time zone, its trading windows on regular days and on
/// half-days, and its lot size.  Each table holds one list of windows for
/// each kind of session, at the kind's index and in ascending order of their
/// start; a session that the exchange does not have has an empty list.
#[derive(Debug, Clone)]
pub struct Market {
    /// The name of the exchange's time zone in the IANA database.
    pub timezone: &'static str,
    /// The trading windows on regular days.
    pub trade_sessions: [Vec<TradeSession>; 4],
    /// The trading windows on half-days.
    pub half_trade_sessions: [Vec<TradeSession>; 4],
    /// How many units make one lot.
    pub lot_size: i32,
}

/// What the engine decided about the current bar.
#[derive(Debug, Copy, Clone, Eq, PartialEq)]
pub enum UpdateAction<T> {
    /// The current bar is replaced by this updated one.
    UpdateLast(T),
    /// A new bar begins; the previous bar, if there was one, is final.
    AppendNew { confirmed: Option<T>, new: T },
    /// Nothing changes.
    Ignore,
}

impl<C: CandlestickType> UpdateAction<C> {
    /// The decision over what its bars say.
    pub open spec fn view(&self) -> UpdateAction<Bar> {
        match *self {
            UpdateAction::UpdateLast(bar) => UpdateAction::UpdateLast(bar@),
            UpdateAction::AppendNew { confirmed, new } => UpdateAction::AppendNew {
                confirmed: bar_view(confirmed),
                new: new@,
            },
            UpdateAction::Ignore => UpdateAction::Ignore,
        }
    }
}

/// What the bar says, if there is one.
pub open spec fn bar_view<C: CandlestickType>(bar: Option<C>) -> Option<Bar> {
    match bar {
        Some(bar) => Some(bar@),
        None => None,
    }
}

/// A half-day calendar: the days with a shortened schedule.
pub trait Days: Copy {
    /// Whether `date` is a half-day.
    spec fn spec_contains(&self, date: Date) -> bool;

    /// Whether `date` is a half-day.
    fn contains(&self, date: Date) -> (r: bool)
        ensures
            r == self.spec_contains(date),
    ;
}

/// Every day is a half-day, or none is.
impl Days for bool {
    open spec fn spec_contains(&self, date: Date) -> bool {
        *self
    }

    #[inline]
    fn contains(&self, _date: Date) -> (r: bool) {
        *self
    }
}

/// The calendar date that the named parts spell.
pub open spec fn civil_date(parts: (int, int, int)) -> Date {
    Date { year: parts.0 as i32, month: parts.1 as u8, day: parts.2 as u8 }
}

/// Whether one of the windows takes a tick at the time of day `time`.
pub open spec fn session_open(windows: Seq<TradeSession>, time: int) -> bool {
    exists|j: int| 0 <= j < windows.len() && (#[trigger] windows[j]).spec_accepts(time)
}

/// Whether one of the windows takes a tick at `time`.
pub fn windows_accept(windows: &Vec<TradeSession>, time: Time) -> (r: bool)
    ensures
        r == session_open(windows@, time@),
{
    let mut idx: usize = 0;
    while idx < windows.len()
        invariant
            0 <= idx <= windows.len(),
            forall|j: int| 0 <= j < idx ==> !(#[trigger] windows@[j]).spec_accepts(time@),
        decreases windows.len() - idx,
    {
        let window: TradeSession = windows[idx];
        if window.accepts(time) {
            return true;
        }
        idx += 1;
    }
    false
}

/// Whether every window opens on a whole minute and does not close before it
/// opens.
pub open spec fn aligned_windows(windows: Seq<TradeSession>) -> bool {
    forall|i: int| 0 <= i < windows.len() ==> (#[trigger] windows[i]).spec_aligned()
}

/// Whether every window opens on a whole minute and does not close before it
/// opens.
pub fn windows_aligned(windows: &Vec<TradeSession>) -> (r: bool)
    ensures
        r == aligned_windows(windows@),
{
    let mut idx: usize = 0;
    while idx < windows.len()
        invariant
            0 <= idx <= windows.len(),
            forall|i: int| 0 <= i < idx ==> (#[trigger] windows@[i]).spec_aligned(),
        decreases windows.len() - idx,
    {
        let window: TradeSession = windows[idx];
        if !window.is_aligned() {
            return false;
        }
        idx += 1;
    }
    true
}

impl Market {
    /// The windows of a kind of session on a regular day or a half-day.
    pub open spec fn spec_windows(&self, kind: TradeSessionKind, half_day: bool) -> Seq<
        TradeSession,
    > {
        if half_day {
            self.half_trade_sessions@[kind.spec_index()]@
        } else {
            self.trade_sessions@[kind.spec_index()]@
        }
    }

    /// The windows of a kind of session on a regular day or a half-day.
    pub fn windows(&self, kind: TradeSessionKind, half_day: bool) -> (r: &Vec<TradeSession>)
        ensures
            r@ == self.spec_windows(kind, half_day),
    {
        let index: usize = kind.index();
        if half_day {
            &self.half_trade_sessions[index]
        } else {
            &self.trade_sessions[index]
        }
    }

    /// The day and the time of day, on the market's clock, at which the bar
    /// begins that holds a tick of the session `kind` shown at `time` on the
    /// day `julian_day`.
    ///
    /// None for a period of a day or longer outside the regular session;
    /// where the session has no windows; before the session's first window;
    /// after a window once its grace period has run out; and where the bar's
    /// first day lies before the supported calendar.  A tick inside a window
    /// counts at its own time, a late one within the grace period at the
    /// window's end.
    pub open spec fn spec_bucket_reading(
        &self,
        kind: TradeSessionKind,
        half_day: bool,
        period: Period,
        julian_day: int,
        time: int,
    ) -> Option<(int, int)> {
        let windows = self.spec_windows(kind, half_day);
        if kind != TradeSessionKind::Intraday && !period.spec_is_minute() {
            None
        } else {
            match spec_session_time(windows, time) {
                None => None,
                Some(counted) => {
                    let day = spec_bucket_day(period, julian_day);
                    if day >= JULIAN_DAY_MIN {
                        Some((day, spec_bucket_time(period, windows[counted.1].start@, counted.0)))
                    } else {
                        None
                    }
                },
            }
        }
    }

    /// The instant at which the bar begins that holds a tick of the session
    /// `kind` at the instant `t`, in nanoseconds since the Unix epoch.
    ///
    /// The tick is read on the market's clock, `half_days` says whether its
    /// date has the shortened schedule, and `spec_bucket_reading` gives the
    /// bar's first reading.  A bar of a week begins when the zone's clocks
    /// first show that reading; any other bar begins at that reading on the
    /// clock as it was set at `t`.
    pub open spec fn spec_candlestick_time<H: Days>(
        &self,
        kind: TradeSessionKind,
        half_days: H,
        period: Period,
        t: int,
    ) -> Option<int> {
        match spec_local_time(self.timezone@, t) {
            None => None,
            Some(local) => {
                let date = civil_date(civil_of_julian_day(local.0));
                match self.spec_bucket_reading(
                    kind,
                    half_days.spec_contains(date),
                    period,
                    local.0,
                    local.1,
                ) {
                    None => None,
                    Some(bucket) => if period == Period::Week {
                        spec_first_instant(self.timezone@, bucket.0, bucket.1)
                    } else {
                        Some(spec_instant(bucket.0, bucket.1, local.2))
                    },
                }
            },
        }
    }

    /// Whether every window of the market, on regular days and on half-days,
    /// opens on a whole minute and does not close before it opens.
    pub open spec fn spec_aligned(&self) -> bool {
        forall|kind: TradeSessionKind, half_day: bool|
            aligned_windows(#[trigger] self.spec_windows(kind, half_day))
    }

    /// Whether the windows of every session, on regular days and on
    /// half-days, are in ascending order and apart.
    pub open spec fn spec_ascending(&self) -> bool {
        forall|kind: TradeSessionKind, half_day: bool|
            ascending(#[trigger] self.spec_windows(kind, half_day))
    }

    /// Whether the market's tables are as the engine's laws suppose them:
    /// every window opens on a whole minute and does not close before it
    /// opens, and the windows of every session are in ascending order and
    /// apart.
    pub open spec fn spec_well_formed(&self) -> bool {
        self.spec_aligned() && self.spec_ascending()
    }

    /// Whether the market's tables are as the engine's laws suppose them.
    pub fn is_well_formed(&self) -> (r: bool)
        ensures
            r == self.spec_well_formed(),
    {
        let mut index: usize = 0;
        while index < 4
            invariant
                0 <= index <= 4,
                forall|kind: TradeSessionKind, half_day: bool|
                    kind.spec_index() < index ==> aligned_windows(
                        #[trigger] self.spec_windows(kind, half_day),
                    ) && ascending(self.spec_windows(kind, half_day)),
            decreases 4 - index,
        {
            let kind: TradeSessionKind = TradeSessionKind::from_index(index).unwrap();
            let regular: &Vec<TradeSession> = self.windows(kind, false);
            let half: &Vec<TradeSession> = self.windows(kind, true);
            if !(windows_aligned(regular) && is_ascending(regular) && windows_aligned(half)
                && is_ascending(half)) {
                assert(!aligned_windows(self.spec_windows(kind, false)) || !ascending(
                    self.spec_windows(kind, false),
                ) || !aligned_windows(self.spec_windows(kind, true)) || !ascending(
                    self.spec_windows(kind, true),
                ));
                return false;
            }
            assert forall|other: TradeSessionKind, half_day: bool|
                other.spec_index() < index + 1 implies aligned_windows(
                #[trigger] self.spec_windows(other, half_day),
            ) && ascending(self.spec_windows(other, half_day)) by {
                if other.spec_index() == index {
                    assert(other == kind);
                }
            }
            index += 1;
        }
        true
    }

    /// The reading of the market's clock at which the bar begins that holds a
    /// tick of the session `ts` shown at `local`, on a half-day or a regular
    /// day.
    ///
    /// In a market whose windows are aligned the bar does not begin after the
    /// tick.  The bar's first day is the first day of its own bar.
    pub fn local_candlestick_time<TS: TradeSessionType>(
        &self,
        ts: TS,
        half_day: bool,
        period: Period,
        local: &LocalDateTime,
    ) -> (r: Option<LocalDateTime>)
        ensures
            r matches Some(bucket) ==> {
                &&& self.spec_bucket_reading(
                    ts.spec_kind(),
                    half_day,
                    period,
                    local.julian_day() as int,
                    local.time()@,
                ) == Some((bucket.julian_day() as int, bucket.time()@))
                &&& bucket.offset() == local.offset()
                &&& self.spec_aligned() ==> bucket.wall_nanos() <= local.wall_nanos()
                &&& spec_bucket_day(period, bucket.julian_day() as int) == bucket.julian_day()
            },
            r is None ==> self.spec_bucket_reading(
                ts.spec_kind(),
                half_day,
                period,
                local.julian_day() as int,
                local.time()@,
            ) is None,
    {
        if !ts.is_intraday() && !period.is_minute() {
            return None;
        }
        let windows: &Vec<TradeSession> = self.windows(ts.kind(), half_day);
        let counted: (Time, usize) = match session_time(windows, local.time()) {
            Some(counted) => counted,
            None => {
                return None;
            },
        };
        let window: TradeSession = windows[counted.1];
        proof {
            if self.spec_aligned() {
                assert(aligned_windows(self.spec_windows(ts.spec_kind(), half_day)));
                assert(windows@[counted.1 as int].spec_aligned());
            }
        }
        bucket_start(period, window.start, &local.replace_time(counted.0))
    }

    /// The instant at which the bar of length `period` begins that holds a
    /// tick of the session `ts` at the instant `t`; none where no bar does.
    ///
    /// In a market whose windows are aligned every bar but that of a week
    /// begins at or before its tick.  The start of a week is read anew on the
    /// zone's clocks, and nothing of the kind is known of it.
    pub fn candlestick_time<H, TS>(&self, ts: TS, half_days: H, period: Period, t: Timestamp) -> (r:
        Option<Timestamp>)
        where
            H: Days,
            TS: TradeSessionType,
        ensures
            r matches Some(bucket) ==> {
                &&& self.spec_candlestick_time(ts.spec_kind(), half_days, period, t@) == Some(
                    bucket@,
                )
                &&& self.spec_aligned() && period != Period::Week ==> bucket@ <= t@
            },
            r is None ==> self.spec_candlestick_time(ts.spec_kind(), half_days, period, t@)
                is None,
    {
        if !ts.is_intraday() && !period.is_minute() {
            return None;
        }
        let local: LocalDateTime = match local_time(self.timezone, t) {
            Some(local) => local,
            None => {
                return None;
            },
        };
        let date: Date = date_from_julian_day(local.julian_day());
        let half_day: bool = half_days.contains(date);
        let bucket: LocalDateTime = match self.local_candlestick_time(
            ts,
            half_day,
            period,
            &local,
        ) {
            Some(bucket) => bucket,
            None => {
                return None;
            },
        };
        match period {
            Period::Week => first_instant(self.timezone, &bucket),
            _ => Some(bucket.to_timestamp()),
        }
    }

    /// Whether `merge_trade` may be called on these values: the sessions of
    /// bar and tick match, and the numbers that the merge may form fit their
    /// types.
    pub open spec fn spec_can_merge_trade<C, T>(
        &self,
        input: Option<C>,
        trade: &T,
        update_fields: UpdateFields,
    ) -> bool where
        C: CandlestickType,
        T: TradeType<VolumeType = C::VolumeType, TurnoverType = C::TurnoverType>,
     {
        &&& input matches Some(bar) ==> bar@.trade_session == trade@.trade_session
        &&& always_fits(self.lot_size, input, trade, update_fields)
    }

    /// Whether `merge_trade` may be called on these values.
    pub fn can_merge_trade<TS, C, T, P, V, R>(
        &self,
        input: &Option<C>,
        trade: &T,
        update_fields: UpdateFields,
    ) -> (r: bool) where
        TS: TradeSessionType,
        C: CandlestickType<PriceType = P, VolumeType = V, TurnoverType = R, TradeSessionType = TS>,
        T: TradeType<PriceType = P, VolumeType = V, TurnoverType = R, TradeSessionType = TS>,
        P: Ordered,
        V: Numeric,
        R: Numeric,

        ensures
            r == self.spec_can_merge_trade(*input, trade, update_fields),
    {
        match input {
            Some(bar) => {
                if bar.trade_session().kind() != trade.trade_session().kind() {
                    return false;
                }
                if update_fields.contains(UpdateFields::VOLUME) {
                    trade.can_turnover(self.lot_size) && bar.volume().can_add(&trade.volume())
                        && bar.turnover().can_add(&trade.turnover(self.lot_size))
                } else {
                    true
                }
            },
            None => !update_fields.contains(UpdateFields::PRICE) || trade.can_turnover(
                self.lot_size,
            ),
        }
    }

    /// Merges a trade tick into the current bar of its stream.
    ///
    /// The decision is `spec_merge` of the bucket that `candlestick_time`
    /// gives the tick.  A confirmed bar is the current bar itself.  In a
    /// market whose windows are aligned, a tick from before the current
    /// bar's start is dropped, for every period but the week.
    #[must_use]
    pub fn merge_trade<H, TS, C, T, P, V, R>(
        &self,
        half_days: H,
        period: Period,
        input: Option<C>,
        trade: &T,
        update_fields: UpdateFields,
    ) -> (r: UpdateAction<C>) where
        H: Days,
        TS: TradeSessionType,
        C: CandlestickType<PriceType = P, VolumeType = V, TurnoverType = R, TradeSessionType = TS>,
        T: TradeType<PriceType = P, VolumeType = V, TurnoverType = R, TradeSessionType = TS>,
        P: Ordered,
        V: Numeric,
        R: Numeric,

        requires
            self.spec_can_merge_trade(input, trade, update_fields),
        ensures
            r@ == spec_merge(
                self.spec_candlestick_time(trade@.trade_session, half_days, period, trade@.time),
                bar_view(input),
                trade@,
                trade.spec_turnover(self.lot_size),
                update_fields,
            ),
            r matches UpdateAction::AppendNew { confirmed, .. } ==> confirmed == input,
            input matches Some(bar) ==> (self.spec_aligned() && period != Period::Week
                && trade@.time < bar@.time ==> r is Ignore),
    {
        let time: Option<Timestamp> = self.candlestick_time(
            trade.trade_session(),
            half_days,
            period,
            trade.time(),
        );
        merge_trade_at(self.lot_size, time, input, trade, update_fields)
    }

    /// The instant at which the market's day begins that holds the instant
    /// `t`: midnight on the market's clock as it was set at `t`.
    pub open spec fn spec_day_start(&self, t: int) -> Option<int> {
        match spec_local_time(self.timezone@, t) {
            Some(local) => Some(spec_instant(local.0, 0, local.2)),
            None => None,
        }
    }

    /// Whether `merge_quote_day` may be called on these values: a snapshot
    /// of the regular session meets no bar of another session.
    pub fn can_merge_quote_day<TS, C, Q, P, V, R>(&self, input: &Option<C>, quote: &Q) -> (r:
        bool) where
        TS: TradeSessionType,
        C: CandlestickType<PriceType = P, VolumeType = V, TurnoverType = R, TradeSessionType = TS>,
        Q: QuoteType<PriceType = P, VolumeType = V, TurnoverType = R, TradeSessionType = TS>,
        P: Ordered,
        V: Numeric,
        R: Numeric,

        ensures
            r == (input matches Some(bar) ==> (quote@.trade_session == TradeSessionKind::Intraday
                ==> bar@.trade_session == TradeSessionKind::Intraday)),
    {
        match input {
            Some(bar) => !quote.trade_session().is_intraday() || bar.trade_session().is_intraday(),
            None => true,
        }
    }

    /// Merges a quote snapshot into the current day bar of its stream.
    ///
    /// The decision is `spec_merge_quote` of the start of the snapshot's day
    /// on the market's clock.  A confirmed bar is the current bar itself.
    #[must_use]
    pub fn merge_quote_day<TS, C, Q, P, V, R>(&self, input: Option<C>, quote: &Q) -> (r:
        UpdateAction<C>) where
        TS: TradeSessionType,
        C: CandlestickType<PriceType = P, VolumeType = V, TurnoverType = R, TradeSessionType = TS>,
        Q: QuoteType<PriceType = P, VolumeType = V, TurnoverType = R, TradeSessionType = TS>,
        P: Ordered,
        V: Numeric,
        R: Numeric,

        requires
            input matches Some(bar) ==> (quote@.trade_session == TradeSessionKind::Intraday
                ==> bar@.trade_session == TradeSessionKind::Intraday),
        ensures
            r@ == spec_merge_quote(self.spec_day_start(quote@.time), bar_view(input), quote@),
            r matches UpdateAction::AppendNew { confirmed, .. } ==> confirmed == input,
            input matches Some(bar) ==> (quote@.time < bar@.time ==> r is Ignore),
    {
        let time: Option<Timestamp> = match local_time(self.timezone, quote.time()) {
            Some(local) => Some(local.replace_time(Time::midnight()).to_timestamp()),
            None => None,
        };
        merge_quote_at(time, input, quote)
    }

    /// Whether the session `kind` takes a tick at the time of day `time`, on
    /// a half-day or a regular day.
    pub open spec fn spec_open(&self, kind: TradeSessionKind, half_day: bool, time: int) -> bool {
        session_open(self.spec_windows(kind, half_day), time)
    }

    /// Whether the session `kind` takes a tick at `time`.
    pub fn is_open(&self, kind: TradeSessionKind, half_day: bool, time: Time) -> (r: bool)
        ensures
            r == self.spec_open(kind, half_day, time@),
    {
        windows_accept(self.windows(kind, half_day), time)
    }

    /// The session that takes a tick at the time of day `time`: the first
    /// kind, in the order regular, before the open, after the close,
    /// overnight, with a window that takes it; none while the market is
    /// closed.
    pub open spec fn spec_session_at(&self, half_day: bool, time: int) -> Option<
        TradeSessionKind,
    > {
        if self.spec_open(TradeSessionKind::Intraday, half_day, time) {
            Some(TradeSessionKind::Intraday)
        } else if self.spec_open(TradeSessionKind::Pre, half_day, time) {
            Some(TradeSessionKind::Pre)
        } else if self.spec_open(TradeSessionKind::Post, half_day, time) {
            Some(TradeSessionKind::Post)
        } else if self.spec_open(TradeSessionKind::Overnight, half_day, time) {
            Some(TradeSessionKind::Overnight)
        } else {
            None
        }
    }

    /// The session that takes a tick at the time of day `time`, on a
    /// half-day or a regular day.
    pub fn session_at(&self, half_day: bool, time: Time) -> (r: Option<TradeSessionKind>)
        ensures
            r == self.spec_session_at(half_day, time@),
    {
        if self.is_open(TRADE_SESSION_INTRADAY, half_day, time) {
            Some(TRADE_SESSION_INTRADAY)
        } else if self.is_open(TRADE_SESSION_PRE, half_day, time) {
            Some(TRADE_SESSION_PRE)
        } else if self.is_open(TRADE_SESSION_POST, half_day, time) {
            Some(TRADE_SESSION_POST)
        } else if self.is_open(TRADE_SESSION_OVERNIGHT, half_day, time) {
            Some(TRADE_SESSION_OVERNIGHT)
        } else {
            None
        }
    }

    /// The session that the instant `t` falls in: the instant is read on the
    /// market's clock, `half_days` says whether its date has the shortened
    /// schedule, and `spec_session_at` classifies the time of day.
    pub open spec fn spec_trade_session<H: Days>(&self, half_days: H, t: int) -> Option<
        TradeSessionKind,
    > {
        match spec_local_time(self.timezone@, t) {
            Some(local) => self.spec_session_at(
                half_days.spec_contains(civil_date(civil_of_julian_day(local.0))),
                local.1,
            ),
            None => None,
        }
    }

    /// The session that the instant `candlestick_time` falls in; none while
    /// the market is closed.
    pub fn trade_session<H: Days>(&self, half_days: H, candlestick_time: Timestamp) -> (r: Option<
        TradeSessionKind,
    >)
        ensures
            r == self.spec_trade_session(half_days, candlestick_time@),
    {
        let local: LocalDateTime = match local_time(self.timezone, candlestick_time) {
            Some(local) => local,
            None => {
                return None;
            },
        };
        let date: Date = date_from_julian_day(local.julian_day());
        self.session_at(half_days.contains(date), local.time())
    }

    /// Bars of a day or longer exist for the regular session only: for any
    /// other session no such bar holds any tick.
    pub proof fn lemma_long_bars_intraday_only<H: Days>(
        &self,
        kind: TradeSessionKind,
        half_days: H,
        period: Period,
        t: int,
    )
        requires
            kind != TradeSessionKind::Intraday,
            !period.spec_is_minute(),
        ensures
            self.spec_candlestick_time(kind, half_days, period, t) is None,
            forall|half_day: bool, julian_day: int, time: int|
                (#[trigger] self.spec_bucket_reading(kind, half_day, period, julian_day, time))
                    is None,
    {
    }

    /// A day bar begins at midnight of the tick's own day on the market's
    /// clock, wherever the session's windows open, and at no later instant
    /// than the tick.
    pub proof fn lemma_day_bar_begins_at_midnight<H: Days>(
        &self,
        kind: TradeSessionKind,
        half_days: H,
        t: int,
    )
        ensures
            forall|half_day: bool, julian_day: int, time: int|
                (#[trigger] self.spec_bucket_reading(
                    kind,
                    half_day,
                    Period::Day,
                    julian_day,
                    time,
                )) matches Some(bucket) ==> bucket == (julian_day, 0int),
            self.spec_candlestick_time(kind, half_days, Period::Day, t) matches Some(bucket) ==> {
                &&& kind == TradeSessionKind::Intraday
                &&& spec_local_time(self.timezone@, t) matches Some(local)
                &&& wall_julian_day(bucket, local.2) == local.0
                &&& wall_time(bucket, local.2) == 0
                &&& bucket <= t
            },
    {
    }

    /// The half-day flag selects the table: on a half-day only the windows
    /// of the half-day table count, on a regular day only those of the
    /// regular table.  Two markets that share the selected table classify
    /// and bucket every time of day alike, whatever their other tables hold.
    pub proof fn lemma_half_day_selects_table(
        &self,
        other: &Market,
        half_day: bool,
        kind: TradeSessionKind,
        period: Period,
        julian_day: int,
        time: int,
    )
        requires
            forall|k: TradeSessionKind|
                self.spec_windows(k, half_day) == other.spec_windows(k, half_day),
        ensures
            self.spec_session_at(half_day, time) == other.spec_session_at(half_day, time),
            self.spec_bucket_reading(kind, half_day, period, julian_day, time)
                == other.spec_bucket_reading(kind, half_day, period, julian_day, time),
    {
        assert(self.spec_windows(kind, half_day) == other.spec_windows(kind, half_day));
        assert(self.spec_windows(TradeSessionKind::Intraday, half_day) == other.spec_windows(
            TradeSessionKind::Intraday,
            half_day,
        ));
        assert(self.spec_windows(TradeSessionKind::Pre, half_day) == other.spec_windows(
            TradeSessionKind::Pre,
            half_day,
        ));
        assert(self.spec_windows(TradeSessionKind::Post, half_day) == other.spec_windows(
            TradeSessionKind::Post,
            half_day,
        ));
        assert(self.spec_windows(TradeSessionKind::Overnight, half_day) == other.spec_windows(
            TradeSessionKind::Overnight,
            half_day,
        ));
    }

    /// A tick that falls in a bar of a session is a tick that the session
    /// takes: wherever the bucketer finds a bar among the session's windows,
    /// the classifier finds the session open.
    pub proof fn lemma_bucketed_tick_is_in_session(
        &self,
        kind: TradeSessionKind,
        half_day: bool,
        period: Period,
        julian_day: int,
        time: int,
    )
        requires
            self.spec_bucket_reading(kind, half_day, period, julian_day, time) is Some,
        ensures
            self.spec_open(kind, half_day, time),
    {
        let list = if half_day {
            self.half_trade_sessions@[kind.spec_index()]
        } else {
            self.trade_sessions@[kind.spec_index()]
        };
        let windows = self.spec_windows(kind, half_day);
        assert(windows.len() == list.len());
        lemma_find_session_locates(windows, time);
        match spec_find_session(windows, time) {
            FindSessionResult::BeforeFirst => {},
            FindSessionResult::Between(n) => {
                assert(windows[n as int].spec_accepts(time));
            },
            FindSessionResult::After(n) => {
                assert(past(windows[n as int], time));
                assert(windows[n as int].spec_accepts(time));
            },
        }
    }
}

} // verus!
