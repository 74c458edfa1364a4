//! A helper for checking the bars of one market and period on a fixed day.

use crate::calendar::{julian_day_from_date, julian_day_of_civil};
use crate::clock::{LocalDateTime, Time, Timestamp};
use crate::market::{Market, TradeSessionKind};
use crate::types::Period;
use crate::zone::{first_instant, spec_first_instant};
use vstd::prelude::*;

verus! {

/// Checks where the bars of one market and period begin.
pub struct TestCandlestickTime<'a> {
    market: &'a Market,
    period: Period,
}

impl<'a> TestCandlestickTime<'a> {
    pub closed spec fn market(&self) -> &'a Market {
        self.market
    }

    pub closed spec fn period(&self) -> Period {
        self.period
    }

    #[inline]
    pub fn new(market: &'a Market, period: Period) -> (r: Self)
        ensures
            r.market() == market,
            r.period() == period,
    {
        Self { market, period }
    }

    /// The first instant at which the market's clocks show `time` on
    /// 1 January 2024.
    pub open spec fn spec_instant_on_day(&self, time: Time) -> Option<int> {
        spec_first_instant(self.market().timezone@, julian_day_of_civil(2024, 1, 1), time@)
    }

    /// Whether a tick of the session `ts` at `input` on 1 January 2024, a
    /// regular day, falls in the bar that begins at `expected` on that day, or
    /// in no bar where none is expected.  Both times are read on the market's
    /// clocks; the check fails where the clocks never show one of them.
    pub open spec fn spec_check_time(
        &self,
        ts: TradeSessionKind,
        input: Time,
        expected: Option<Time>,
    ) -> bool {
        match self.spec_instant_on_day(input) {
            None => false,
            Some(t) => {
                let found = self.market().spec_candlestick_time(ts, false, self.period(), t);
                match expected {
                    None => found is None,
                    Some(expected) => self.spec_instant_on_day(expected) is Some && found
                        == self.spec_instant_on_day(expected),
                }
            },
        }
    }

    fn instant_on_day(&self, time: Time) -> (r: Option<Timestamp>)
        ensures
            r matches Some(t) ==> self.spec_instant_on_day(time) == Some(t@),
            r is None ==> self.spec_instant_on_day(time) is None,
    {
        let day: i32 = match julian_day_from_date(2024, 1, 1) {
            Some(day) => day,
            None => {
                return None;
            },
        };
        match LocalDateTime::new(day, time, 0) {
            Some(reading) => first_instant(self.market.timezone, &reading),
            None => None,
        }
    }

    /// Whether a tick at `input` on 1 January 2024 falls in the bar that
    /// begins at `expected`.
    pub fn check_time(&self, ts: TradeSessionKind, input: Time, expected: Option<Time>) -> (r:
        bool)
        ensures
            r == self.spec_check_time(ts, input, expected),
    {
        let t: Timestamp = match self.instant_on_day(input) {
            Some(t) => t,
            None => {
                return false;
            },
        };
        let found: Option<Timestamp> = self.market.candlestick_time(ts, false, self.period, t);
        match expected {
            None => found.is_none(),
            Some(expected) => match self.instant_on_day(expected) {
                Some(begin) => match found {
                    Some(found) => found.nanos == begin.nanos,
                    None => false,
                },
                None => false,
            },
        }
    }

    /// Whether a tick of the session `ts` at the instant `input`, on a
    /// regular day, falls in the bar that begins at `expected`, or in no bar
    /// where none is expected.
    pub fn check_datetime(
        &self,
        ts: TradeSessionKind,
        input: Timestamp,
        expected: Option<Timestamp>,
    ) -> (r: bool)
        ensures
            r == match expected {
                Some(expected) => self.market().spec_candlestick_time(
                    ts,
                    false,
                    self.period(),
                    input@,
                ) == Some(expected@),
                None => self.market().spec_candlestick_time(ts, false, self.period(), input@)
                    is None,
            },
    {
        let found: Option<Timestamp> = self.market.candlestick_time(
            ts,
            false,
            self.period,
            input,
        );
        match expected {
            Some(expected) => match found {
                Some(found) => found.nanos == expected.nanos,
                None => false,
            },
            None => found.is_none(),
        }
    }
}

} // verus!
