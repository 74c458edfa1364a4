//! Bars: the values that make one up, and what the engine asks of a type
//! that holds one.

use crate::clock::Timestamp;
use crate::market::{TradeSessionKind, TradeSessionType};
use crate::numeric::{Numeric, Ordered, Valued};
use vstd::prelude::*;

verus! {

/// What a bar says, whatever type holds it: the instant at which it begins,
/// its prices, volume and turnover as plain numbers, and its session.
pub struct Bar {
    pub time: int,
    pub open: int,
    pub high: int,
    pub low: int,
    pub close: int,
    pub volume: int,
    pub turnover: int,
    pub trade_session: TradeSessionKind,
}

/// The values that make up a bar.
#[derive(Debug, Clone, Copy, PartialEq, Eq)]
pub struct CandlestickComponents<PriceType, VolumeType, TurnoverType, TradeSessionType> {
    pub time: Timestamp,
    pub open: PriceType,
    pub high: PriceType,
    pub low: PriceType,
    pub close: PriceType,
    pub volume: VolumeType,
    pub turnover: TurnoverType,
    pub trade_session: TradeSessionType,
}

impl<P: Ordered, V: Numeric, R: Numeric, TS: TradeSessionType> CandlestickComponents<P, V, R, TS> {
    /// What the bar made of these values says.
    pub open spec fn bar(&self) -> Bar {
        Bar {
            time: self.time@,
            open: self.open.value(),
            high: self.high.value(),
            low: self.low.value(),
            close: self.close.value(),
            volume: self.volume.value(),
            turnover: self.turnover.value(),
            trade_session: self.trade_session.spec_kind(),
        }
    }
}

/// A type that holds a bar.
pub trait CandlestickType: Sized {
    type PriceType: Ordered;

    type VolumeType: Numeric;

    type TurnoverType: Numeric;

    type TradeSessionType: TradeSessionType;

    /// What the bar says.
    spec fn view(&self) -> Bar;

    /// A bar made of the given values.
    fn new(
        components: CandlestickComponents<
            Self::PriceType,
            Self::VolumeType,
            Self::TurnoverType,
            Self::TradeSessionType,
        >,
    ) -> (r: Self)
        ensures
            r@ == components.bar(),
    ;

    fn time(&self) -> (r: Timestamp)
        ensures
            r@ == self@.time,
    ;

    fn set_time(&mut self, time: Timestamp)
        ensures
            final(self)@ == (Bar { time: time@, ..old(self)@ }),
    ;

    fn open(&self) -> (r: Self::PriceType)
        ensures
            r.value() == self@.open,
    ;

    fn set_open(&mut self, open: Self::PriceType)
        ensures
            final(self)@ == (Bar { open: open.value(), ..old(self)@ }),
    ;

    fn high(&self) -> (r: Self::PriceType)
        ensures
            r.value() == self@.high,
    ;

    fn set_high(&mut self, high: Self::PriceType)
        ensures
            final(self)@ == (Bar { high: high.value(), ..old(self)@ }),
    ;

    fn low(&self) -> (r: Self::PriceType)
        ensures
            r.value() == self@.low,
    ;

    fn set_low(&mut self, low: Self::PriceType)
        ensures
            final(self)@ == (Bar { low: low.value(), ..old(self)@ }),
    ;

    fn close(&self) -> (r: Self::PriceType)
        ensures
            r.value() == self@.close,
    ;

    fn set_close(&mut self, close: Self::PriceType)
        ensures
            final(self)@ == (Bar { close: close.value(), ..old(self)@ }),
    ;

    fn volume(&self) -> (r: Self::VolumeType)
        ensures
            r.value() == self@.volume,
    ;

    fn set_volume(&mut self, volume: Self::VolumeType)
        ensures
            final(self)@ == (Bar { volume: volume.value(), ..old(self)@ }),
    ;

    fn turnover(&self) -> (r: Self::TurnoverType)
        ensures
            r.value() == self@.turnover,
    ;

    fn set_turnover(&mut self, turnover: Self::TurnoverType)
        ensures
            final(self)@ == (Bar { turnover: turnover.value(), ..old(self)@ }),
    ;

    fn trade_session(&self) -> (r: Self::TradeSessionType)
        ensures
            r.spec_kind() == self@.trade_session,
    ;
}

impl<P: Ordered, V: Numeric, R: Numeric, TS: TradeSessionType> CandlestickType for CandlestickComponents<
    P,
    V,
    R,
    TS,
> {
    type PriceType = P;

    type VolumeType = V;

    type TurnoverType = R;

    type TradeSessionType = TS;

    open spec fn view(&self) -> Bar {
        self.bar()
    }

    fn new(components: CandlestickComponents<P, V, R, TS>) -> (r: Self) {
        components
    }

    fn time(&self) -> (r: Timestamp) {
        self.time
    }

    fn set_time(&mut self, time: Timestamp) {
        self.time = time;
    }

    fn open(&self) -> (r: P) {
        self.open
    }

    fn set_open(&mut self, open: P) {
        self.open = open;
    }

    fn high(&self) -> (r: P) {
        self.high
    }

    fn set_high(&mut self, high: P) {
        self.high = high;
    }

    fn low(&self) -> (r: P) {
        self.low
    }

    fn set_low(&mut self, low: P) {
        self.low = low;
    }

    fn close(&self) -> (r: P) {
        self.close
    }

    fn set_close(&mut self, close: P) {
        self.close = close;
    }

    fn volume(&self) -> (r: V) {
        self.volume
    }

    fn set_volume(&mut self, volume: V) {
        self.volume = volume;
    }

    fn turnover(&self) -> (r: R) {
        self.turnover
    }

    fn set_turnover(&mut self, turnover: R) {
        self.turnover = turnover;
    }

    fn trade_session(&self) -> (r: TS) {
        self.trade_session
    }
}

} // verus!
