//! Bar periods, the flags that say which parts of a tick may touch a bar, and
//! the ticks and quotes that the engine merges.

use crate::clock::Timestamp;
use crate::market::{TradeSessionKind, TradeSessionType};
use crate::numeric::{Numeric, Ordered, Valued};
use vstd::prelude::*;

verus! {

/// The length of a bar.
#[allow(non_camel_case_types)]
#[derive(Clone, Copy, Debug, PartialEq, Eq, Structural, Hash)]
pub enum Period {
    Min_1,
    Min_2,
    Min_3,
    Min_5,
    Min_10,
    Min_15,
    Min_20,
    Min_30,
    Min_45,
    Min_60,
    Min_120,
    Min_180,
    Min_240,
    Day,
    Week,
    Month,
    Quarter,
    Year,
}

impl Period {
    /// The length in minutes of a minute-valued period; 0 for a period of a
    /// day or longer.
    pub open spec fn spec_minutes(&self) -> int {
        match self {
            Period::Min_1 => 1,
            Period::Min_2 => 2,
            Period::Min_3 => 3,
            Period::Min_5 => 5,
            Period::Min_10 => 10,
            Period::Min_15 => 15,
            Period::Min_20 => 20,
            Period::Min_30 => 30,
            Period::Min_45 => 45,
            Period::Min_60 => 60,
            Period::Min_120 => 120,
            Period::Min_180 => 180,
            Period::Min_240 => 240,
            _ => 0,
        }
    }

    /// Whether the period is counted in minutes.
    pub open spec fn spec_is_minute(&self) -> bool {
        self.spec_minutes() > 0
    }

    /// Whether the period is counted in minutes.
    #[verifier::when_used_as_spec(spec_is_minute)]
    pub fn is_minute(&self) -> (r: bool)
        ensures
            r == self.spec_is_minute(),
    {
        match self {
            Period::Day | Period::Week | Period::Month | Period::Quarter | Period::Year => false,
            _ => true,
        }
    }

    /// The length in minutes of a minute-valued period; none for a period of
    /// a day or longer.
    pub fn minutes(&self) -> (r: Option<u16>)
        ensures
            r.is_some() <==> self.spec_is_minute(),
            r matches Some(n) ==> n == self.spec_minutes(),
    {
        match self {
            Period::Min_1 => Some(1),
            Period::Min_2 => Some(2),
            Period::Min_3 => Some(3),
            Period::Min_5 => Some(5),
            Period::Min_10 => Some(10),
            Period::Min_15 => Some(15),
            Period::Min_20 => Some(20),
            Period::Min_30 => Some(30),
            Period::Min_45 => Some(45),
            Period::Min_60 => Some(60),
            Period::Min_120 => Some(120),
            Period::Min_180 => Some(180),
            Period::Min_240 => Some(240),
            _ => None,
        }
    }
}

/// Which parts of an incoming tick may affect a bar: its price, its volume,
/// both or neither.
#[allow(non_camel_case_types)]
#[derive(Clone, Copy, Debug, PartialEq, Eq, Structural, Hash)]
pub enum UpdateFields {
    /// Neither part.
    EMPTY,
    /// The price: high, low and close follow the tick.
    PRICE,
    /// The volume: volume and turnover grow by the tick's.
    VOLUME,
    /// Both parts.
    ALL,
}

impl UpdateFields {
    /// Whether the price flag is set.
    pub open spec fn has_price(&self) -> bool {
        *self == UpdateFields::PRICE || *self == UpdateFields::ALL
    }

    /// Whether the volume flag is set.
    pub open spec fn has_volume(&self) -> bool {
        *self == UpdateFields::VOLUME || *self == UpdateFields::ALL
    }

    /// Whether every flag of `other` is set in `self`.
    pub open spec fn spec_contains(&self, other: UpdateFields) -> bool {
        (other.has_price() ==> self.has_price()) && (other.has_volume() ==> self.has_volume())
    }

    /// The flags as bits: 1 for the price, 2 for the volume.
    pub open spec fn spec_bits(&self) -> int {
        (if self.has_price() {
            1int
        } else {
            0int
        }) + (if self.has_volume() {
            2int
        } else {
            0int
        })
    }

    /// No flag.
    pub fn empty() -> (r: UpdateFields)
        ensures
            r == UpdateFields::EMPTY,
    {
        UpdateFields::EMPTY
    }

    /// Every flag.
    pub fn all() -> (r: UpdateFields)
        ensures
            r == UpdateFields::ALL,
    {
        UpdateFields::ALL
    }

    /// The flags as bits: 1 for the price, 2 for the volume.
    pub fn bits(&self) -> (r: u32)
        ensures
            r == self.spec_bits(),
    {
        match self {
            UpdateFields::EMPTY => 0,
            UpdateFields::PRICE => 1,
            UpdateFields::VOLUME => 2,
            UpdateFields::ALL => 3,
        }
    }

    /// The flags that `bits` spells, if it sets no bit but those of the price
    /// and the volume.
    pub fn from_bits(bits: u32) -> (r: Option<UpdateFields>)
        ensures
            r.is_some() <==> bits < 4,
            r matches Some(fields) ==> fields.spec_bits() == bits,
    {
        if bits == 0 {
            Some(UpdateFields::EMPTY)
        } else if bits == 1 {
            Some(UpdateFields::PRICE)
        } else if bits == 2 {
            Some(UpdateFields::VOLUME)
        } else if bits == 3 {
            Some(UpdateFields::ALL)
        } else {
            None
        }
    }

    /// Whether every flag of `other` is set in `self`.
    #[verifier::when_used_as_spec(spec_contains)]
    pub fn contains(&self, other: UpdateFields) -> (r: bool)
        ensures
            r == self.spec_contains(other),
    {
        match other {
            UpdateFields::EMPTY => true,
            UpdateFields::PRICE => match self {
                UpdateFields::PRICE | UpdateFields::ALL => true,
                _ => false,
            },
            UpdateFields::VOLUME => match self {
                UpdateFields::VOLUME | UpdateFields::ALL => true,
                _ => false,
            },
            UpdateFields::ALL => match self {
                UpdateFields::ALL => true,
                _ => false,
            },
        }
    }

    /// The flags set in `self` or in `other`.
    pub fn union(&self, other: UpdateFields) -> (r: UpdateFields)
        ensures
            r.has_price() == (self.has_price() || other.has_price()),
            r.has_volume() == (self.has_volume() || other.has_volume()),
    {
        let price: bool = self.contains(UpdateFields::PRICE) || other.contains(UpdateFields::PRICE);
        let volume: bool = self.contains(UpdateFields::VOLUME) || other.contains(
            UpdateFields::VOLUME,
        );
        if price && volume {
            UpdateFields::ALL
        } else if price {
            UpdateFields::PRICE
        } else if volume {
            UpdateFields::VOLUME
        } else {
            UpdateFields::EMPTY
        }
    }
}

/// What a trade tick says, whatever type holds it.
pub struct Tick {
    pub time: int,
    pub price: int,
    pub volume: int,
    pub trade_session: TradeSessionKind,
}

/// A type that holds a trade tick.
pub trait TradeType {
    type PriceType: Ordered;

    type VolumeType: Numeric;

    type TurnoverType: Numeric;

    type TradeSessionType: TradeSessionType;

    /// What the tick says.
    spec fn view(&self) -> Tick;

    /// The money that changed hands in the trade, in a market that trades in
    /// lots of `lot_size`.
    spec fn spec_turnover(&self, lot_size: i32) -> int;

    /// Whether the turnover type can hold the trade's turnover.
    spec fn has_turnover(&self, lot_size: i32) -> bool;

    fn time(&self) -> (r: Timestamp)
        ensures
            r@ == self@.time,
    ;

    fn price(&self) -> (r: Self::PriceType)
        ensures
            r.value() == self@.price,
    ;

    fn volume(&self) -> (r: Self::VolumeType)
        ensures
            r.value() == self@.volume,
    ;

    /// Whether the turnover type can hold the trade's turnover.
    fn can_turnover(&self, lot_size: i32) -> (r: bool)
        ensures
            r == self.has_turnover(lot_size),
    ;

    /// The money that changed hands in the trade.
    fn turnover(&self, lot_size: i32) -> (r: Self::TurnoverType)
        requires
            self.has_turnover(lot_size),
        ensures
            r.value() == self.spec_turnover(lot_size),
    ;

    fn trade_session(&self) -> (r: Self::TradeSessionType)
        ensures
            r.spec_kind() == self@.trade_session,
    ;
}

/// What a quote snapshot says, whatever type holds it.
pub struct Snapshot {
    pub time: int,
    pub open: int,
    pub high: int,
    pub low: int,
    pub last_done: int,
    pub volume: int,
    pub turnover: int,
    pub trade_session: TradeSessionKind,
}

/// A type that holds a quote snapshot: the day's prices, volume and turnover
/// so far.
pub trait QuoteType {
    type PriceType: Ordered;

    type VolumeType: Numeric;

    type TurnoverType: Numeric;

    type TradeSessionType: TradeSessionType;

    /// What the snapshot says.
    spec fn view(&self) -> Snapshot;

    fn time(&self) -> (r: Timestamp)
        ensures
            r@ == self@.time,
    ;

    fn open(&self) -> (r: Self::PriceType)
        ensures
            r.value() == self@.open,
    ;

    fn high(&self) -> (r: Self::PriceType)
        ensures
            r.value() == self@.high,
    ;

    fn low(&self) -> (r: Self::PriceType)
        ensures
            r.value() == self@.low,
    ;

    fn last_done(&self) -> (r: Self::PriceType)
        ensures
            r.value() == self@.last_done,
    ;

    fn volume(&self) -> (r: Self::VolumeType)
        ensures
            r.value() == self@.volume,
    ;

    fn turnover(&self) -> (r: Self::TurnoverType)
        ensures
            r.value() == self@.turnover,
    ;

    fn trade_session(&self) -> (r: Self::TradeSessionType)
        ensures
            r.spec_kind() == self@.trade_session,
    ;
}

/// A trade tick in whole numbers: the price in the currency's smallest unit
/// and the volume in lots.  Its turnover is `price * volume * lot_size`.
#[derive(Debug, Clone, Copy, PartialEq, Eq)]
pub struct Trade<TS> {
    pub time: Timestamp,
    pub price: i64,
    pub volume: i64,
    pub trade_session: TS,
}

/// The product of two 64-bit numbers fits in 128 bits.
pub proof fn lemma_product_fits(a: i64, b: i64)
    ensures
        i128::MIN <= a * b <= i128::MAX,
{
    assert(-0x8000_0000_0000_0000 <= a <= 0x7fff_ffff_ffff_ffff);
    assert(-0x8000_0000_0000_0000 <= b <= 0x7fff_ffff_ffff_ffff);
    assert(-0x4000_0000_0000_0000_0000_0000_0000_0000 <= a * b
        <= 0x4000_0000_0000_0000_0000_0000_0000_0000) by (nonlinear_arith)
        requires
            -0x8000_0000_0000_0000 <= a <= 0x7fff_ffff_ffff_ffff,
            -0x8000_0000_0000_0000 <= b <= 0x7fff_ffff_ffff_ffff,
    ;
}

impl<TS: TradeSessionType> TradeType for Trade<TS> {
    type PriceType = i64;

    type VolumeType = i64;

    type TurnoverType = i128;

    type TradeSessionType = TS;

    open spec fn view(&self) -> Tick {
        Tick {
            time: self.time@,
            price: self.price as int,
            volume: self.volume as int,
            trade_session: self.trade_session.spec_kind(),
        }
    }

    open spec fn spec_turnover(&self, lot_size: i32) -> int {
        self.price * self.volume * lot_size
    }

    open spec fn has_turnover(&self, lot_size: i32) -> bool {
        i128::MIN <= self.spec_turnover(lot_size) <= i128::MAX
    }

    fn time(&self) -> (r: Timestamp) {
        self.time
    }

    fn price(&self) -> (r: i64) {
        self.price
    }

    fn volume(&self) -> (r: i64) {
        self.volume
    }

    fn can_turnover(&self, lot_size: i32) -> (r: bool) {
        proof {
            lemma_product_fits(self.price, self.volume);
        }
        let traded: i128 = self.price as i128 * self.volume as i128;
        traded.checked_mul(lot_size as i128).is_some()
    }

    fn turnover(&self, lot_size: i32) -> (r: i128) {
        proof {
            lemma_product_fits(self.price, self.volume);
        }
        let traded: i128 = self.price as i128 * self.volume as i128;
        traded * lot_size as i128
    }

    fn trade_session(&self) -> (r: TS) {
        self.trade_session
    }
}

/// A quote snapshot held as its plain values.
#[derive(Debug, Clone, Copy, PartialEq, Eq)]
pub struct Quote<P, V, R, TS> {
    pub time: Timestamp,
    pub open: P,
    pub high: P,
    pub low: P,
    pub last_done: P,
    pub volume: V,
    pub turnover: R,
    pub trade_session: TS,
}

impl<P: Ordered, V: Numeric, R: Numeric, TS: TradeSessionType> QuoteType for Quote<P, V, R, TS> {
    type PriceType = P;

    type VolumeType = V;

    type TurnoverType = R;

    type TradeSessionType = TS;

    open spec fn view(&self) -> Snapshot {
        Snapshot {
            time: self.time@,
            open: self.open.value(),
            high: self.high.value(),
            low: self.low.value(),
            last_done: self.last_done.value(),
            volume: self.volume.value(),
            turnover: self.turnover.value(),
            trade_session: self.trade_session.spec_kind(),
        }
    }

    fn time(&self) -> (r: Timestamp) {
        self.time
    }

    fn open(&self) -> (r: P) {
        self.open
    }

    fn high(&self) -> (r: P) {
        self.high
    }

    fn low(&self) -> (r: P) {
        self.low
    }

    fn last_done(&self) -> (r: P) {
        self.last_done
    }

    fn volume(&self) -> (r: V) {
        self.volume
    }

    fn turnover(&self) -> (r: R) {
        self.turnover
    }

    fn trade_session(&self) -> (r: TS) {
        self.trade_session
    }
}

} // verus!
