//! Market-session-aware candlestick aggregation.
//!
//! The engine turns a stream of trade ticks and quote snapshots into OHLCV
//! bars aligned to an exchange's trading sessions.  Every operation is a pure
//! function of its arguments: the caller owns the current bar and applies the
//! returned decision to its own storage.
//!
//! - [`market`] holds the exchange with its session tables, the session
//!   classifier, the time bucketer and the two merge functions.
//! - [`merge`] states what the merge functions decide, over plain numbers, and
//!   proves the laws of those decisions.
//! - [`bucket`] computes where a bar begins on the market's own clock, and
//!   [`find_session`] where a time of day falls among trading windows.
//! - [`clock`] holds the time values: instants, times of day, durations and
//!   wall-clock readings.
//! - [`calendar`] and [`zone`] pass on what the `time` and `time-tz` crates
//!   know of the calendar and of time zones.  What they say of those crates
//!   is taken on trust; everything else is proved.
//! - [`candlestick`], [`types`] and [`numeric`] hold the shapes of bars,
//!   ticks and quotes and what is asked of their numbers; [`days`] holds
//!   half-day calendars.

pub mod bucket;
pub mod calendar;
pub mod candlestick;
pub mod clock;
pub mod days;
pub mod find_session;
pub mod market;
pub mod merge;
pub mod numeric;
pub mod testutil;
pub mod types;
pub mod zone;

pub use candlestick::{CandlestickComponents, CandlestickType};
pub use clock::{Date, Duration, LocalDateTime, Time, Timestamp};
pub use days::DateSet;
pub use market::{
    Days, Market, TradeSession, TradeSessionKind, TradeSessionType, UpdateAction,
    TRADE_SESSION_INTRADAY, TRADE_SESSION_OVERNIGHT, TRADE_SESSION_POST, TRADE_SESSION_PRE,
};
pub use numeric::{Numeric, Ordered, Valued};
pub use types::{Period, Quote, QuoteType, Trade, TradeType, UpdateFields};
