//! What the merge engine decides, stated over what bars, ticks and quotes
//! say, and the laws of those decisions.

use crate::candlestick::{Bar, CandlestickComponents, CandlestickType};
use crate::clock::Timestamp;
use crate::market::{bar_view, TradeSessionKind, TradeSessionType, UpdateAction};
use crate::numeric::{Numeric, Ordered};
use crate::types::{QuoteType, Snapshot, Tick, TradeType, UpdateFields};
use vstd::prelude::*;

verus! {

/// The larger of two numbers.
pub open spec fn larger(a: int, b: int) -> int {
    if a < b {
        b
    } else {
        a
    }
}

/// The smaller of two numbers.
pub open spec fn smaller(a: int, b: int) -> int {
    if b < a {
        b
    } else {
        a
    }
}

/// The bar after a tick of its own bucket: with the price flag the high and
/// the low stretch to the tick's price and the close follows it; with the
/// volume flag the volume and the turnover grow by the tick's.
pub open spec fn updated(bar: Bar, tick: Tick, turnover: int, fields: UpdateFields) -> Bar {
    Bar {
        high: if fields.has_price() {
            larger(bar.high, tick.price)
        } else {
            bar.high
        },
        low: if fields.has_price() {
            smaller(bar.low, tick.price)
        } else {
            bar.low
        },
        close: if fields.has_price() {
            tick.price
        } else {
            bar.close
        },
        volume: if fields.has_volume() {
            bar.volume + tick.volume
        } else {
            bar.volume
        },
        turnover: if fields.has_volume() {
            bar.turnover + turnover
        } else {
            bar.turnover
        },
        ..bar
    }
}

/// The first bar of a stream: every value comes from the tick.
pub open spec fn seeded(bucket: int, tick: Tick, turnover: int) -> Bar {
    Bar {
        time: bucket,
        open: tick.price,
        high: tick.price,
        low: tick.price,
        close: tick.price,
        volume: tick.volume,
        turnover,
        trade_session: tick.trade_session,
    }
}

/// The bar that follows `previous`: its prices start from the previous close
/// and its volume and turnover from zero; with the price flag the tick's price
/// replaces the prices, with the volume flag the tick's volume and turnover
/// replace the zeros.
pub open spec fn carried(
    bucket: int,
    previous: Bar,
    tick: Tick,
    turnover: int,
    fields: UpdateFields,
) -> Bar {
    let price = if fields.has_price() {
        tick.price
    } else {
        previous.close
    };
    Bar {
        time: bucket,
        open: price,
        high: price,
        low: price,
        close: price,
        volume: if fields.has_volume() {
            tick.volume
        } else {
            0
        },
        turnover: if fields.has_volume() {
            turnover
        } else {
            0
        },
        trade_session: tick.trade_session,
    }
}

/// The decision for a tick whose bar begins at `bucket`, given the current
/// bar.
///
/// Without a bucket the tick is dropped.  A tick of the current bar's bucket
/// updates that bar.  Without a current bar a tick with the price flag opens
/// the first bar, any other is dropped.  A tick of a later bucket closes the
/// current bar and opens the next.  A tick of an earlier bucket is dropped.
pub open spec fn spec_merge(
    bucket: Option<int>,
    current: Option<Bar>,
    tick: Tick,
    turnover: int,
    fields: UpdateFields,
) -> UpdateAction<Bar> {
    match bucket {
        None => UpdateAction::Ignore,
        Some(bucket) => match current {
            Some(previous) => if bucket == previous.time {
                UpdateAction::UpdateLast(updated(previous, tick, turnover, fields))
            } else if bucket > previous.time {
                UpdateAction::AppendNew {
                    confirmed: Some(previous),
                    new: carried(bucket, previous, tick, turnover, fields),
                }
            } else {
                UpdateAction::Ignore
            },
            None => if fields.has_price() {
                UpdateAction::AppendNew { confirmed: None, new: seeded(bucket, tick, turnover) }
            } else {
                UpdateAction::Ignore
            },
        },
    }
}

/// The day bar that a quote snapshot spells: the snapshot's own prices,
/// volume and turnover.
pub open spec fn snapshot_bar(bucket: int, quote: Snapshot) -> Bar {
    Bar {
        time: bucket,
        open: quote.open,
        high: quote.high,
        low: quote.low,
        close: quote.last_done,
        volume: quote.volume,
        turnover: quote.turnover,
        trade_session: quote.trade_session,
    }
}

/// The decision for a quote snapshot whose day begins at `bucket`, given the
/// current day bar.
///
/// Only a snapshot of the regular session with a bucket counts.  It
/// overwrites the current bar of the same day, opens the first bar, or closes
/// the bar of an earlier day and opens the next; a snapshot of an earlier day
/// is dropped.
pub open spec fn spec_merge_quote(bucket: Option<int>, current: Option<Bar>, quote: Snapshot)
    -> UpdateAction<Bar> {
    if quote.trade_session != TradeSessionKind::Intraday {
        UpdateAction::Ignore
    } else {
        match bucket {
            None => UpdateAction::Ignore,
            Some(bucket) => match current {
                Some(previous) => if bucket == previous.time {
                    UpdateAction::UpdateLast(snapshot_bar(bucket, quote))
                } else if bucket > previous.time {
                    UpdateAction::AppendNew {
                        confirmed: Some(previous),
                        new: snapshot_bar(bucket, quote),
                    }
                } else {
                    UpdateAction::Ignore
                },
                None => UpdateAction::AppendNew {
                    confirmed: None,
                    new: snapshot_bar(bucket, quote),
                },
            },
        }
    }
}

/// The instant as a plain number, if there is one.
pub open spec fn instant_view(time: Option<Timestamp>) -> Option<int> {
    match time {
        Some(time) => Some(time@),
        None => None,
    }
}

/// Whether the numbers fit their types that merging `trade` into `input`
/// forms, for a tick whose bar begins at `bucket`: the tick's turnover
/// wherever it enters a bar, and the sums of volume and turnover where the
/// tick adds to the current bar.
pub open spec fn merge_fits<C, T>(
    lot_size: i32,
    bucket: Option<int>,
    input: Option<C>,
    trade: &T,
    fields: UpdateFields,
) -> bool where
    C: CandlestickType,
    T: TradeType<VolumeType = C::VolumeType, TurnoverType = C::TurnoverType>,
 {
    match bucket {
        None => true,
        Some(bucket) => match input {
            Some(bar) => fields.has_volume() ==> {
                &&& bucket >= bar@.time ==> trade.has_turnover(lot_size)
                &&& bucket == bar@.time ==> {
                    &&& C::VolumeType::fits(bar@.volume + trade@.volume)
                    &&& C::TurnoverType::fits(bar@.turnover + trade.spec_turnover(lot_size))
                }
            },
            None => fields.has_price() ==> trade.has_turnover(lot_size),
        },
    }
}

/// Whether the numbers fit wherever the tick's bar begins.
pub open spec fn always_fits<C, T>(
    lot_size: i32,
    input: Option<C>,
    trade: &T,
    fields: UpdateFields,
) -> bool where
    C: CandlestickType,
    T: TradeType<VolumeType = C::VolumeType, TurnoverType = C::TurnoverType>,
 {
    match input {
        Some(bar) => fields.has_volume() ==> {
            &&& trade.has_turnover(lot_size)
            &&& C::VolumeType::fits(bar@.volume + trade@.volume)
            &&& C::TurnoverType::fits(bar@.turnover + trade.spec_turnover(lot_size))
        },
        None => fields.has_price() ==> trade.has_turnover(lot_size),
    }
}

/// Merges a trade tick whose bar begins at `time` into the current bar of
/// its stream, in a market that trades in lots of `lot_size`.
///
/// The decision is `spec_merge`.  A confirmed bar is the current bar itself.
pub fn merge_trade_at<TS, C, T, P, V, R>(
    lot_size: i32,
    time: Option<Timestamp>,
    input: Option<C>,
    trade: &T,
    update_fields: UpdateFields,
) -> (r: UpdateAction<C>) where
    TS: TradeSessionType,
    C: CandlestickType<PriceType = P, VolumeType = V, TurnoverType = R, TradeSessionType = TS>,
    T: TradeType<PriceType = P, VolumeType = V, TurnoverType = R, TradeSessionType = TS>,
    P: Ordered,
    V: Numeric,
    R: Numeric,

    requires
        input matches Some(bar) ==> bar@.trade_session == trade@.trade_session,
        merge_fits(lot_size, instant_view(time), input, trade, update_fields),
    ensures
        r@ == spec_merge(
            instant_view(time),
            bar_view(input),
            trade@,
            trade.spec_turnover(lot_size),
            update_fields,
        ),
        r matches UpdateAction::AppendNew { confirmed, .. } ==> confirmed == input,
{
    let time: Timestamp = match time {
        Some(time) => time,
        None => {
            return UpdateAction::Ignore;
        },
    };
    let trade_session: TS = trade.trade_session();
    match input {
        Some(prev) => {
            let current: Timestamp = prev.time();
            if time.nanos == current.nanos {
                let mut candlestick: C = prev;
                if update_fields.contains(UpdateFields::PRICE) {
                    let price: P = trade.price();
                    let high: P = candlestick.high();
                    candlestick.set_high(
                        if high.less_than(&price) {
                            price
                        } else {
                            high
                        },
                    );
                    let low: P = candlestick.low();
                    candlestick.set_low(
                        if price.less_than(&low) {
                            price
                        } else {
                            low
                        },
                    );
                    candlestick.set_close(price);
                }
                if update_fields.contains(UpdateFields::VOLUME) {
                    let volume: V = candlestick.volume().plus(&trade.volume());
                    candlestick.set_volume(volume);
                    let turnover: R = candlestick.turnover().plus(&trade.turnover(lot_size));
                    candlestick.set_turnover(turnover);
                }
                UpdateAction::UpdateLast(candlestick)
            } else if time.nanos > current.nanos {
                let close: P = prev.close();
                let mut new_candlestick: C = C::new(
                    CandlestickComponents {
                        time,
                        open: close,
                        high: close,
                        low: close,
                        close,
                        volume: V::zero(),
                        turnover: R::zero(),
                        trade_session,
                    },
                );
                if update_fields.contains(UpdateFields::PRICE) {
                    let price: P = trade.price();
                    new_candlestick.set_open(price);
                    new_candlestick.set_high(price);
                    new_candlestick.set_low(price);
                    new_candlestick.set_close(price);
                }
                if update_fields.contains(UpdateFields::VOLUME) {
                    new_candlestick.set_volume(trade.volume());
                    new_candlestick.set_turnover(trade.turnover(lot_size));
                }
                UpdateAction::AppendNew { confirmed: Some(prev), new: new_candlestick }
            } else {
                UpdateAction::Ignore
            }
        },
        None => {
            if update_fields.contains(UpdateFields::PRICE) {
                let price: P = trade.price();
                let new_candlestick: C = C::new(
                    CandlestickComponents {
                        time,
                        open: price,
                        high: price,
                        low: price,
                        close: price,
                        volume: trade.volume(),
                        turnover: trade.turnover(lot_size),
                        trade_session,
                    },
                );
                UpdateAction::AppendNew { confirmed: None, new: new_candlestick }
            } else {
                UpdateAction::Ignore
            }
        },
    }
}

/// The bar that holds the snapshot's values and begins at `time`.
fn bar_of_quote<TS, C, Q, P, V, R>(time: Timestamp, quote: &Q) -> (r: C) where
    TS: TradeSessionType,
    C: CandlestickType<PriceType = P, VolumeType = V, TurnoverType = R, TradeSessionType = TS>,
    Q: QuoteType<PriceType = P, VolumeType = V, TurnoverType = R, TradeSessionType = TS>,
    P: Ordered,
    V: Numeric,
    R: Numeric,

    ensures
        r@ == snapshot_bar(time@, quote@),
{
    C::new(
        CandlestickComponents {
            time,
            open: quote.open(),
            high: quote.high(),
            low: quote.low(),
            close: quote.last_done(),
            volume: quote.volume(),
            turnover: quote.turnover(),
            trade_session: quote.trade_session(),
        },
    )
}

/// Merges a quote snapshot whose day begins at `time` into the current day
/// bar of its stream.
///
/// The decision is `spec_merge_quote`.  A confirmed bar is the current bar
/// itself.
pub fn merge_quote_at<TS, C, Q, P, V, R>(time: Option<Timestamp>, input: Option<C>, quote: &Q) -> (r:
    UpdateAction<C>) where
    TS: TradeSessionType,
    C: CandlestickType<PriceType = P, VolumeType = V, TurnoverType = R, TradeSessionType = TS>,
    Q: QuoteType<PriceType = P, VolumeType = V, TurnoverType = R, TradeSessionType = TS>,
    P: Ordered,
    V: Numeric,
    R: Numeric,

    requires
        input matches Some(bar) ==> (quote@.trade_session == TradeSessionKind::Intraday
            ==> bar@.trade_session == TradeSessionKind::Intraday),
    ensures
        r@ == spec_merge_quote(instant_view(time), bar_view(input), quote@),
        r matches UpdateAction::AppendNew { confirmed, .. } ==> confirmed == input,
{
    if !quote.trade_session().is_intraday() {
        return UpdateAction::Ignore;
    }
    let time: Timestamp = match time {
        Some(time) => time,
        None => {
            return UpdateAction::Ignore;
        },
    };
    match input {
        Some(prev) => {
            let current: Timestamp = prev.time();
            if time.nanos == current.nanos {
                UpdateAction::UpdateLast(bar_of_quote(time, quote))
            } else if time.nanos > current.nanos {
                UpdateAction::AppendNew { confirmed: Some(prev), new: bar_of_quote(time, quote) }
            } else {
                UpdateAction::Ignore
            }
        },
        None => UpdateAction::AppendNew { confirmed: None, new: bar_of_quote(time, quote) },
    }
}

/// The current bar of a stream once the caller has applied a decision: the
/// updated bar, the newly opened bar, or the bar as it was.
pub open spec fn applied(action: UpdateAction<Bar>, current: Option<Bar>) -> Option<Bar> {
    match action {
        UpdateAction::UpdateLast(bar) => Some(bar),
        UpdateAction::AppendNew { confirmed, new } => Some(new),
        UpdateAction::Ignore => current,
    }
}

/// The current bar after one tick of the bucket `bucket` has been merged.
pub open spec fn after_tick(
    bucket: int,
    current: Option<Bar>,
    tick: Tick,
    turnover: int,
    fields: UpdateFields,
) -> Option<Bar> {
    applied(spec_merge(Some(bucket), current, tick, turnover, fields), current)
}

/// Two ticks of one bucket, merged one after the other, leave the bar that
/// one tick would leave which carried both: the high as after a tick at the
/// higher of the two prices, the low as after a tick at the lower, the close
/// as after the second tick, volume and turnover as after a tick with the sum
/// of the two.  Either both ways leave a bar or neither does.
///
/// The law holds whatever the current bar is: of the ticks' bucket, older,
/// newer or absent.  It leaves out one start: no current bar and the price
/// flag alone.  The first tick then seeds the new bar with its volume, and
/// the second tick's volume is never added.
pub proof fn lemma_two_ticks_as_one(
    bucket: int,
    current: Option<Bar>,
    first: Tick,
    first_turnover: int,
    second: Tick,
    second_turnover: int,
    fields: UpdateFields,
)
    requires
        current is Some || fields != UpdateFields::PRICE,
    ensures
        ({
            let middle = after_tick(bucket, current, first, first_turnover, fields);
            let last = after_tick(bucket, middle, second, second_turnover, fields);
            let both = Tick {
                time: second.time,
                price: second.price,
                volume: first.volume + second.volume,
                trade_session: second.trade_session,
            };
            let turnover = first_turnover + second_turnover;
            let at_close = after_tick(bucket, current, both, turnover, fields);
            let at_high = after_tick(
                bucket,
                current,
                Tick { price: larger(first.price, second.price), ..both },
                turnover,
                fields,
            );
            let at_low = after_tick(
                bucket,
                current,
                Tick { price: smaller(first.price, second.price), ..both },
                turnover,
                fields,
            );
            &&& last is Some <==> at_close is Some
            &&& last matches Some(last) ==> {
                &&& at_high matches Some(at_high) && last.high == at_high.high
                &&& at_low matches Some(at_low) && last.low == at_low.low
                &&& at_close matches Some(at_close) && last.close == at_close.close
                    && last.volume == at_close.volume && last.turnover == at_close.turnover
                    && last.time == at_close.time
            }
        }),
{
}

/// A first tick that opens a bar and a second tick of the same bucket leave
/// the bar that opened on the first price, spans both prices, closes on the
/// second and holds the volume and turnover of both.
pub proof fn lemma_open_then_merge(
    bucket: int,
    first: Tick,
    first_turnover: int,
    second: Tick,
    second_turnover: int,
)
    ensures
        after_tick(
            bucket,
            after_tick(bucket, None, first, first_turnover, UpdateFields::ALL),
            second,
            second_turnover,
            UpdateFields::ALL,
        ) == Some(
            Bar {
                time: bucket,
                open: first.price,
                high: larger(first.price, second.price),
                low: smaller(first.price, second.price),
                close: second.price,
                volume: first.volume + second.volume,
                turnover: first_turnover + second_turnover,
                trade_session: first.trade_session,
            },
        ),
{
}

/// A tick whose bar would begin before the current bar is dropped, and the
/// current bar stays as it is.
pub proof fn lemma_stale_tick_ignored(
    bucket: int,
    bar: Bar,
    tick: Tick,
    turnover: int,
    fields: UpdateFields,
)
    requires
        bucket < bar.time,
    ensures
        spec_merge(Some(bucket), Some(bar), tick, turnover, fields) == UpdateAction::<
            Bar,
        >::Ignore,
        after_tick(bucket, Some(bar), tick, turnover, fields) == Some(bar),
{
}

/// A quote snapshot of a day before the current bar's is dropped.
pub proof fn lemma_stale_quote_ignored(bucket: int, bar: Bar, quote: Snapshot)
    requires
        bucket < bar.time,
    ensures
        spec_merge_quote(Some(bucket), Some(bar), quote) == UpdateAction::<Bar>::Ignore,
{
}

} // verus!
