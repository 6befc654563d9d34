//! Normalised public market data and the per-subscription state used to sequence it.
use vstd::prelude::*;
use vstd::string::*;
use crate::model::Instrument;
use crate::time::{now, Timestamp};

verus! {

/// Identifier of an exchange integration.
#[derive(Clone, Copy, Debug, PartialEq, Eq, PartialOrd, Ord, Hash)]
pub enum ExchangeId {
    BinanceFutures,
    Binance,
    Ftx,
}

pub open spec fn exchange_id_text(id: ExchangeId) -> Seq<char> {
    match id {
        ExchangeId::BinanceFutures => "binance_futures"@,
        ExchangeId::Binance => "binance"@,
        ExchangeId::Ftx => "ftx"@,
    }
}

impl ExchangeId {
    /// The snake_case name of the exchange, eg/ "binance_futures".
    pub fn as_str(&self) -> (r: &'static str)
        ensures
            r@ == exchange_id_text(*self),
    {
        match self {
            ExchangeId::BinanceFutures => "binance_futures",
            ExchangeId::Binance => "binance",
            ExchangeId::Ftx => "ftx",
        }
    }
}

/// A stream of data to subscribe to.
#[derive(Debug, PartialEq, Eq, PartialOrd, Ord, Hash)]
pub enum Subscription {
    Trades(Instrument),
}

impl Clone for Subscription {
    fn clone(&self) -> (r: Subscription)
        ensures
            r == *self,
    {
        match self {
            Subscription::Trades(instrument) => Subscription::Trades(instrument.clone()),
        }
    }
}

impl Subscription {
    pub open spec fn spec_instrument(self) -> Instrument {
        match self {
            Subscription::Trades(instrument) => instrument,
        }
    }
}

/// Position of an event within the events of one subscription.
#[derive(Clone, Copy, Debug, PartialEq, Eq, PartialOrd, Ord, Hash)]
pub struct Sequence(pub u64);

/// The sequence that follows `s`; it wraps to zero after `u64::MAX`.
pub open spec fn next_sequence(s: u64) -> u64 {
    if s == u64::MAX {
        0
    } else {
        (s + 1) as u64
    }
}

/// Identifier of a stream as the exchange names it, eg/ "btcusdt@aggTrade".
#[derive(Debug, PartialEq, Eq, PartialOrd, Ord, Hash)]
pub struct StreamId(pub String);

impl Clone for StreamId {
    fn clone(&self) -> (r: StreamId)
        ensures
            r == *self,
    {
        StreamId(self.0.clone())
    }
}

/// Per-subscription state: the subscription and the sequence of its next event.
#[derive(Debug, PartialEq, Eq, PartialOrd, Ord, Hash)]
pub struct StreamMeta {
    pub sequence: Sequence,
    pub subscription: Subscription,
}

impl Clone for StreamMeta {
    fn clone(&self) -> (r: StreamMeta)
        ensures
            r == *self,
    {
        StreamMeta { sequence: self.sequence, subscription: self.subscription.clone() }
    }
}

impl StreamMeta {
    pub open spec fn spec_new(subscription: Subscription) -> StreamMeta {
        StreamMeta { sequence: Sequence(0), subscription }
    }

    /// The state of a newly registered subscription: its first event has sequence zero.
    pub fn new(subscription: Subscription) -> (r: StreamMeta)
        ensures
            r == StreamMeta::spec_new(subscription),
    {
        StreamMeta { sequence: Sequence(0), subscription }
    }
}

/// A decimal number: `mantissa * 10^-scale`.
#[derive(Clone, Copy, Debug, PartialEq, Eq, PartialOrd, Ord, Hash)]
pub struct Decimal {
    pub mantissa: i128,
    pub scale: u32,
}

/// Direction of a trade, from the taker's point of view.
#[derive(Clone, Copy, Debug, PartialEq, Eq, PartialOrd, Ord, Hash)]
pub enum Direction {
    Long,
    Short,
}

/// Normalised public trade.
#[derive(Debug, PartialEq, Eq)]
pub struct Trade {
    pub id: String,
    pub exchange: String,
    pub instrument: Instrument,
    pub received_timestamp: Timestamp,
    pub exchange_timestamp: Timestamp,
    pub price: Decimal,
    pub quantity: Decimal,
    pub direction: Direction,
}

/// Public market data.
#[derive(Debug, PartialEq, Eq)]
pub enum MarketData {
    Trade(Trade),
    Candle,
    Kline,
    OrderBook,
}

/// A normalised event: its sequence within its subscription, the time it was received, and
/// its data.
#[derive(Debug, PartialEq, Eq)]
pub struct MarketEvent {
    pub sequence: Sequence,
    pub timestamp: Timestamp,
    pub data: MarketData,
}

impl MarketEvent {
    /// An event received at `timestamp`.
    pub fn new_at(sequence: Sequence, data: MarketData, timestamp: Timestamp) -> (r: MarketEvent)
        ensures
            r == (MarketEvent { sequence, timestamp, data }),
    {
        MarketEvent { sequence, timestamp, data }
    }

    /// An event received now, as [`now`] reads the clock (the epoch where the clock reads
    /// before it).
    pub fn new(sequence: Sequence, data: MarketData) -> (r: MarketEvent)
        ensures
            r.sequence == sequence,
            r.data == data,
    {
        MarketEvent::new_at(sequence, data, now())
    }
}

/// A message that can name the stream it belongs to.
pub trait StreamIdentifier {
    spec fn spec_stream_id(&self) -> Seq<char>;

    fn to_stream_id(&self) -> (r: StreamId)
        ensures
            r.0@ == self.spec_stream_id(),
    ;
}

} // verus!
