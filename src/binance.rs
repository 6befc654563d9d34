//! Binance Futures: its wire messages, the channel names it uses, and the transformer that
//! turns its messages into sequenced market events.
use vstd::prelude::*;
use vstd::string::*;
use crate::error::SocketError;
use crate::market::{
    exchange_id_text, next_sequence, Decimal, Direction, ExchangeId, MarketData, MarketEvent,
    Sequence, StreamId, StreamIdentifier, StreamMeta, Subscription, Trade,
};
use crate::model::{Instrument, SubscriptionId};
use crate::stream::Transformer;
use crate::text::{concat, decimal_text, lower_of, lowercase, u64_to_text};
use crate::time::{epoch_ms_to_datetime_utc, Timestamp};

verus! {

/// Binance's answer to a subscription request: `result` is `None` on success.
#[derive(Debug, PartialEq, Eq)]
pub struct BinanceSubscribed {
    pub result: Option<Vec<String>>,
    pub id: u32,
}

/// Binance trade message.
#[derive(Debug, PartialEq, Eq)]
pub struct BinanceTrade {
    /// Event type, eg/ "aggTrade".
    pub event_type: String,
    /// Market symbol, eg/ "BTCUSDT".
    pub symbol: String,
    /// Trade time, in milliseconds since the Unix epoch.
    pub trade_ts: u64,
    pub id: u64,
    pub price: Decimal,
    pub quantity: Decimal,
    pub buyer_is_maker: bool,
}

/// Messages that Binance sends over a market data connection.
#[derive(Debug, PartialEq, Eq)]
pub enum BinanceMessage {
    Subscribed(BinanceSubscribed),
    Trade(BinanceTrade),
}

impl StreamIdentifier for BinanceTrade {
    /// `{symbol in lowercase}@{event type}`, eg/ "btcusdt@aggTrade".
    open spec fn spec_stream_id(&self) -> Seq<char> {
        lower_of(self.symbol@) + "@"@ + self.event_type@
    }

    fn to_stream_id(&self) -> (r: StreamId) {
        let symbol = lowercase(self.symbol.as_str());
        let s = concat(symbol.as_str(), "@");
        StreamId(s.concat(self.event_type.as_str()))
    }
}

/// Whether `t` is the normalised form of `trade` on `exchange` for `instrument`, received at
/// `received`.
pub open spec fn is_trade_of(
    t: Trade,
    exchange: ExchangeId,
    instrument: Instrument,
    trade: BinanceTrade,
    received: Timestamp,
) -> bool {
    &&& t.id@ == decimal_text(trade.id as nat)
    &&& t.exchange@ == exchange_id_text(exchange)
    &&& t.instrument == instrument
    &&& t.received_timestamp == received
    &&& t.exchange_timestamp == (Timestamp { epoch_ms: trade.trade_ts })
    &&& t.price == trade.price
    &&& t.quantity == trade.quantity
    &&& t.direction == if trade.buyer_is_maker {
        Direction::Short
    } else {
        Direction::Long
    }
}

/// Normalises `trade` on `exchange` for `instrument`, received at `received`. A trade whose
/// buyer is the maker was initiated by a seller: its direction is short.
pub fn trade_market_data(
    exchange: ExchangeId,
    instrument: Instrument,
    trade: BinanceTrade,
    received: Timestamp,
) -> (r: MarketData)
    ensures
        r matches MarketData::Trade(t) && is_trade_of(t, exchange, instrument, trade, received),
{
    let direction = if trade.buyer_is_maker {
        Direction::Short
    } else {
        Direction::Long
    };
    MarketData::Trade(
        Trade {
            id: u64_to_text(trade.id),
            exchange: String::from_str(exchange.as_str()),
            instrument,
            received_timestamp: received,
            exchange_timestamp: epoch_ms_to_datetime_utc(trade.trade_ts),
            price: trade.price,
            quantity: trade.quantity,
            direction,
        },
    )
}

/// Whether `e` is the event made of `trade`, stamped with `sequence` and received at `now`.
pub open spec fn is_trade_event(
    e: MarketEvent,
    sequence: u64,
    instrument: Instrument,
    trade: BinanceTrade,
    now: Timestamp,
) -> bool {
    &&& e.sequence == Sequence(sequence)
    &&& e.timestamp == now
    &&& e.data matches MarketData::Trade(t) && is_trade_of(
        t,
        ExchangeId::BinanceFutures,
        instrument,
        trade,
        now,
    )
}

/// The channel Binance Futures uses for a subscription: `{base}{quote}@aggTrade`.
pub open spec fn channel_of(subscription: Subscription) -> Seq<char> {
    match subscription {
        Subscription::Trades(instrument) => instrument.base@ + instrument.quote@ + "@aggTrade"@,
    }
}

/// The registry after the subscriptions `subs` are registered in order, each with a fresh
/// [`StreamMeta`] under its channel.
pub open spec fn register_all(
    registry: Map<Seq<char>, StreamMeta>,
    subs: Seq<Subscription>,
) -> Map<Seq<char>, StreamMeta>
    decreases subs.len(),
{
    if subs.len() == 0 {
        registry
    } else {
        register_all(registry, subs.drop_last()).insert(
            channel_of(subs.last()),
            StreamMeta::spec_new(subs.last()),
        )
    }
}

/// The JSON text that serde_json writes for an array of strings.
pub uninterp spec fn json_string_array(items: Seq<Seq<char>>) -> Seq<char>;

/// Relies on `serde_json::to_string` on a `Vec<String>`: the compact JSON array of those
/// strings. It succeeds: strings always serialise, and the output is written to a `Vec<u8>`,
/// which never fails.
#[verifier::external_body]
fn to_json_string_array(items: &Vec<String>) -> (r: Result<String, serde_json::Error>)
    ensures
        r is Ok,
        r matches Ok(s) ==> s@ == json_string_array(items.deep_view()),
{
    serde_json::to_string(items)
}

/// The subscription request whose parameters are the JSON array `params`.
pub open spec fn subscribe_request_framing(params: Seq<char>) -> Seq<char> {
    "{\"method\":\"SUBSCRIBE\",\"params\":"@ + params + ",\"id\":1}"@
}

/// The request that subscribes to `channels`.
pub open spec fn subscribe_request_text(channels: Seq<Seq<char>>) -> Seq<char> {
    subscribe_request_framing(json_string_array(channels))
}

/// Frames the JSON array `params` as a Binance subscription request:
/// `{"method":"SUBSCRIBE","params":<params>,"id":1}`.
pub fn subscribe_request(params: &str) -> (r: String)
    ensures
        r@ == subscribe_request_framing(params@),
{
    let request = concat("{\"method\":\"SUBSCRIBE\",\"params\":", params);
    request.concat(",\"id\":1}")
}

/// Transformer of Binance Futures messages: holds the [`StreamMeta`] of each subscribed
/// channel.
pub struct BinanceFutures {
    streams: Vec<(StreamId, StreamMeta)>,
    registry: Ghost<Map<Seq<char>, StreamMeta>>,
}

impl View for BinanceFutures {
    type V = Map<Seq<char>, StreamMeta>;

    /// Channel name to the state of its subscription.
    closed spec fn view(&self) -> Map<Seq<char>, StreamMeta> {
        self.registry@
    }
}

impl BinanceFutures {
    /// The channels are unique and the registry maps each to its state.
    pub closed spec fn wf(&self) -> bool {
        &&& forall|i: int|
            0 <= i < self.streams@.len() ==> {
                &&& #[trigger] self.registry@.contains_key(self.streams@[i].0.0@)
                &&& self.registry@[self.streams@[i].0.0@] == self.streams@[i].1
            }
        &&& forall|k: Seq<char>|
            #[trigger] self.registry@.contains_key(k) ==> exists|i: int|
                0 <= i < self.streams@.len() && self.streams@[i].0.0@ == k
        &&& forall|i: int, j: int|
            #![trigger self.streams@[i], self.streams@[j]]
            0 <= i < j < self.streams@.len() ==> self.streams@[i].0.0@ != self.streams@[j].0.0@
    }

    pub const EXCHANGE: ExchangeId = ExchangeId::BinanceFutures;

    pub const BASE_URL: &'static str = "wss://fstream.binance.com/ws";

    pub fn new() -> (r: BinanceFutures)
        ensures
            r@ == Map::<Seq<char>, StreamMeta>::empty(),
            r.wf(),
    {
        BinanceFutures { streams: Vec::new(), registry: Ghost(Map::empty()) }
    }

    /// Position of the channel `id` among the registered ones.
    fn find(&self, id: &String) -> (r: Option<usize>)
        ensures
            match r {
                Some(i) => i < self.streams@.len() && self.streams@[i as int].0.0@ == id@,
                None => forall|i: int|
                    0 <= i < self.streams@.len() ==> self.streams@[i].0.0@ != id@,
            },
    {
        let mut i: usize = 0;
        while i < self.streams.len()
            invariant
                i <= self.streams@.len(),
                forall|j: int| 0 <= j < i ==> self.streams@[j].0.0@ != id@,
            decreases self.streams@.len() - i,
        {
            if self.streams[i].0.0 == *id {
                return Some(i);
            }
            i += 1;
        }
        None
    }

    /// Registers `meta` under the channel `id`, replacing what was registered there.
    pub fn register(&mut self, id: StreamId, meta: StreamMeta)
        ensures
            final(self)@ == old(self)@.insert(id.0@, meta),
            old(self).wf() ==> final(self).wf(),
    {
        let ghost key = id.0@;
        let idx = match self.find(&id.0) {
            Some(i) => {
                self.streams.set(i, (id, meta));
                i
            },
            None => {
                self.streams.push((id, meta));
                self.streams.len() - 1
            },
        };
        self.registry = Ghost(self.registry@.insert(key, meta));
        proof {
            assert(self.streams@[idx as int].0.0@ == key);
            if old(self).wf() {
                assert forall|k: Seq<char>| #[trigger] self.registry@.contains_key(k) implies exists|
                    i: int,
                | 0 <= i < self.streams@.len() && self.streams@[i].0.0@ == k by {
                    if k != key {
                        let i = choose|i: int|
                            0 <= i < old(self).streams@.len() && old(self).streams@[i].0.0@ == k;
                        assert(self.streams@[i].0.0@ == k);
                    } else {
                        assert(self.streams@[idx as int].0.0@ == k);
                    }
                }
            }
        }
    }

    /// Registers each subscription, in order, under its channel with a fresh [`StreamMeta`]
    /// (sequence zero), and builds the request that subscribes to all of those channels:
    /// `{"method":"SUBSCRIBE","params":[channels...],"id":1}`. It always succeeds; the
    /// `Result` carries [`SocketError::Serialise`] should writing the channels as JSON fail.
    pub fn generate_subscriptions(&mut self, subscriptions: &[Subscription]) -> (r: Result<
        Vec<String>,
        SocketError,
    >)
        ensures
            final(self)@ == register_all(old(self)@, subscriptions@),
            old(self).wf() ==> final(self).wf(),
            r is Ok,
            r matches Ok(requests) ==> requests@.len() == 1 && requests@[0]@
                == subscribe_request_text(subscriptions@.map_values(|s: Subscription| channel_of(s))),
    {
        let mut channels: Vec<String> = Vec::new();
        let mut i: usize = 0;
        while i < subscriptions.len()
            invariant
                i <= subscriptions@.len(),
                self@ == register_all(old(self)@, subscriptions@.take(i as int)),
                old(self).wf() ==> self.wf(),
                channels@.len() == i,
                channels.deep_view() == subscriptions@.take(i as int).map_values(
                    |s: Subscription| channel_of(s),
                ),
            decreases subscriptions@.len() - i,
        {
            let subscription = &subscriptions[i];
            let channel = BinanceFutures::get_stream_id(subscription);
            let name = channel.0.clone();
            self.register(channel, StreamMeta::new(subscription.clone()));
            let ghost before = channels@;
            let ghost before_dv = channels.deep_view();
            assert(name@ == channel_of(subscriptions@[i as int]));
            channels.push(name);
            proof {
                let taken = subscriptions@.take(i + 1);
                assert(channels@ =~= before.push(name));
                assert forall|j: int| 0 <= j < taken.len() implies channels.deep_view()[j]
                    == taken.map_values(|s: Subscription| channel_of(s))[j] by {
                    if j < i {
                        assert(subscriptions@.take(i as int)[j] == taken[j]);
                        assert(channels@[j] == before[j]);
                        assert(before_dv[j] == before[j]@);
                    } else {
                        assert(channels@[j] == name);
                    }
                }
                assert(taken.drop_last() =~= subscriptions@.take(i as int));
                assert(channels.deep_view() =~= taken.map_values(|s: Subscription| channel_of(s)));
            }
            i += 1;
        }
        proof {
            assert(subscriptions@.take(subscriptions@.len() as int) =~= subscriptions@);
        }
        match to_json_string_array(&channels) {
            Ok(params) => {
                let mut requests = Vec::new();
                requests.push(subscribe_request(params.as_str()));
                Ok(requests)
            },
            Err(e) => Err(SocketError::Serialise(e)),
        }
    }

    /// The Binance Futures channel of a subscription.
    pub fn get_stream_id(subscription: &Subscription) -> (r: StreamId)
        ensures
            r.0@ == channel_of(*subscription),
    {
        match subscription {
            Subscription::Trades(instrument) => {
                let s = concat(instrument.base.as_str(), instrument.quote.as_str());
                StreamId(s.concat("@aggTrade"))
            },
        }
    }

    /// Reads the state registered under `stream_id`: the instrument of its subscription and
    /// the sequence of its next event, which it then advances by one. Fails with
    /// [`SocketError::Unidentifiable`] where nothing is registered under `stream_id`.
    pub fn get_stream_meta(&mut self, stream_id: &StreamId) -> (r: Result<
        (Instrument, Sequence),
        SocketError,
    >)
        ensures
            old(self).wf() ==> final(self).wf(),
            old(self).wf() && old(self)@.contains_key(stream_id.0@) ==> {
                let meta = old(self)@[stream_id.0@];
                &&& r == Ok::<(Instrument, Sequence), SocketError>(
                    (meta.subscription.spec_instrument(), meta.sequence),
                )
                &&& final(self)@ == old(self)@.insert(
                    stream_id.0@,
                    StreamMeta { sequence: Sequence(next_sequence(meta.sequence.0)), ..meta },
                )
            },
            old(self).wf() && !old(self)@.contains_key(stream_id.0@) ==> {
                &&& r matches Err(SocketError::Unidentifiable(id)) && id.0@ == stream_id.0@
                &&& final(self)@ == old(self)@
            },
    {
        match self.find(&stream_id.0) {
            Some(i) => {
                let sequence = self.streams[i].1.sequence;
                let subscription = self.streams[i].1.subscription.clone();
                let instrument = match &subscription {
                    Subscription::Trades(instrument) => instrument.clone(),
                };
                let id = self.streams[i].0.clone();
                let meta = StreamMeta { sequence: Sequence(sequence.0.wrapping_add(1)), subscription };
                proof {
                    if self.wf() {
                        assert(self.registry@.contains_key(self.streams@[i as int].0.0@));
                    }
                }
                self.register(id, meta);
                Ok((instrument, sequence))
            },
            None => {
                proof {
                    if self.wf() && self.registry@.contains_key(stream_id.0@) {
                        let j = choose|j: int|
                            0 <= j < self.streams@.len() && self.streams@[j].0.0@ == stream_id.0@;
                        assert(self.streams@[j].0.0@ != stream_id.0@);
                    }
                }
                Err(SocketError::Unidentifiable(SubscriptionId(stream_id.0.clone())))
            },
        }
    }
}

/// Whether transforming `input` at time `now` may take the Binance Futures transformer from
/// `prev` to `next` while producing `out`:
/// - a subscription response produces nothing when it reports success, and one
///   [`SocketError::Subscribe`] when it reports a failure;
/// - a trade on a registered channel produces one event stamped with the channel's sequence,
///   which then advances by one;
/// - a trade on a channel that was never registered produces one
///   [`SocketError::Unidentifiable`] naming the channel, and changes nothing.
pub open spec fn binance_transformed(
    prev: BinanceFutures,
    input: BinanceMessage,
    now: Timestamp,
    next: BinanceFutures,
    out: Seq<Result<MarketEvent, SocketError>>,
) -> bool {
    prev.wf() ==> {
        &&& next.wf()
        &&& match input {
            BinanceMessage::Subscribed(response) => {
                &&& next@ == prev@
                &&& if response.result is Some {
                    out.len() == 1 && out[0] matches Err(SocketError::Subscribe(_))
                } else {
                    out.len() == 0
                }
            },
            BinanceMessage::Trade(trade) => {
                let id = trade.spec_stream_id();
                if prev@.contains_key(id) {
                    let meta = prev@[id];
                    &&& next@ == prev@.insert(
                        id,
                        StreamMeta { sequence: Sequence(next_sequence(meta.sequence.0)), ..meta },
                    )
                    &&& out.len() == 1
                    &&& out[0] matches Ok(e) && is_trade_event(
                        e,
                        meta.sequence.0,
                        meta.subscription.spec_instrument(),
                        trade,
                        now,
                    )
                } else {
                    &&& next@ == prev@
                    &&& out.len() == 1
                    &&& out[0] matches Err(SocketError::Unidentifiable(sid)) && sid.0@ == id
                }
            },
        }
    }
}

impl Transformer for BinanceFutures {
    type Input = BinanceMessage;

    type Output = MarketEvent;

    open spec fn transformed(
        prev: BinanceFutures,
        input: BinanceMessage,
        now: Timestamp,
        next: BinanceFutures,
        out: Seq<Result<MarketEvent, SocketError>>,
    ) -> bool {
        binance_transformed(prev, input, now, next, out)
    }

    fn transform(&mut self, input: BinanceMessage, now: Timestamp) -> (out: Vec<
        Result<MarketEvent, SocketError>,
    >) {
        match input {
            BinanceMessage::Subscribed(response) => {
                let mut out = Vec::new();
                if response.result.is_some() {
                    out.push(
                        Err(
                            SocketError::Subscribe(
                                String::from_str("subscription rejected by the exchange"),
                            ),
                        ),
                    );
                }
                out
            },
            BinanceMessage::Trade(trade) => {
                let id = trade.to_stream_id();
                let mut out = Vec::new();
                match self.get_stream_meta(&id) {
                    Ok((instrument, sequence)) => {
                        let data = trade_market_data(
                            BinanceFutures::EXCHANGE,
                            instrument,
                            trade,
                            now,
                        );
                        out.push(Ok(MarketEvent::new_at(sequence, data, now)));
                    },
                    Err(e) => {
                        out.push(Err(e));
                    },
                }
                out
            },
        }
    }
}

} // verus!
