//! Consumer-facing configuration: which streams to open on which exchange, and the
//! subscriptions they amount to.
use vstd::prelude::*;
use vstd::string::*;
use crate::error::SocketError;
use crate::market::Subscription;
use crate::model::{Instrument, InstrumentKind};
use crate::text::lower_of;

verus! {

/// Exchanges that streams can be opened on.
#[derive(Clone, Copy, Debug, PartialEq, Eq, PartialOrd, Ord, Hash)]
pub enum Exchange {
    BinanceFutures,
}

/// Kind of stream to open.
#[derive(Clone, Copy, Debug, PartialEq, Eq, PartialOrd, Ord, Hash)]
pub enum StreamKind {
    Trade,
}

/// One stream to open: a kind of data on an instrument.
#[derive(Debug, PartialEq, Eq, PartialOrd, Ord, Hash)]
pub struct StreamConfig {
    pub instrument: Instrument,
    pub kind: StreamKind,
}

impl Clone for StreamConfig {
    fn clone(&self) -> (r: StreamConfig)
        ensures
            r == *self,
    {
        StreamConfig { instrument: self.instrument.clone(), kind: self.kind }
    }
}

impl StreamConfig {
    /// The stream of `kind` on the instrument `base_quote` of `instrument_kind`, with its
    /// symbols in lowercase.
    pub fn new(base: &str, quote: &str, instrument_kind: InstrumentKind, kind: StreamKind) -> (r:
        StreamConfig)
        ensures
            r.instrument.base@ == lower_of(base@),
            r.instrument.quote@ == lower_of(quote@),
            r.instrument.kind == instrument_kind,
            r.kind == kind,
    {
        StreamConfig { instrument: Instrument::new(base, quote, instrument_kind), kind }
    }
}

/// The subscription that opens the stream `config`.
pub open spec fn subscription_of(config: StreamConfig) -> Subscription {
    match config.kind {
        StreamKind::Trade => Subscription::Trades(config.instrument),
    }
}

impl From<StreamConfig> for Subscription {
    fn from(config: StreamConfig) -> (r: Subscription) {
        match config.kind {
            StreamKind::Trade => Subscription::Trades(config.instrument),
        }
    }
}

impl vstd::std_specs::convert::FromSpecImpl<StreamConfig> for Subscription {
    open spec fn obeys_from_spec() -> bool {
        true
    }

    open spec fn from_spec(config: StreamConfig) -> Subscription {
        subscription_of(config)
    }
}

/// Collects the streams to open on each exchange.
#[derive(Debug)]
pub struct StreamBuilder {
    binance_futures: Option<Vec<StreamConfig>>,
}

impl View for StreamBuilder {
    type V = Map<Exchange, Seq<StreamConfig>>;

    /// Each exchange that streams were added for, to those streams.
    closed spec fn view(&self) -> Map<Exchange, Seq<StreamConfig>> {
        match self.binance_futures {
            Some(configs) => map![Exchange::BinanceFutures => configs@],
            None => Map::empty(),
        }
    }
}

impl StreamBuilder {
    pub fn new() -> (r: StreamBuilder)
        ensures
            r@ == Map::<Exchange, Seq<StreamConfig>>::empty(),
    {
        StreamBuilder { binance_futures: None }
    }

    /// Sets the streams to open on `exchange`, replacing any set before.
    pub fn add(self, exchange: Exchange, config: Vec<StreamConfig>) -> (r: StreamBuilder)
        ensures
            r@ == self@.insert(exchange, config@),
    {
        let mut builder = self;
        match exchange {
            Exchange::BinanceFutures => {
                builder.binance_futures = Some(config);
            },
        }
        proof {
            assert(builder@ =~= self@.insert(exchange, config@));
        }
        builder
    }

    /// The subscriptions to action on each exchange that streams were added for. Fails with
    /// [`SocketError::Subscribe`] when no streams were added at all.
    pub fn subscriptions(&self) -> (r: Result<Vec<(Exchange, Vec<Subscription>)>, SocketError>)
        ensures
            r is Err <==> self@.dom() == Set::<Exchange>::empty(),
            r matches Err(e) ==> e matches SocketError::Subscribe(m) && m@
                == "no provided streams to subscribe to"@,
            r matches Ok(per_exchange) ==> {
                &&& per_exchange@.len() == self@.dom().len()
                &&& forall|i: int|
                    #![trigger per_exchange@[i]]
                    0 <= i < per_exchange@.len() ==> {
                        &&& self@.contains_key(per_exchange@[i].0)
                        &&& per_exchange@[i].1@ == self@[per_exchange@[i].0].map_values(
                            |c: StreamConfig| subscription_of(c),
                        )
                    }
                &&& forall|i: int, j: int|
                    #![trigger per_exchange@[i], per_exchange@[j]]
                    0 <= i < j < per_exchange@.len() ==> per_exchange@[i].0 != per_exchange@[j].0
            },
    {
        match &self.binance_futures {
            None => {
                proof {
                    assert(self@.dom() =~= Set::<Exchange>::empty());
                }
                Err(SocketError::Subscribe(String::from_str("no provided streams to subscribe to")))
            },
            Some(configs) => {
                let mut subscriptions: Vec<Subscription> = Vec::new();
                let mut i: usize = 0;
                while i < configs.len()
                    invariant
                        i <= configs@.len(),
                        subscriptions@ == configs@.take(i as int).map_values(
                            |c: StreamConfig| subscription_of(c),
                        ),
                    decreases configs@.len() - i,
                {
                    let subscription = Subscription::from(configs[i].clone());
                    subscriptions.push(subscription);
                    proof {
                        assert(configs@.take(i + 1) =~= configs@.take(i as int).push(configs@[i as int]));
                        assert(subscriptions@ =~= configs@.take(i + 1).map_values(
                            |c: StreamConfig| subscription_of(c),
                        ));
                    }
                    i += 1;
                }
                proof {
                    assert(configs@.take(configs@.len() as int) =~= configs@);
                    assert(self@.dom() =~= set![Exchange::BinanceFutures]);
                    assert(self@.dom().len() == 1);
                }
                let mut per_exchange = Vec::new();
                per_exchange.push((Exchange::BinanceFutures, subscriptions));
                Ok(per_exchange)
            },
        }
    }
}

} // verus!
