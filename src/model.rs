//! Building blocks shared by the rest of the library: exchanges, instruments, symbols and
//! the identifiers derived from them.
use vstd::prelude::*;
use vstd::string::*;
use crate::text::{concat, lower_of, lowercase};

verus! {

/// Name of an exchange, eg/ "binance", "ftx".
#[derive(Debug, PartialEq, Eq, PartialOrd, Ord, Hash)]
pub struct Exchange(String);

impl View for Exchange {
    type V = Seq<char>;

    closed spec fn view(&self) -> Seq<char> {
        self.0@
    }
}

impl Exchange {
    /// Constructs an [`Exchange`] holding the provided name as it is.
    pub fn new(name: &str) -> (r: Exchange)
        ensures
            r@ == name@,
    {
        Exchange(String::from_str(name))
    }

    pub fn as_str(&self) -> (r: &str)
        ensures
            r@ == self@,
    {
        self.0.as_str()
    }
}

/// Kind of [`Instrument`] traded on a given `base_quote` market.
#[derive(Clone, Copy, Debug, PartialEq, Eq, PartialOrd, Ord, Hash)]
pub enum InstrumentKind {
    Spot,
    FuturePerpetual,
}

pub open spec fn instrument_kind_text(kind: InstrumentKind) -> Seq<char> {
    match kind {
        InstrumentKind::Spot => "spot"@,
        InstrumentKind::FuturePerpetual => "future_perpetual"@,
    }
}

impl InstrumentKind {
    /// The snake_case name of the kind: "spot" or "future_perpetual".
    pub fn as_str(&self) -> (r: &'static str)
        ensures
            r@ == instrument_kind_text(*self),
    {
        match self {
            InstrumentKind::Spot => "spot",
            InstrumentKind::FuturePerpetual => "future_perpetual",
        }
    }
}

impl Default for InstrumentKind {
    fn default() -> (r: InstrumentKind)
        ensures
            r == InstrumentKind::Spot,
    {
        InstrumentKind::Spot
    }
}

/// Currency symbol, always held in lowercase, eg/ "btc", "usdt".
#[derive(Debug, PartialEq, Eq, PartialOrd, Ord, Hash)]
pub struct Symbol(String);

impl View for Symbol {
    type V = Seq<char>;

    closed spec fn view(&self) -> Seq<char> {
        self.0@
    }
}

impl Symbol {
    /// Constructs a [`Symbol`] holding the lowercase form of `input`.
    pub fn new(input: &str) -> (r: Symbol)
        ensures
            r@ == lower_of(input@),
    {
        Symbol(lowercase(input))
    }

    pub fn as_str(&self) -> (r: &str)
        ensures
            r@ == self@,
    {
        self.0.as_str()
    }
}

/// A `base_quote` pair together with the kind of instrument traded on it.
#[derive(Debug, PartialEq, Eq, PartialOrd, Ord, Hash)]
pub struct Instrument {
    pub base: Symbol,
    pub quote: Symbol,
    pub kind: InstrumentKind,
}

impl Instrument {
    /// Constructs an [`Instrument`] whose symbols are the lowercase forms of `base` and `quote`.
    pub fn new(base: &str, quote: &str, kind: InstrumentKind) -> (r: Instrument)
        ensures
            r.base@ == lower_of(base@),
            r.quote@ == lower_of(quote@),
            r.kind == kind,
    {
        Instrument { base: Symbol::new(base), quote: Symbol::new(quote), kind }
    }

    /// Human-readable form: `({base}_{quote}, {kind})`, eg/ "(btc_usdt, spot)".
    pub fn to_string(&self) -> (r: String)
        ensures
            r@ == "("@ + self.base@ + "_"@ + self.quote@ + ", "@ + instrument_kind_text(self.kind)
                + ")"@,
    {
        let s = concat("(", self.base.as_str());
        let s = s.concat("_");
        let s = s.concat(self.quote.as_str());
        let s = s.concat(", ");
        let s = s.concat(self.kind.as_str());
        s.concat(")")
    }
}

/// An [`Instrument`] traded on an [`Exchange`].
#[derive(Debug, PartialEq, Eq, PartialOrd, Ord, Hash)]
pub struct Market {
    pub exchange: Exchange,
    pub instrument: Instrument,
}

impl Market {
    pub fn new(exchange: Exchange, instrument: Instrument) -> (r: Market)
        ensures
            r.exchange == exchange,
            r.instrument == instrument,
    {
        Market { exchange, instrument }
    }
}

/// The text of a [`MarketId`] before it is put in lowercase:
/// `{exchange}_{base}_{quote}_{kind}`.
pub open spec fn market_id_text(exchange: Seq<char>, instrument: Instrument) -> Seq<char> {
    exchange + "_"@ + instrument.base@ + "_"@ + instrument.quote@ + "_"@
        + instrument_kind_text(instrument.kind)
}

/// Unique identifier of a [`Market`], eg/ "binance_btc_usdt_spot".
#[derive(Debug, PartialEq, Eq, PartialOrd, Ord, Hash)]
pub struct MarketId(pub String);

impl MarketId {
    /// Constructs the identifier `{exchange}_{base}_{quote}_{kind}` in lowercase.
    pub fn new(exchange: &Exchange, instrument: &Instrument) -> (r: MarketId)
        ensures
            r.0@ == lower_of(market_id_text(exchange@, *instrument)),
    {
        let s = concat(exchange.as_str(), "_");
        let s = s.concat(instrument.base.as_str());
        let s = s.concat("_");
        let s = s.concat(instrument.quote.as_str());
        let s = s.concat("_");
        let s = s.concat(instrument.kind.as_str());
        MarketId(lowercase(s.as_str()))
    }
}

/// Identifier of a stream that has been subscribed to, used to associate received data
/// with the subscription that asked for it, eg/ "btcusdt@aggTrade".
#[derive(Debug, PartialEq, Eq, PartialOrd, Ord, Hash)]
pub struct SubscriptionId(pub String);

/// Side of a trade.
#[derive(Clone, Copy, Debug, PartialEq, Eq, PartialOrd, Ord, Hash)]
pub enum Side {
    Buy,
    Sell,
}

impl Clone for Exchange {
    fn clone(&self) -> (r: Exchange)
        ensures
            r == *self,
    {
        Exchange(self.0.clone())
    }
}

impl Clone for Symbol {
    fn clone(&self) -> (r: Symbol)
        ensures
            r == *self,
    {
        Symbol(self.0.clone())
    }
}

impl Clone for Instrument {
    fn clone(&self) -> (r: Instrument)
        ensures
            r == *self,
    {
        Instrument { base: self.base.clone(), quote: self.quote.clone(), kind: self.kind }
    }
}

impl Clone for Market {
    fn clone(&self) -> (r: Market)
        ensures
            r == *self,
    {
        Market { exchange: self.exchange.clone(), instrument: self.instrument.clone() }
    }
}

impl Clone for MarketId {
    fn clone(&self) -> (r: MarketId)
        ensures
            r == *self,
    {
        MarketId(self.0.clone())
    }
}

impl Clone for SubscriptionId {
    fn clone(&self) -> (r: SubscriptionId)
        ensures
            r == *self,
    {
        SubscriptionId(self.0.clone())
    }
}

} // verus!
