//! Core data model: venues, sides, market events, keys and market metadata.

use vstd::prelude::*;

verus! {

/// Fixed-point scale for prices, sizes and edges: 1.0 == `PRICE_SCALE` units.
pub const PRICE_SCALE: u64 = 1_000_000;

/// A trading venue. The set is enumerated; initially one venue is live.
#[derive(Clone, Copy, Debug, PartialEq, Eq, Hash, Structural)]
pub enum Venue {
    Polymarket,
    Kalshi,
}

/// Order side.
#[derive(Clone, Copy, Debug, PartialEq, Eq, Hash, Structural)]
pub enum Side {
    Buy,
    Sell,
}

/// The kind of a market event.
///
/// `Heartbeat` carries a warm-up snapshot seeded over REST; the other kinds
/// are live stream diffs.
#[derive(Clone, Copy, Debug, PartialEq, Eq, Structural)]
pub enum MarketEventKind {
    Heartbeat,
    PriceChange,
    Trade,
    TopOfBook,
}

/// Numeric identifier of a venue, used where a cache key must be a tuple of
/// plain values.
pub open spec fn venue_id(v: Venue) -> int {
    match v {
        Venue::Polymarket => 0,
        Venue::Kalshi => 1,
    }
}

/// Cache keys at the model level: a venue identifier and a token id.
pub type MarketKeyModel = (int, Seq<char>);

/// Key of a cache entry: a venue and a token id.
#[derive(Clone, Debug, PartialEq, Eq, Hash)]
pub struct MarketKey(pub Venue, pub String);

impl View for MarketKey {
    type V = MarketKeyModel;

    open spec fn view(&self) -> MarketKeyModel {
        (venue_id(self.0), self.1@)
    }
}

/// Model of a market event.
pub ghost struct MarketEventModel {
    pub venue: Venue,
    pub token_id: Seq<char>,
    pub kind: MarketEventKind,
    pub best_bid: Option<u64>,
    pub best_ask: Option<u64>,
    pub volume24h: Option<u64>,
    pub last_trade_price: Option<u64>,
    pub liquidity: Option<u64>,
    pub ts_exchange_ms: Option<u64>,
    pub ts_receive_ms: Option<u64>,
    pub received_at: u64,
}

/// A market event, as emitted by a venue adapter: the identity of the
/// updated token, whichever top-of-book fields the update carried, and
/// timestamps. Immutable once created; destroyed after a worker applies it.
#[derive(Clone, Debug)]
pub struct MarketEvent {
    pub venue: Venue,
    pub token_id: String,
    pub kind: MarketEventKind,
    /// Best bid, fixed-point, if the update carried one.
    pub best_bid: Option<u64>,
    /// Best ask, fixed-point, if the update carried one.
    pub best_ask: Option<u64>,
    /// 24-hour volume, if the update carried one.
    pub volume24h: Option<u64>,
    pub last_trade_price: Option<u64>,
    pub liquidity: Option<u64>,
    /// Exchange wall-clock timestamp, milliseconds, if known.
    pub ts_exchange_ms: Option<u64>,
    /// Receive wall-clock timestamp, milliseconds, if known.
    pub ts_receive_ms: Option<u64>,
    /// Monotonic receive instant, in embedder-defined ticks.
    pub received_at: u64,
}

impl View for MarketEvent {
    type V = MarketEventModel;

    open spec fn view(&self) -> MarketEventModel {
        MarketEventModel {
            venue: self.venue,
            token_id: self.token_id@,
            kind: self.kind,
            best_bid: self.best_bid,
            best_ask: self.best_ask,
            volume24h: self.volume24h,
            last_trade_price: self.last_trade_price,
            liquidity: self.liquidity,
            ts_exchange_ms: self.ts_exchange_ms,
            ts_receive_ms: self.ts_receive_ms,
            received_at: self.received_at,
        }
    }
}

/// The cache key that an event updates.
pub open spec fn event_key(e: MarketEventModel) -> MarketKeyModel {
    (venue_id(e.venue), e.token_id)
}

impl MarketKey {
    /// A copy of this key with an equal view.
    pub fn duplicate(&self) -> (k: MarketKey)
        ensures
            k@ == self@,
            k.0 == self.0,
    {
        MarketKey(self.0, self.1.clone())
    }
}

impl MarketEvent {
    /// Builds the cache key `(venue, token_id)` that this event updates.
    pub fn key(&self) -> (k: MarketKey)
        ensures
            k@ == event_key(self@),
    {
        MarketKey(self.venue, self.token_id.clone())
    }
}

/// Model of per-market metadata.
pub ghost struct MarketInfoModel {
    pub question: Seq<char>,
    pub yes_token_id: Seq<char>,
    pub no_token_id: Seq<char>,
    pub neg_risk: bool,
}

/// Immutable metadata of one market, built by the adapter at startup.
#[derive(Clone, Debug)]
pub struct MarketInfo {
    /// The market's question text.
    pub question: String,
    /// Token id of the YES outcome.
    pub yes_token_id: String,
    /// Token id of the NO outcome.
    pub no_token_id: String,
    /// Whether the venue matches this market under negative-risk rules.
    pub neg_risk: bool,
}

impl View for MarketInfo {
    type V = MarketInfoModel;

    open spec fn view(&self) -> MarketInfoModel {
        MarketInfoModel {
            question: self.question@,
            yes_token_id: self.yes_token_id@,
            no_token_id: self.no_token_id@,
            neg_risk: self.neg_risk,
        }
    }
}

} // verus!
