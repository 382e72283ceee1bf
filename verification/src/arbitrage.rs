//! Cross-outcome arbitrage on binary prediction markets.
//!
//! Sell arb: the outcome bids sum to more than 1.0 — sell both outcomes.
//! Buy arb: the outcome asks sum to less than 1.0 — buy both outcomes.
//! Sell arb takes precedence where both would fire.

use vstd::prelude::*;
use crate::types::{Venue, Side, MarketKey, PRICE_SCALE, venue_id};
use crate::strategy::{
    Strategy, EvalContext, EvalContextModel, TradeSignal, TradeSignalModel, SignalLeg,
    SignalLegModel, signal_opt_model,
};

verus! {

/// The venue with the given identifier.
pub open spec fn venue_of_id(id: int) -> Venue {
    if id == venue_id(Venue::Polymarket) {
        Venue::Polymarket
    } else {
        Venue::Kalshi
    }
}

/// Clamp into `u64`: an edge wider than the type saturates at its maximum.
pub open spec fn sat_u64(v: int) -> u64 {
    if v >= u64::MAX {
        u64::MAX
    } else if v <= 0 {
        0
    } else {
        v as u64
    }
}

/// What the arbitrage strategy emits on a context: resolve the updated
/// token's market, read both outcome states from the cache, and bail —
/// `None` — if the market is unknown, either state is missing, or any of
/// the four prices is absent. A sell signal (both legs at the bids) fires
/// when the bids sum to at least 1.0 plus the configured edge; otherwise a
/// buy signal (both legs at the asks) fires when the asks sum to at most
/// 1.0 minus it.
pub open spec fn arb_evaluate(
    min_edge: u64,
    default_size: u64,
    ctx: EvalContextModel,
) -> Option<TradeSignalModel> {
    let token = ctx.updated_key.1;
    if !ctx.token_to_market.contains_key(token) {
        None::<TradeSignalModel>
    } else {
        let mid = ctx.token_to_market[token]@;
        if !ctx.market_map.contains_key(mid) {
            None::<TradeSignalModel>
        } else {
            let info = ctx.market_map[mid]@;
            let yes_key = (ctx.updated_key.0, info.yes_token_id);
            let no_key = (ctx.updated_key.0, info.no_token_id);
            if !ctx.cache.contains_key(yes_key) || !ctx.cache.contains_key(no_key) {
                None::<TradeSignalModel>
            } else {
                let yes_state = ctx.cache[yes_key];
                let no_state = ctx.cache[no_key];
                match (yes_state.0, no_state.0, yes_state.1, no_state.1) {
                    (Some(yes_bid), Some(no_bid), Some(yes_ask), Some(no_ask)) => {
                        if yes_bid + no_bid >= PRICE_SCALE + min_edge {
                            Some(arb_signal(
                                ctx,
                                mid,
                                info.yes_token_id,
                                info.no_token_id,
                                Side::Sell,
                                yes_bid,
                                no_bid,
                                sat_u64(yes_bid + no_bid - PRICE_SCALE),
                                default_size,
                            ))
                        } else if PRICE_SCALE >= yes_ask + no_ask + min_edge {
                            Some(arb_signal(
                                ctx,
                                mid,
                                info.yes_token_id,
                                info.no_token_id,
                                Side::Buy,
                                yes_ask,
                                no_ask,
                                sat_u64(PRICE_SCALE - (yes_ask + no_ask)),
                                default_size,
                            ))
                        } else {
                            None::<TradeSignalModel>
                        }
                    },
                    _ => None::<TradeSignalModel>,
                }
            }
        }
    }
}

/// A two-leg arbitrage signal: the YES leg then the NO leg, both on the
/// same side, at the given prices, each at the configured size.
pub open spec fn arb_signal(
    ctx: EvalContextModel,
    market_id: Seq<char>,
    yes_token_id: Seq<char>,
    no_token_id: Seq<char>,
    side: Side,
    yes_price: u64,
    no_price: u64,
    edge: u64,
    size: u64,
) -> TradeSignalModel {
    TradeSignalModel {
        strategy_name: "arbitrage"@,
        venue: venue_of_id(ctx.updated_key.0),
        market_id,
        legs: seq![
            SignalLegModel { token_id: yes_token_id, side, price: yes_price, size },
            SignalLegModel { token_id: no_token_id, side, price: no_price, size },
        ],
        edge,
        generated_at: ctx.now,
        ws_received_at: ctx.ws_received_at,
    }
}

/// Detects cross-outcome arbitrage on binary prediction markets,
/// configured with a minimum edge and a per-leg size, both fixed-point.
pub struct ArbitrageStrategy {
    min_edge: u64,
    default_size: u64,
}

impl ArbitrageStrategy {
    /// The configured minimum edge.
    pub closed spec fn spec_min_edge(&self) -> u64 {
        self.min_edge
    }

    /// The configured per-leg size.
    pub closed spec fn spec_default_size(&self) -> u64 {
        self.default_size
    }

    /// A strategy that fires on an edge of at least `min_edge`, sizing
    /// each leg at `default_size`.
    pub fn new(min_edge: u64, default_size: u64) -> (s: Self)
        ensures
            s.spec_min_edge() == min_edge,
            s.spec_default_size() == default_size,
    {
        ArbitrageStrategy { min_edge, default_size }
    }
}

impl Strategy for ArbitrageStrategy {
    open spec fn spec_evaluate(&self, ctx: EvalContextModel) -> Option<TradeSignalModel> {
        arb_evaluate(self.spec_min_edge(), self.spec_default_size(), ctx)
    }

    open spec fn spec_name(&self) -> Seq<char> {
        "arbitrage"@
    }

    fn name(&self) -> (r: &'static str) {
        "arbitrage"
    }

    fn evaluate(&self, ctx: &EvalContext) -> (r: Option<TradeSignal>) {
        let token = &ctx.updated_key.1;
        let market_id = match ctx.token_to_market.get(token) {
            Some(mid) => mid,
            None => {
                return None;
            },
        };
        let info = match ctx.market_map.get(market_id) {
            Some(info) => info,
            None => {
                return None;
            },
        };
        let venue = ctx.updated_key.0;
        let yes_key = MarketKey(venue, info.yes_token_id.clone());
        let no_key = MarketKey(venue, info.no_token_id.clone());
        let yes_state = match ctx.cache.get_market_state(&yes_key) {
            Some(s) => s,
            None => {
                return None;
            },
        };
        let no_state = match ctx.cache.get_market_state(&no_key) {
            Some(s) => s,
            None => {
                return None;
            },
        };
        let (yes_bid, no_bid, yes_ask, no_ask) = match (
            yes_state.best_bid,
            no_state.best_bid,
            yes_state.best_ask,
            no_state.best_ask,
        ) {
            (Some(yb), Some(nb), Some(ya), Some(na)) => (yb, nb, ya, na),
            _ => {
                return None;
            },
        };
        let bid_sum: u128 = yes_bid as u128 + no_bid as u128;
        if bid_sum >= PRICE_SCALE as u128 + self.min_edge as u128 {
            let edge_wide: u128 = bid_sum - PRICE_SCALE as u128;
            let edge: u64 = if edge_wide > u64::MAX as u128 {
                u64::MAX
            } else {
                edge_wide as u64
            };
            let legs = vec![
                SignalLeg {
                    token_id: info.yes_token_id.clone(),
                    side: Side::Sell,
                    price: yes_bid,
                    size: self.default_size,
                },
                SignalLeg {
                    token_id: info.no_token_id.clone(),
                    side: Side::Sell,
                    price: no_bid,
                    size: self.default_size,
                },
            ];
            proof {
                assert(legs.deep_view() =~= seq![
                    SignalLegModel {
                        token_id: info.yes_token_id@,
                        side: Side::Sell,
                        price: yes_bid,
                        size: self.default_size,
                    },
                    SignalLegModel {
                        token_id: info.no_token_id@,
                        side: Side::Sell,
                        price: no_bid,
                        size: self.default_size,
                    },
                ]);
                assert(venue_of_id(venue_id(venue)) == venue);
            }
            return Some(TradeSignal {
                strategy_name: "arbitrage",
                venue,
                market_id: market_id.clone(),
                legs,
                edge,
                generated_at: ctx.now,
                ws_received_at: ctx.ws_received_at,
            });
        }
        let ask_sum: u128 = yes_ask as u128 + no_ask as u128;
        if PRICE_SCALE as u128 >= ask_sum + self.min_edge as u128 {
            let edge: u64 = (PRICE_SCALE as u128 - ask_sum) as u64;
            let legs = vec![
                SignalLeg {
                    token_id: info.yes_token_id.clone(),
                    side: Side::Buy,
                    price: yes_ask,
                    size: self.default_size,
                },
                SignalLeg {
                    token_id: info.no_token_id.clone(),
                    side: Side::Buy,
                    price: no_ask,
                    size: self.default_size,
                },
            ];
            proof {
                assert(legs.deep_view() =~= seq![
                    SignalLegModel {
                        token_id: info.yes_token_id@,
                        side: Side::Buy,
                        price: yes_ask,
                        size: self.default_size,
                    },
                    SignalLegModel {
                        token_id: info.no_token_id@,
                        side: Side::Buy,
                        price: no_ask,
                        size: self.default_size,
                    },
                ]);
                assert(venue_of_id(venue_id(venue)) == venue);
            }
            return Some(TradeSignal {
                strategy_name: "arbitrage",
                venue,
                market_id: market_id.clone(),
                legs,
                edge,
                generated_at: ctx.now,
                ws_received_at: ctx.ws_received_at,
            });
        }
        None
    }
}

/// Purity of the arbitrage strategy: on identical configuration and
/// identical inputs — updated key, cache contents, market map and token
/// table, timestamps — two evaluations denote the identical output; with
/// [`Strategy::evaluate`]'s contract, two invocations return it.
pub proof fn lemma_arbitrage_pure(
    s1: ArbitrageStrategy,
    s2: ArbitrageStrategy,
    ctx1: EvalContextModel,
    ctx2: EvalContextModel,
)
    requires
        s1.spec_min_edge() == s2.spec_min_edge(),
        s1.spec_default_size() == s2.spec_default_size(),
        ctx1 == ctx2,
    ensures
        s1.spec_evaluate(ctx1) == s2.spec_evaluate(ctx2),
{
}

} // verus!
