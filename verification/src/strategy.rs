//! Trade signals, the strategy interface, and the strategy engine's
//! per-notification step.
//!
//! Strategies are synchronous, side-effect-free and infallible: each one is
//! a function of the evaluation context alone, and its contract says so —
//! `evaluate` returns exactly what its specification-level evaluation
//! denotes on the context's view.

use vstd::prelude::*;
use crate::types::{Venue, Side, MarketKey, MarketKeyModel};
use crate::market::{MarketState, MarketStateModel};
use crate::cache::MarketCache;
use crate::adapter::{MarketMap, TokenToMarket};
use crate::worker::Notification;

verus! {

/// Model of a signal leg.
pub ghost struct SignalLegModel {
    pub token_id: Seq<char>,
    pub side: Side,
    pub price: u64,
    pub size: u64,
}

/// A single leg of a multi-leg trade signal.
#[derive(Clone, Debug)]
pub struct SignalLeg {
    /// The outcome token to trade.
    pub token_id: String,
    /// Which side to take.
    pub side: Side,
    /// Limit price, fixed-point.
    pub price: u64,
    /// Size, fixed-point.
    pub size: u64,
}

impl View for SignalLeg {
    type V = SignalLegModel;

    open spec fn view(&self) -> SignalLegModel {
        SignalLegModel {
            token_id: self.token_id@,
            side: self.side,
            price: self.price,
            size: self.size,
        }
    }
}

impl DeepView for SignalLeg {
    type V = SignalLegModel;

    open spec fn deep_view(&self) -> SignalLegModel {
        self@
    }
}

/// Model of a trade signal.
pub ghost struct TradeSignalModel {
    pub strategy_name: Seq<char>,
    pub venue: Venue,
    pub market_id: Seq<char>,
    pub legs: Seq<SignalLegModel>,
    pub edge: u64,
    pub generated_at: u64,
    pub ws_received_at: Option<u64>,
}

/// Output of a strategy evaluation — a signal, not an order. Supports
/// multi-leg signals for cross-outcome arbitrage.
#[derive(Clone, Debug)]
pub struct TradeSignal {
    /// The emitting strategy's name.
    pub strategy_name: &'static str,
    /// The venue the opportunity is on.
    pub venue: Venue,
    /// The market the opportunity is in.
    pub market_id: String,
    /// The legs to execute, in order.
    pub legs: Vec<SignalLeg>,
    /// The detected edge, fixed-point.
    pub edge: u64,
    /// Monotonic instant at which the signal was generated.
    pub generated_at: u64,
    /// Monotonic instant at which the triggering stream event was
    /// received, for end-to-end latency measurement.
    pub ws_received_at: Option<u64>,
}

impl View for TradeSignal {
    type V = TradeSignalModel;

    open spec fn view(&self) -> TradeSignalModel {
        TradeSignalModel {
            strategy_name: self.strategy_name@,
            venue: self.venue,
            market_id: self.market_id@,
            legs: self.legs.deep_view(),
            edge: self.edge,
            generated_at: self.generated_at,
            ws_received_at: self.ws_received_at,
        }
    }
}

/// Model of an evaluation context.
pub ghost struct EvalContextModel {
    pub updated_key: MarketKeyModel,
    pub updated_state: MarketStateModel,
    pub cache: Map<MarketKeyModel, MarketStateModel>,
    pub market_map: Map<Seq<char>, crate::types::MarketInfo>,
    pub token_to_market: Map<Seq<char>, String>,
    pub ws_received_at: Option<u64>,
    pub now: u64,
}

/// Context provided to strategies on each cache update: the updated key
/// and its state, a read handle on the full cache, the immutable market
/// metadata, the propagated receive instant, and the current monotonic
/// instant. Strategies read only from this snapshot.
pub struct EvalContext<'a> {
    /// The key whose cache entry changed.
    pub updated_key: &'a MarketKey,
    /// The changed entry's state.
    pub updated_state: &'a MarketState,
    /// Read handle on the full cache, for cross-outcome lookups.
    pub cache: &'a MarketCache,
    /// Immutable market metadata.
    pub market_map: &'a MarketMap,
    /// Immutable token-to-market table.
    pub token_to_market: &'a TokenToMarket,
    /// When the triggering stream event was received (monotonic).
    pub ws_received_at: Option<u64>,
    /// The current monotonic instant, stamped on emitted signals.
    pub now: u64,
}

impl<'a> View for EvalContext<'a> {
    type V = EvalContextModel;

    open spec fn view(&self) -> EvalContextModel {
        EvalContextModel {
            updated_key: self.updated_key@,
            updated_state: self.updated_state@,
            cache: self.cache@,
            market_map: self.market_map@,
            token_to_market: self.token_to_market@,
            ws_received_at: self.ws_received_at,
            now: self.now,
        }
    }
}

/// The view of an optional signal.
pub open spec fn signal_opt_model(r: Option<TradeSignal>) -> Option<TradeSignalModel> {
    match r {
        Some(s) => Some(s@),
        None => None,
    }
}

/// Trait that all strategies implement.
///
/// Kept synchronous and infallible by design: a strategy reads from an
/// immutable snapshot, performs no I/O, and is pure — `evaluate` must
/// return exactly `spec_evaluate` of the context's view, so two
/// invocations on identical inputs produce identical output.
pub trait Strategy: Sized {
    /// What the strategy returns, as a function of the context alone.
    spec fn spec_evaluate(&self, ctx: EvalContextModel) -> Option<TradeSignalModel>;

    /// The strategy's name, at the view level.
    spec fn spec_name(&self) -> Seq<char>;

    /// The strategy's name.
    fn name(&self) -> (r: &'static str)
        ensures
            r@ == self.spec_name(),
    ;

    /// Evaluate against the latest market state for the given key.
    /// Returns a signal if an opportunity is detected.
    fn evaluate(&self, ctx: &EvalContext) -> (r: Option<TradeSignal>)
        ensures
            signal_opt_model(r) == self.spec_evaluate(ctx@),
    ;
}

/// The signals that a strategy list emits on one context, in registration
/// order.
pub open spec fn eval_all<S: Strategy>(
    strategies: Seq<S>,
    ctx: EvalContextModel,
) -> Seq<TradeSignalModel>
    decreases strategies.len(),
{
    if strategies.len() == 0 {
        Seq::empty()
    } else {
        eval_all(strategies.drop_last(), ctx) + (match strategies.last().spec_evaluate(ctx) {
            Some(s) => seq![s],
            None => Seq::empty(),
        })
    }
}

/// The views of emitted signals.
pub open spec fn signals_model(signals: Seq<TradeSignal>) -> Seq<TradeSignalModel> {
    signals.map_values(|s: TradeSignal| s@)
}

/// The context that a notification denotes, given the cache holds its key.
pub open spec fn notified_context(
    key: MarketKeyModel,
    cache: Map<MarketKeyModel, MarketStateModel>,
    market_map: Map<Seq<char>, crate::types::MarketInfo>,
    token_to_market: Map<Seq<char>, String>,
    ws_received_at: u64,
    now: u64,
) -> EvalContextModel {
    EvalContextModel {
        updated_key: key,
        updated_state: cache[key],
        cache,
        market_map,
        token_to_market,
        ws_received_at: Some(ws_received_at),
        now,
    }
}

/// One engine step: look up the notified key's state — a miss is recorded
/// by the caller and skipped — then run every registered strategy in
/// registration order and collect the emitted signals. The caller records
/// the per-signal metrics and forwards each signal with a blocking send.
pub fn run_strategy_engine_step<S: Strategy>(
    notification: &Notification,
    cache: &MarketCache,
    strategies: &Vec<S>,
    market_map: &MarketMap,
    token_to_market: &TokenToMarket,
    now: u64,
) -> (signals: Vec<TradeSignal>)
    ensures
        !cache@.contains_key(notification.key@) ==> signals@.len() == 0,
        cache@.contains_key(notification.key@) ==> signals_model(signals@) == eval_all(
            strategies@,
            notified_context(
                notification.key@,
                cache@,
                market_map@,
                token_to_market@,
                notification.ws_received_at,
                now,
            ),
        ),
{
    let mut signals: Vec<TradeSignal> = Vec::new();
    let state = match cache.get_market_state(&notification.key) {
        Some(state) => state,
        None => {
            return signals;
        },
    };
    let ghost ctx_model = notified_context(
        notification.key@,
        cache@,
        market_map@,
        token_to_market@,
        notification.ws_received_at,
        now,
    );
    let ctx = EvalContext {
        updated_key: &notification.key,
        updated_state: &state,
        cache,
        market_map,
        token_to_market,
        ws_received_at: Some(notification.ws_received_at),
        now,
    };
    proof {
        assert(ctx@ == ctx_model);
    }
    let n = strategies.len();
    let mut i: usize = 0;
    while i < n
        invariant
            n == strategies@.len(),
            i <= n,
            ctx@ == ctx_model,
            signals_model(signals@) == eval_all(strategies@.take(i as int), ctx_model),
        decreases n - i,
    {
        let ghost before = signals@;
        let r = strategies[i].evaluate(&ctx);
        match r {
            Some(signal) => {
                signals.push(signal);
                proof {
                    assert(signals@.drop_last() =~= before);
                    assert(signals_model(signals@) =~= signals_model(before) + seq![
                        signals@.last()@,
                    ]);
                }
            },
            None => {},
        }
        proof {
            assert(strategies@.take(i + 1).drop_last() =~= strategies@.take(i as int));
            assert(strategies@.take(i + 1).last() == strategies@[i as int]);
        }
        i += 1;
    }
    proof {
        assert(strategies@.take(n as int) =~= strategies@);
    }
    signals
}

} // verus!
