use market_pipeline::adapter::{build_market_tables, MarketMap, RawMarket, TokenToMarket};
use market_pipeline::arbitrage::ArbitrageStrategy;
use market_pipeline::cache::MarketCache;
use market_pipeline::market::MarketState;
use market_pipeline::metrics::StrategySignalsTotal;
use market_pipeline::queue::{BoundedQueue, NOTIFY_CAPACITY};
use market_pipeline::router::{RouteAction, RouterState};
use market_pipeline::strategy::{run_strategy_engine_step, EvalContext, Strategy, TradeSignal};
use market_pipeline::types::{MarketEvent, MarketEventKind, MarketKey, Side, Venue};
use market_pipeline::worker::{run_market_worker_step, Notification};

const MIN_EDGE: u64 = 10_000; // 0.01
const SIZE: u64 = 5_000_000; // 5.0

fn tables() -> (MarketMap, TokenToMarket) {
    build_market_tables(&vec![RawMarket {
        id: "m1".to_string(),
        question: "Will it rain?".to_string(),
        active: true,
        closed: false,
        archived: false,
        clob_token_ids: vec!["yes".to_string(), "no".to_string()],
        outcome_prices: vec![600_000, 400_000],
        volume24h: 150_000,
        liquidity: 20_000,
        neg_risk: false,
    }])
}

fn seed(cache: &mut MarketCache, token: &str, bid: Option<u64>, ask: Option<u64>) {
    cache.update_partial(
        MarketKey(Venue::Polymarket, token.to_string()),
        MarketState { best_bid: bid, best_ask: ask, volume24h: None },
    );
}

fn evaluate_once(cache: &MarketCache, token: &str) -> Option<TradeSignal> {
    let (mm, tm) = tables();
    let strategy = ArbitrageStrategy::new(MIN_EDGE, SIZE);
    let key = MarketKey(Venue::Polymarket, token.to_string());
    let state = cache.get_market_state(&key).unwrap();
    let ctx = EvalContext {
        updated_key: &key,
        updated_state: &state,
        cache,
        market_map: &mm,
        token_to_market: &tm,
        ws_received_at: Some(41),
        now: 42,
    };
    strategy.evaluate(&ctx)
}

#[test]
fn sell_arb_fires() {
    // yes_bid + no_bid - 1 = 0.60 + 0.45 - 1 = 0.05 >= 0.01
    let mut cache = MarketCache::new();
    seed(&mut cache, "yes", Some(600_000), Some(700_000));
    seed(&mut cache, "no", Some(450_000), Some(500_000));
    let signal = evaluate_once(&cache, "yes").unwrap();
    assert_eq!(signal.strategy_name, "arbitrage");
    assert_eq!(signal.market_id, "m1");
    assert_eq!(signal.edge, 50_000);
    assert_eq!(signal.legs.len(), 2);
    assert_eq!(signal.legs[0].token_id, "yes");
    assert_eq!(signal.legs[0].side, Side::Sell);
    assert_eq!(signal.legs[0].price, 600_000);
    assert_eq!(signal.legs[0].size, SIZE);
    assert_eq!(signal.legs[1].token_id, "no");
    assert_eq!(signal.legs[1].side, Side::Sell);
    assert_eq!(signal.legs[1].price, 450_000);
    assert_eq!(signal.legs[1].size, SIZE);
    assert_eq!(signal.generated_at, 42);
    assert_eq!(signal.ws_received_at, Some(41));
}

#[test]
fn buy_arb_fires() {
    // 1 - (yes_ask + no_ask) = 1 - 0.85 = 0.15 >= 0.01
    let mut cache = MarketCache::new();
    seed(&mut cache, "yes", Some(250_000), Some(300_000));
    seed(&mut cache, "no", Some(500_000), Some(550_000));
    let signal = evaluate_once(&cache, "no").unwrap();
    assert_eq!(signal.edge, 150_000);
    assert_eq!(signal.legs.len(), 2);
    assert_eq!(signal.legs[0].side, Side::Buy);
    assert_eq!(signal.legs[0].price, 300_000);
    assert_eq!(signal.legs[1].side, Side::Buy);
    assert_eq!(signal.legs[1].price, 550_000);
}

#[test]
fn below_threshold_stays_silent() {
    // yes_bid + no_bid - 1 = 0.52 + 0.48 - 1 = 0.00 < 0.01; asks sum above 1
    let mut cache = MarketCache::new();
    seed(&mut cache, "yes", Some(520_000), Some(540_000));
    seed(&mut cache, "no", Some(480_000), Some(500_000));
    assert!(evaluate_once(&cache, "yes").is_none());
}

#[test]
fn missing_leg_stays_silent() {
    // only the yes token has state; the strategy bails without a signal
    let mut cache = MarketCache::new();
    seed(&mut cache, "yes", Some(600_000), Some(700_000));
    assert!(evaluate_once(&cache, "yes").is_none());
}

#[test]
fn missing_price_stays_silent() {
    let mut cache = MarketCache::new();
    seed(&mut cache, "yes", Some(600_000), None);
    seed(&mut cache, "no", Some(450_000), Some(500_000));
    assert!(evaluate_once(&cache, "yes").is_none());
}

#[test]
fn unknown_token_stays_silent() {
    let mut cache = MarketCache::new();
    seed(&mut cache, "stranger", Some(600_000), Some(700_000));
    assert!(evaluate_once(&cache, "stranger").is_none());
}

#[test]
fn evaluation_is_pure() {
    let mut cache = MarketCache::new();
    seed(&mut cache, "yes", Some(600_000), Some(700_000));
    seed(&mut cache, "no", Some(450_000), Some(500_000));
    let first = evaluate_once(&cache, "yes").unwrap();
    let second = evaluate_once(&cache, "yes").unwrap();
    assert_eq!(first.market_id, second.market_id);
    assert_eq!(first.edge, second.edge);
    assert_eq!(first.generated_at, second.generated_at);
    assert_eq!(first.legs.len(), second.legs.len());
    for (a, b) in first.legs.iter().zip(second.legs.iter()) {
        assert_eq!(a.token_id, b.token_id);
        assert_eq!(a.side, b.side);
        assert_eq!(a.price, b.price);
        assert_eq!(a.size, b.size);
    }
}

#[test]
fn engine_step_emits_signals_and_counts_them() {
    let (mm, tm) = tables();
    let mut cache = MarketCache::new();
    let mut notify: BoundedQueue<Notification> = BoundedQueue::new(NOTIFY_CAPACITY);
    let yes_event = MarketEvent {
        venue: Venue::Polymarket,
        token_id: "yes".to_string(),
        kind: MarketEventKind::PriceChange,
        best_bid: Some(600_000),
        best_ask: Some(700_000),
        volume24h: None,
        last_trade_price: None,
        liquidity: None,
        ts_exchange_ms: None,
        ts_receive_ms: None,
        received_at: 5,
    };
    let no_event = MarketEvent { token_id: "no".to_string(), best_bid: Some(450_000),
        best_ask: Some(500_000), received_at: 6, ..yes_event.clone() };
    run_market_worker_step(&mut cache, &mut notify, &yes_event);
    run_market_worker_step(&mut cache, &mut notify, &no_event);
    let strategies = vec![ArbitrageStrategy::new(MIN_EDGE, SIZE)];
    let mut counters = StrategySignalsTotal::new();
    let mut emitted: Vec<TradeSignal> = Vec::new();
    while let Some(notification) = notify.recv() {
        let signals = run_strategy_engine_step(&notification, &cache, &strategies, &mm, &tm, 9);
        for signal in signals {
            counters.increment(signal.strategy_name, "Polymarket");
            emitted.push(signal);
        }
    }
    // both notifications see the full two-sided book, so both evaluate to
    // the same sell-arb signal
    assert_eq!(emitted.len(), 2);
    assert_eq!(emitted[0].edge, 50_000);
    assert_eq!(emitted[0].ws_received_at, Some(5));
    assert_eq!(emitted[1].ws_received_at, Some(6));
    assert_eq!(counters.get("arbitrage", "Polymarket"), 2);
    assert_eq!(counters.get("arbitrage", "Kalshi"), 0);
}

#[test]
fn engine_step_skips_a_cache_miss() {
    let (mm, tm) = tables();
    let cache = MarketCache::new();
    let strategies = vec![ArbitrageStrategy::new(MIN_EDGE, SIZE)];
    let notification = Notification {
        key: MarketKey(Venue::Polymarket, "yes".to_string()),
        ws_received_at: 1,
    };
    let signals = run_strategy_engine_step(&notification, &cache, &strategies, &mm, &tm, 2);
    assert!(signals.is_empty());
}

#[test]
fn router_spawns_once_per_venue() {
    let event = |venue: Venue| MarketEvent {
        venue,
        token_id: "tok".to_string(),
        kind: MarketEventKind::Heartbeat,
        best_bid: None,
        best_ask: None,
        volume24h: None,
        last_trade_price: None,
        liquidity: None,
        ts_exchange_ms: None,
        ts_receive_ms: None,
        received_at: 0,
    };
    let mut router = RouterState::new();
    assert_eq!(router.route(&event(Venue::Polymarket)), RouteAction::SpawnWorkerAndForward);
    assert_eq!(router.route(&event(Venue::Polymarket)), RouteAction::Forward);
    assert_eq!(router.route(&event(Venue::Kalshi)), RouteAction::SpawnWorkerAndForward);
    assert_eq!(router.route(&event(Venue::Kalshi)), RouteAction::Forward);
    assert_eq!(router.route(&event(Venue::Polymarket)), RouteAction::Forward);
}

#[test]
fn sell_arb_takes_precedence_over_buy_arb() {
    // both sides would fire on this (artificial) book; sell wins
    let mut cache = MarketCache::new();
    seed(&mut cache, "yes", Some(900_000), Some(50_000));
    seed(&mut cache, "no", Some(900_000), Some(50_000));
    let signal = evaluate_once(&cache, "yes").unwrap();
    assert_eq!(signal.legs[0].side, Side::Sell);
    assert_eq!(signal.legs[1].side, Side::Sell);
    assert_eq!(signal.edge, 800_000);
}

#[test]
fn prices_above_one_still_fire() {
    // the edge condition is all that matters: yes_bid 1.2, no_bid 0.45
    // gives a sell edge of 0.65
    let mut cache = MarketCache::new();
    seed(&mut cache, "yes", Some(1_200_000), Some(1_300_000));
    seed(&mut cache, "no", Some(450_000), Some(500_000));
    let signal = evaluate_once(&cache, "yes").unwrap();
    assert_eq!(signal.edge, 650_000);
    assert_eq!(signal.legs[0].side, Side::Sell);
    assert_eq!(signal.legs[0].price, 1_200_000);
    assert_eq!(signal.legs[1].price, 450_000);
}

#[test]
fn an_edge_wider_than_its_type_saturates() {
    let mut cache = MarketCache::new();
    seed(&mut cache, "yes", Some(u64::MAX), Some(u64::MAX));
    seed(&mut cache, "no", Some(u64::MAX), Some(u64::MAX));
    let signal = evaluate_once(&cache, "yes").unwrap();
    assert_eq!(signal.legs[0].side, Side::Sell);
    assert_eq!(signal.legs[0].price, u64::MAX);
    assert_eq!(signal.edge, u64::MAX);
}
