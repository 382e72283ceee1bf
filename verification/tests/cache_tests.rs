use market_pipeline::cache::{insert, MarketCache};
use market_pipeline::market::MarketState;
use market_pipeline::types::{MarketEvent, MarketEventKind, MarketKey, Venue};
use market_pipeline::worker::{event_latency_ms, run_market_worker_step};
use market_pipeline::queue::{BoundedQueue, NOTIFY_CAPACITY};

fn key(token: &str) -> MarketKey {
    MarketKey(Venue::Polymarket, token.to_string())
}

fn event(token: &str, bid: Option<u64>, ask: Option<u64>, vol: Option<u64>) -> MarketEvent {
    MarketEvent {
        venue: Venue::Polymarket,
        token_id: token.to_string(),
        kind: MarketEventKind::PriceChange,
        best_bid: bid,
        best_ask: ask,
        volume24h: vol,
        last_trade_price: None,
        liquidity: None,
        ts_exchange_ms: None,
        ts_receive_ms: None,
        received_at: 0,
    }
}

#[test]
fn merge_overwrites_only_present_fields() {
    let mut state = MarketState { best_bid: Some(600_000), best_ask: None, volume24h: Some(5) };
    let update = MarketState { best_bid: None, best_ask: Some(700_000), volume24h: None };
    state.merge(&update);
    assert_eq!(state.best_bid, Some(600_000));
    assert_eq!(state.best_ask, Some(700_000));
    assert_eq!(state.volume24h, Some(5));
}

#[test]
fn update_partial_inserts_when_absent() {
    let mut cache = MarketCache::new();
    let update = MarketState { best_bid: Some(1), best_ask: None, volume24h: None };
    cache.update_partial(key("tok"), update);
    let got = cache.get_market_state(&key("tok")).unwrap();
    assert_eq!(got.best_bid, Some(1));
    assert_eq!(got.best_ask, None);
}

#[test]
fn update_partial_never_clears_a_present_field() {
    let mut cache = MarketCache::new();
    cache.update_partial(key("tok"), MarketState {
        best_bid: Some(600_000),
        best_ask: Some(650_000),
        volume24h: None,
    });
    cache.update_partial(key("tok"), MarketState {
        best_bid: Some(610_000),
        best_ask: None,
        volume24h: Some(42),
    });
    let got = cache.get_market_state(&key("tok")).unwrap();
    assert_eq!(got.best_bid, Some(610_000));
    assert_eq!(got.best_ask, Some(650_000));
    assert_eq!(got.volume24h, Some(42));
}

#[test]
fn cache_tracks_latest_present_field_per_key() {
    // the partial-merge rule over a whole event sequence, applied by the
    // worker: the latest present value of each field wins
    let mut cache = MarketCache::new();
    let mut notify: BoundedQueue<market_pipeline::worker::Notification> =
        BoundedQueue::new(NOTIFY_CAPACITY);
    let events = [
        event("a", Some(10), None, None),
        event("b", Some(99), Some(98), None),
        event("a", None, Some(20), Some(7)),
        event("a", Some(11), None, None),
        event("b", Some(97), None, None),
    ];
    for e in &events {
        run_market_worker_step(&mut cache, &mut notify, e);
    }
    let a = cache.get_market_state(&key("a")).unwrap();
    assert_eq!(a.best_bid, Some(11));
    assert_eq!(a.best_ask, Some(20));
    assert_eq!(a.volume24h, Some(7));
    let b = cache.get_market_state(&key("b")).unwrap();
    assert_eq!(b.best_bid, Some(97));
    assert_eq!(b.best_ask, Some(98));
    assert_eq!(b.volume24h, None);
    assert!(cache.get_market_state(&key("c")).is_none());
}

#[test]
fn update_market_state_replaces_whole_entry() {
    let mut cache = MarketCache::new();
    cache.update_partial(key("tok"), MarketState {
        best_bid: Some(1),
        best_ask: Some(2),
        volume24h: Some(3),
    });
    cache.update_market_state(key("tok"), MarketState {
        best_bid: None,
        best_ask: Some(9),
        volume24h: None,
    });
    let got = cache.get_market_state(&key("tok")).unwrap();
    assert_eq!(got.best_bid, None);
    assert_eq!(got.best_ask, Some(9));
    assert_eq!(got.volume24h, None);
}

#[test]
fn scan_by_venue_filters_and_returns_all() {
    let mut cache = MarketCache::new();
    cache.update_partial(
        MarketKey(Venue::Polymarket, "p1".to_string()),
        MarketState { best_bid: Some(1), best_ask: None, volume24h: None },
    );
    cache.update_partial(
        MarketKey(Venue::Kalshi, "k1".to_string()),
        MarketState { best_bid: Some(2), best_ask: None, volume24h: None },
    );
    cache.update_partial(
        MarketKey(Venue::Polymarket, "p2".to_string()),
        MarketState { best_bid: Some(3), best_ask: None, volume24h: None },
    );
    let poly = cache.get_markets_by_venue(&Venue::Polymarket);
    assert_eq!(poly.len(), 2);
    let mut tokens: Vec<String> = poly.iter().map(|(k, _)| k.1.clone()).collect();
    tokens.sort();
    assert_eq!(tokens, vec!["p1".to_string(), "p2".to_string()]);
    let kalshi = cache.get_markets_by_venue(&Venue::Kalshi);
    assert_eq!(kalshi.len(), 1);
    assert_eq!(kalshi[0].0.1, "k1");
    assert_eq!(kalshi[0].1.best_bid, Some(2));
}

#[test]
fn insert_free_fn_merges_partially() {
    let mut cache = MarketCache::new();
    insert(&mut cache, key("tok"), MarketState {
        best_bid: Some(5),
        best_ask: None,
        volume24h: None,
    });
    insert(&mut cache, key("tok"), MarketState {
        best_bid: None,
        best_ask: Some(6),
        volume24h: None,
    });
    let got = cache.get_market_state(&key("tok")).unwrap();
    assert_eq!(got.best_bid, Some(5));
    assert_eq!(got.best_ask, Some(6));
}

#[test]
fn event_latency_is_measured_against_the_exchange_timestamp() {
    let mut e = event("a", None, None, None);
    assert_eq!(event_latency_ms(500, &e), None);
    e.ts_exchange_ms = Some(400);
    assert_eq!(event_latency_ms(500, &e), Some(100));
    // a clock that ran behind the exchange reports zero
    assert_eq!(event_latency_ms(300, &e), Some(0));
}
