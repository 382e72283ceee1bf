use market_pipeline::adapter::{
    build_market_tables, is_eligible, make_heartbeat, translate_price_change, PriceChange,
    RawMarket, TokenToMarket, MIN_LIQUIDITY, MIN_VOLUME_24H,
};
use market_pipeline::types::{MarketEventKind, Side, Venue};

fn good_market(id: &str, yes: &str, no: &str) -> RawMarket {
    RawMarket {
        id: id.to_string(),
        question: format!("Will {} happen?", id),
        active: true,
        closed: false,
        archived: false,
        clob_token_ids: vec![yes.to_string(), no.to_string()],
        outcome_prices: vec![600_000, 400_000],
        volume24h: 150_000,
        liquidity: 20_000,
        neg_risk: false,
    }
}

#[test]
fn eligible_market_passes() {
    assert!(is_eligible(&good_market("m1", "y1", "n1")));
}

#[test]
fn inactive_closed_or_archived_market_is_rejected() {
    let mut m = good_market("m1", "y1", "n1");
    m.active = false;
    assert!(!is_eligible(&m));
    let mut m = good_market("m1", "y1", "n1");
    m.closed = true;
    assert!(!is_eligible(&m));
    let mut m = good_market("m1", "y1", "n1");
    m.archived = true;
    assert!(!is_eligible(&m));
}

#[test]
fn wrong_token_count_is_rejected() {
    let mut m = good_market("m1", "y1", "n1");
    m.clob_token_ids = vec!["only".to_string()];
    assert!(!is_eligible(&m));
    let mut m = good_market("m1", "y1", "n1");
    m.clob_token_ids = vec!["a".to_string(), "b".to_string(), "c".to_string()];
    assert!(!is_eligible(&m));
}

#[test]
fn all_zero_prices_are_rejected() {
    let mut m = good_market("m1", "y1", "n1");
    m.outcome_prices = vec![0, 0];
    assert!(!is_eligible(&m));
    m.outcome_prices = vec![0, 1];
    assert!(is_eligible(&m));
}

#[test]
fn thin_markets_are_rejected() {
    let mut m = good_market("m1", "y1", "n1");
    m.volume24h = MIN_VOLUME_24H - 1;
    assert!(!is_eligible(&m));
    let mut m = good_market("m1", "y1", "n1");
    m.liquidity = MIN_LIQUIDITY - 1;
    assert!(!is_eligible(&m));
    // the floors themselves are admitted
    let mut m = good_market("m1", "y1", "n1");
    m.volume24h = MIN_VOLUME_24H;
    m.liquidity = MIN_LIQUIDITY;
    assert!(is_eligible(&m));
}

#[test]
fn tables_link_both_tokens_back_to_their_market() {
    let catalog = vec![
        good_market("m1", "y1", "n1"),
        {
            let mut m = good_market("skipped", "y9", "n9");
            m.active = false;
            m
        },
        good_market("m2", "y2", "n2"),
    ];
    let (mm, tm) = build_market_tables(&catalog);
    assert_eq!(mm.len(), 2);
    assert_eq!(tm.len(), 4);
    for (mid, yes, no) in [("m1", "y1", "n1"), ("m2", "y2", "n2")] {
        let info = mm.get(&mid.to_string()).unwrap();
        assert_eq!(info.yes_token_id, yes);
        assert_eq!(info.no_token_id, no);
        assert_eq!(tm.get(&yes.to_string()).unwrap(), mid);
        assert_eq!(tm.get(&no.to_string()).unwrap(), mid);
    }
    assert!(mm.get(&"skipped".to_string()).is_none());
    assert!(tm.get(&"y9".to_string()).is_none());
}

#[test]
fn duplicate_token_rows_are_skipped() {
    let catalog = vec![good_market("m1", "y1", "n1"), good_market("m2", "y1", "n2")];
    let (mm, tm) = build_market_tables(&catalog);
    assert_eq!(mm.len(), 1);
    assert_eq!(tm.get(&"y1".to_string()).unwrap(), "m1");
    assert!(mm.get(&"m2".to_string()).is_none());
}

fn table_for(yes: &str, market: &str) -> TokenToMarket {
    let (_, tm) = build_market_tables(&vec![good_market(market, yes, &format!("{}no", yes))]);
    tm
}

#[test]
fn translate_picks_buy_bid_and_sell_ask() {
    let tm = table_for("tok", "m1");
    let payload = vec![
        PriceChange { asset_id: "tok".to_string(), side: Side::Buy, price: 600_000 },
        PriceChange { asset_id: "tok".to_string(), side: Side::Sell, price: 650_000 },
    ];
    let e = translate_price_change(Venue::Polymarket, &payload, &tm, Some(1_000), 77).unwrap();
    assert_eq!(e.token_id, "tok");
    assert_eq!(e.kind, MarketEventKind::PriceChange);
    assert_eq!(e.best_bid, Some(600_000));
    assert_eq!(e.best_ask, Some(650_000));
    assert_eq!(e.volume24h, None);
    assert_eq!(e.ts_exchange_ms, Some(1_000));
    assert_eq!(e.received_at, 77);
}

#[test]
fn translate_with_one_side_missing_leaves_the_other_absent() {
    let tm = table_for("tok", "m1");
    let payload = vec![PriceChange {
        asset_id: "tok".to_string(),
        side: Side::Sell,
        price: 700_000,
    }];
    let e = translate_price_change(Venue::Polymarket, &payload, &tm, None, 0).unwrap();
    assert_eq!(e.best_bid, None);
    assert_eq!(e.best_ask, Some(700_000));
}

#[test]
fn translate_drops_unknown_asset_ids_and_empty_payloads() {
    let tm = table_for("tok", "m1");
    let payload = vec![PriceChange {
        asset_id: "stranger".to_string(),
        side: Side::Buy,
        price: 1,
    }];
    assert!(translate_price_change(Venue::Polymarket, &payload, &tm, None, 0).is_none());
    assert!(translate_price_change(Venue::Polymarket, &Vec::new(), &tm, None, 0).is_none());
}

#[test]
fn heartbeat_carries_the_snapshot() {
    let e = make_heartbeat(
        Venue::Polymarket,
        "tok".to_string(),
        Some(600_000),
        Some(640_000),
        Some(5),
        Some(620_000),
        Some(9),
        123,
    );
    assert_eq!(e.kind, MarketEventKind::Heartbeat);
    assert_eq!(e.token_id, "tok");
    assert_eq!(e.best_bid, Some(600_000));
    assert_eq!(e.best_ask, Some(640_000));
    assert_eq!(e.volume24h, Some(5));
    assert_eq!(e.last_trade_price, Some(620_000));
    assert_eq!(e.liquidity, Some(9));
    assert_eq!(e.received_at, 123);
}
