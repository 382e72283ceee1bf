use market_pipeline::digits::u64_to_string;
use market_pipeline::execution::{
    elapsed_us, signal_to_intent, ExecutionEngine, ExecutionIntent, LegFillStatus, LegOutcome,
    LegRunner, OrderLeg, PaperExecutor,
};
use market_pipeline::metrics::StrategySignalsTotal;
use market_pipeline::strategy::{SignalLeg, TradeSignal};
use market_pipeline::types::{Side, Venue};

fn two_leg_signal() -> TradeSignal {
    TradeSignal {
        strategy_name: "arbitrage",
        venue: Venue::Polymarket,
        market_id: "m1".to_string(),
        legs: vec![
            SignalLeg {
                token_id: "yes".to_string(),
                side: Side::Sell,
                price: 600_000,
                size: 5_000_000,
            },
            SignalLeg {
                token_id: "no".to_string(),
                side: Side::Sell,
                price: 450_000,
                size: 5_000_000,
            },
        ],
        edge: 50_000,
        generated_at: 100,
        ws_received_at: Some(90),
    }
}

#[test]
fn intent_copies_legs_one_to_one() {
    let intent = signal_to_intent(two_leg_signal(), true, 110);
    assert_eq!(intent.venue, Venue::Polymarket);
    assert_eq!(intent.market_id, "m1");
    assert_eq!(intent.strategy_name, "arbitrage");
    assert_eq!(intent.edge, 50_000);
    assert!(intent.neg_risk);
    assert_eq!(intent.created_at, 110);
    assert_eq!(intent.legs.len(), 2);
    assert_eq!(intent.legs[0].token_id, "yes");
    assert_eq!(intent.legs[0].side, Side::Sell);
    assert_eq!(intent.legs[0].price, 600_000);
    assert_eq!(intent.legs[0].size, 5_000_000);
    assert_eq!(intent.legs[1].token_id, "no");
    assert_eq!(intent.legs[1].price, 450_000);
}

#[test]
fn paper_executor_fills_every_leg() {
    let mut executor = PaperExecutor::new();
    let intent = signal_to_intent(two_leg_signal(), false, 110);
    let report = executor.execute(intent, 120);
    assert_eq!(report.market_id, "m1");
    assert_eq!(report.strategy_name, "arbitrage");
    assert_eq!(report.completed_at, 120);
    assert_eq!(report.leg_results.len(), 2);
    assert!(report.fully_filled());
    assert!(!report.has_rejection());
    let mut ids: Vec<u64> = Vec::new();
    let expected = [(600_000u64, 5_000_000u64), ("450000".parse().unwrap(), 5_000_000)];
    for (result, (price, size)) in report.leg_results.iter().zip(expected.iter()) {
        match result {
            LegFillStatus::Filled { order_id, avg_price, filled_size } => {
                ids.push(order_id.parse().unwrap());
                assert_eq!(avg_price, price);
                assert_eq!(filled_size, size);
            },
            other => panic!("expected a fill, got {:?}", other),
        }
    }
    // strictly increasing order ids, starting at 1
    assert_eq!(ids, vec![1, 2]);
    // ids keep increasing across intents
    let report2 = executor.execute(signal_to_intent(two_leg_signal(), false, 130), 140);
    match &report2.leg_results[0] {
        LegFillStatus::Filled { order_id, .. } => assert_eq!(order_id, "3"),
        other => panic!("expected a fill, got {:?}", other),
    }
}

#[test]
fn leg_runner_drives_a_full_fill() {
    let intent = signal_to_intent(two_leg_signal(), false, 0);
    let mut runner = LegRunner::new(intent);
    let mut submitted: Vec<(String, u64)> = Vec::new();
    while let Some(leg) = runner.next_leg() {
        submitted.push((leg.token_id.clone(), leg.price));
        let outcome = LegOutcome::Filled {
            order_id: format!("venue-{}", submitted.len()),
            avg_price: leg.price,
            filled_size: leg.size,
        };
        runner.record(outcome);
    }
    assert_eq!(submitted, vec![("yes".to_string(), 600_000), ("no".to_string(), 450_000)]);
    let report = runner.finish(7);
    assert_eq!(report.leg_results.len(), 2);
    assert!(report.fully_filled());
    assert_eq!(report.completed_at, 7);
}

#[test]
fn leg_runner_rejection_is_fail_fast() {
    // the venue rejects the first leg: the second is never handed out, and
    // the report reads [Rejected, NotAttempted]; the rejection counter
    // moves once, the fill counter not at all
    let intent = signal_to_intent(two_leg_signal(), false, 0);
    let mut runner = LegRunner::new(intent);
    let mut attempts = 0;
    while let Some(_leg) = runner.next_leg() {
        attempts += 1;
        runner.record(LegOutcome::Rejected { reason: "insufficient balance".to_string() });
    }
    assert_eq!(attempts, 1);
    let report = runner.finish(8);
    assert_eq!(report.leg_results.len(), 2);
    assert!(matches!(
        &report.leg_results[0],
        LegFillStatus::Rejected { reason } if reason == "insufficient balance"
    ));
    assert!(matches!(&report.leg_results[1], LegFillStatus::NotAttempted));
    assert!(!report.fully_filled());
    assert!(report.has_rejection());
    let mut counters = StrategySignalsTotal::new();
    if report.fully_filled() {
        counters.increment(report.strategy_name, "fill");
    }
    if report.has_rejection() {
        counters.increment(report.strategy_name, "rejection");
    }
    assert_eq!(counters.get("arbitrage", "rejection"), 1);
    assert_eq!(counters.get("arbitrage", "fill"), 0);
}

#[test]
fn leg_runner_mid_chain_rejection_marks_the_tail() {
    let mut signal = two_leg_signal();
    signal.legs.push(SignalLeg {
        token_id: "extra".to_string(),
        side: Side::Sell,
        price: 100_000,
        size: 1,
    });
    let intent = signal_to_intent(signal, false, 0);
    let mut runner = LegRunner::new(intent);
    let first = runner.next_leg().unwrap();
    let fill = LegOutcome::Filled {
        order_id: "a".to_string(),
        avg_price: first.price,
        filled_size: first.size,
    };
    runner.record(fill);
    assert!(runner.next_leg().is_some());
    runner.record(LegOutcome::Rejected { reason: "rejected by venue".to_string() });
    assert!(runner.next_leg().is_none());
    let report = runner.finish(9);
    assert_eq!(report.leg_results.len(), 3);
    assert!(matches!(&report.leg_results[0], LegFillStatus::Filled { .. }));
    assert!(matches!(&report.leg_results[1], LegFillStatus::Rejected { .. }));
    assert!(matches!(&report.leg_results[2], LegFillStatus::NotAttempted));
}

#[test]
fn empty_intent_reports_fully_filled() {
    let intent = ExecutionIntent {
        venue: Venue::Polymarket,
        market_id: "m0".to_string(),
        strategy_name: "arbitrage",
        legs: Vec::<OrderLeg>::new(),
        edge: 0,
        neg_risk: false,
        created_at: 0,
    };
    let mut executor = PaperExecutor::new();
    let report = executor.execute(intent, 1);
    assert_eq!(report.leg_results.len(), 0);
    assert!(report.fully_filled());
}

#[test]
fn elapsed_us_measures_forward_time_only() {
    assert_eq!(elapsed_us(150, 100), 50);
    assert_eq!(elapsed_us(100, 100), 0);
    assert_eq!(elapsed_us(90, 100), 0);
}

#[test]
fn decimal_rendering_matches() {
    assert_eq!(u64_to_string(0), "0");
    assert_eq!(u64_to_string(7), "7");
    assert_eq!(u64_to_string(10), "10");
    assert_eq!(u64_to_string(12_345), "12345");
    assert_eq!(u64_to_string(u64::MAX), "18446744073709551615");
}
