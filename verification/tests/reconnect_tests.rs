use market_pipeline::reconnect::{
    backoff_delay_ms, ConnAction, ConnEvent, ConnState, Reconnector, INITIAL_BACKOFF_MS,
    MAX_BACKOFF_MS, MAX_WS_RECONNECT_ATTEMPTS,
};

#[test]
fn backoff_follows_the_schedule() {
    // min(500 * 2^(k-1), 30000)
    assert_eq!(backoff_delay_ms(1), 500);
    assert_eq!(backoff_delay_ms(2), 1_000);
    assert_eq!(backoff_delay_ms(3), 2_000);
    assert_eq!(backoff_delay_ms(4), 4_000);
    assert_eq!(backoff_delay_ms(5), 8_000);
    assert_eq!(backoff_delay_ms(6), 16_000);
    assert_eq!(backoff_delay_ms(7), 30_000);
    assert_eq!(backoff_delay_ms(8), 30_000);
    assert_eq!(backoff_delay_ms(10), 30_000);
    assert_eq!(INITIAL_BACKOFF_MS, 500);
    assert_eq!(MAX_BACKOFF_MS, 30_000);
}

#[test]
fn ten_failures_give_up() {
    let mut machine = Reconnector::new();
    assert_eq!(machine.state, ConnState::Connecting);
    for k in 1..MAX_WS_RECONNECT_ATTEMPTS {
        let action = machine.step(ConnEvent::ConnectFailed);
        assert_eq!(action, ConnAction::Retry { wait_ms: backoff_delay_ms(k) });
        assert_eq!(machine.state, ConnState::Connecting);
        assert_eq!(machine.attempts, k);
    }
    let action = machine.step(ConnEvent::ConnectFailed);
    assert_eq!(action, ConnAction::Exit);
    assert_eq!(machine.state, ConnState::GaveUp);
    // a machine that gave up stays that way
    assert_eq!(machine.step(ConnEvent::ConnectSucceeded), ConnAction::Exit);
    assert_eq!(machine.state, ConnState::GaveUp);
}

#[test]
fn success_resets_the_attempt_counter() {
    let mut machine = Reconnector::new();
    machine.step(ConnEvent::ConnectFailed);
    machine.step(ConnEvent::ConnectFailed);
    assert_eq!(machine.attempts, 2);
    let action = machine.step(ConnEvent::ConnectSucceeded);
    assert_eq!(action, ConnAction::Proceed);
    assert_eq!(machine.state, ConnState::Subscribed);
    assert_eq!(machine.attempts, 0);
}

#[test]
fn stream_end_reconnects_and_inband_errors_do_not() {
    let mut machine = Reconnector::new();
    machine.step(ConnEvent::ConnectSucceeded);
    // an in-band message error is logged and the stream continues
    assert_eq!(machine.step(ConnEvent::StreamItemError), ConnAction::Proceed);
    assert_eq!(machine.state, ConnState::Subscribed);
    // only stream end triggers reconnect; with no failed attempts the
    // retry is immediate
    assert_eq!(machine.step(ConnEvent::StreamEnded), ConnAction::Retry { wait_ms: 0 });
    assert_eq!(machine.state, ConnState::Connecting);
}

#[test]
fn stream_end_after_failures_backs_off_at_the_current_count() {
    let mut machine = Reconnector::new();
    machine.step(ConnEvent::ConnectFailed);
    machine.step(ConnEvent::ConnectFailed);
    machine.step(ConnEvent::ConnectFailed);
    // imagine the fourth attempt succeeded, then reset happens
    let mut subscribed = Reconnector::new();
    subscribed.step(ConnEvent::ConnectSucceeded);
    assert_eq!(subscribed.attempts, 0);
    assert_eq!(
        subscribed.step(ConnEvent::StreamEnded),
        ConnAction::Retry { wait_ms: 0 }
    );
}
