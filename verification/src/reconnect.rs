//! The live-subscription reconnect state machine and its backoff schedule.
//!
//! The embedder runs the websocket I/O and feeds every connection outcome
//! into [`Reconnector::step`]; the machine decides whether to proceed, wait
//! and retry, or give up.

use vstd::prelude::*;

verus! {

/// Backoff of the first failed attempt, milliseconds.
pub const INITIAL_BACKOFF_MS: u64 = 500;

/// Ceiling of the backoff schedule, milliseconds.
pub const MAX_BACKOFF_MS: u64 = 30_000;

/// After this many failed connect attempts without a success, the adapter
/// exits.
pub const MAX_WS_RECONNECT_ATTEMPTS: u32 = 10;

/// Two to the `k`-th power.
pub open spec fn pow2(k: nat) -> nat
    decreases k,
{
    if k == 0 {
        1
    } else {
        2 * pow2((k - 1) as nat)
    }
}

/// The wait before reconnect attempt `attempt`:
/// `min(INITIAL_BACKOFF_MS * 2^(attempt - 1), MAX_BACKOFF_MS)`.
pub open spec fn backoff_spec(attempt: u32) -> u64
    recommends
        attempt >= 1,
{
    let raw = INITIAL_BACKOFF_MS * pow2((attempt - 1) as nat);
    if raw >= MAX_BACKOFF_MS {
        MAX_BACKOFF_MS
    } else {
        raw as u64
    }
}

/// The first seven powers of two.
proof fn lemma_pow2_small()
    ensures
        pow2(0) == 1,
        pow2(1) == 2,
        pow2(2) == 4,
        pow2(3) == 8,
        pow2(4) == 16,
        pow2(5) == 32,
        pow2(6) == 64,
{
    assert(pow2(0) == 1);
    assert(pow2(1) == 2);
    assert(pow2(2) == 4);
    assert(pow2(3) == 8);
    assert(pow2(4) == 16);
    assert(pow2(5) == 32);
    assert(pow2(6) == 64);
}

/// `pow2` never shrinks as the exponent grows.
proof fn lemma_pow2_mono(j: nat, k: nat)
    requires
        j <= k,
    ensures
        pow2(j) <= pow2(k),
    decreases k,
{
    if j < k {
        lemma_pow2_mono(j, (k - 1) as nat);
    }
}

/// The wait before reconnect attempt `attempt`, per [`backoff_spec`].
pub fn backoff_delay_ms(attempt: u32) -> (d: u64)
    requires
        attempt >= 1,
    ensures
        d == backoff_spec(attempt),
{
    if attempt >= 7 {
        proof {
            lemma_pow2_small();
            lemma_pow2_mono(6, (attempt - 1) as nat);
        }
        MAX_BACKOFF_MS
    } else {
        let d: u64 = match attempt {
            1 => 500,
            2 => 1_000,
            3 => 2_000,
            4 => 4_000,
            5 => 8_000,
            _ => 16_000,
        };
        proof {
            lemma_pow2_small();
        }
        d
    }
}

/// The states of the live subscription.
#[derive(Clone, Copy, Debug, PartialEq, Eq, Structural)]
pub enum ConnState {
    /// Not connected; connect attempts are being made.
    Connecting,
    /// Connected and subscribed to the full token list.
    Subscribed,
    /// Declared by the protocol; no transition of the observed protocol
    /// enters it.
    Degraded,
    /// The attempt counter reached its limit without a successful connect;
    /// the adapter exits.
    GaveUp,
}

/// What the embedder observed on the connection.
#[derive(Clone, Copy, Debug, PartialEq, Eq, Structural)]
pub enum ConnEvent {
    /// Websocket handshake and subscription succeeded.
    ConnectSucceeded,
    /// Websocket handshake or subscription failed.
    ConnectFailed,
    /// The stream ended (closed or fatally errored).
    StreamEnded,
    /// One in-band message errored; the stream continues.
    StreamItemError,
}

/// What the embedder must do next.
#[derive(Clone, Copy, Debug, PartialEq, Eq, Structural)]
pub enum ConnAction {
    /// Keep going in the current state.
    Proceed,
    /// Wait `wait_ms` milliseconds, then attempt to connect.
    Retry { wait_ms: u64 },
    /// Stop: the adapter exits.
    Exit,
}

/// Model of the reconnect machine.
pub ghost struct ReconnectorModel {
    pub state: ConnState,
    pub attempts: u32,
}

/// The transition rule:
/// - a successful connect subscribes and resets the attempt counter;
/// - a failed connect counts one attempt, and either gives up (at the
///   attempt limit) or retries after the scheduled backoff;
/// - a stream end returns to connecting and retries; the backoff index is
///   the current count, and a count of zero retries at once;
/// - an in-band stream error is logged by the embedder and changes nothing;
/// - a machine that gave up stays that way.
pub open spec fn reconnect_step(m: ReconnectorModel, ev: ConnEvent) -> (ReconnectorModel, ConnAction) {
    match m.state {
        ConnState::Connecting => match ev {
            ConnEvent::ConnectSucceeded => (
                ReconnectorModel { state: ConnState::Subscribed, attempts: 0 },
                ConnAction::Proceed,
            ),
            ConnEvent::ConnectFailed => {
                let a = if m.attempts < u32::MAX {
                    (m.attempts + 1) as u32
                } else {
                    m.attempts
                };
                if a >= MAX_WS_RECONNECT_ATTEMPTS {
                    (ReconnectorModel { state: ConnState::GaveUp, attempts: a }, ConnAction::Exit)
                } else {
                    (
                        ReconnectorModel { state: ConnState::Connecting, attempts: a },
                        ConnAction::Retry { wait_ms: backoff_spec(a) },
                    )
                }
            },
            _ => (m, ConnAction::Proceed),
        },
        ConnState::Subscribed => match ev {
            ConnEvent::StreamEnded => (
                ReconnectorModel { state: ConnState::Connecting, attempts: m.attempts },
                ConnAction::Retry {
                    wait_ms: if m.attempts == 0 {
                        0
                    } else {
                        backoff_spec(m.attempts)
                    },
                },
            ),
            _ => (m, ConnAction::Proceed),
        },
        ConnState::Degraded => (m, ConnAction::Proceed),
        ConnState::GaveUp => (m, ConnAction::Exit),
    }
}

/// The reconnect machine: the live-subscription state and the count of
/// failed connect attempts since the last success.
#[derive(Clone, Copy, Debug)]
pub struct Reconnector {
    /// The subscription state.
    pub state: ConnState,
    /// Failed connect attempts since the last successful connect.
    pub attempts: u32,
}

impl View for Reconnector {
    type V = ReconnectorModel;

    open spec fn view(&self) -> ReconnectorModel {
        ReconnectorModel { state: self.state, attempts: self.attempts }
    }
}

/// The machine's starting point: connecting, no failures yet.
pub open spec fn initial_reconnector() -> ReconnectorModel {
    ReconnectorModel { state: ConnState::Connecting, attempts: 0 }
}

impl Reconnector {
    /// A fresh machine: connecting, no failures yet.
    pub fn new() -> (r: Reconnector)
        ensures
            r@ == initial_reconnector(),
    {
        Reconnector { state: ConnState::Connecting, attempts: 0 }
    }

    /// Feed one observation; the machine moves and says what to do next.
    pub fn step(&mut self, ev: ConnEvent) -> (action: ConnAction)
        ensures
            (final(self)@, action) == reconnect_step(old(self)@, ev),
    {
        match self.state {
            ConnState::Connecting => match ev {
                ConnEvent::ConnectSucceeded => {
                    self.state = ConnState::Subscribed;
                    self.attempts = 0;
                    ConnAction::Proceed
                },
                ConnEvent::ConnectFailed => {
                    if self.attempts < u32::MAX {
                        self.attempts = self.attempts + 1;
                    }
                    if self.attempts >= MAX_WS_RECONNECT_ATTEMPTS {
                        self.state = ConnState::GaveUp;
                        ConnAction::Exit
                    } else {
                        ConnAction::Retry { wait_ms: backoff_delay_ms(self.attempts) }
                    }
                },
                _ => ConnAction::Proceed,
            },
            ConnState::Subscribed => match ev {
                ConnEvent::StreamEnded => {
                    self.state = ConnState::Connecting;
                    let wait_ms = if self.attempts == 0 {
                        0
                    } else {
                        backoff_delay_ms(self.attempts)
                    };
                    ConnAction::Retry { wait_ms }
                },
                _ => ConnAction::Proceed,
            },
            ConnState::Degraded => ConnAction::Proceed,
            ConnState::GaveUp => ConnAction::Exit,
        }
    }
}

/// The machine after `n` consecutive failed connect attempts from the
/// start.
pub open spec fn after_failures(n: nat) -> ReconnectorModel
    decreases n,
{
    if n == 0 {
        initial_reconnector()
    } else {
        reconnect_step(after_failures((n - 1) as nat), ConnEvent::ConnectFailed).0
    }
}

proof fn lemma_after_failures_shape(n: nat)
    requires
        n <= MAX_WS_RECONNECT_ATTEMPTS,
    ensures
        after_failures(n).attempts == n,
        after_failures(n).state == if n == MAX_WS_RECONNECT_ATTEMPTS {
            ConnState::GaveUp
        } else {
            ConnState::Connecting
        },
    decreases n,
{
    if n > 0 {
        lemma_after_failures_shape((n - 1) as nat);
    }
}

/// Backoff schedule law: starting from a fresh machine, the `k`-th
/// consecutive failed connect attempt waits
/// `min(INITIAL_BACKOFF_MS * 2^(k-1), MAX_BACKOFF_MS)` milliseconds before
/// retrying, and the tenth failure makes the machine give up and exit.
pub proof fn lemma_backoff_schedule(k: nat)
    requires
        1 <= k <= MAX_WS_RECONNECT_ATTEMPTS,
    ensures
        k < MAX_WS_RECONNECT_ATTEMPTS ==> reconnect_step(
            after_failures((k - 1) as nat),
            ConnEvent::ConnectFailed,
        ).1 == (ConnAction::Retry { wait_ms: backoff_spec(k as u32) }),
        k < MAX_WS_RECONNECT_ATTEMPTS ==> after_failures(k).state == ConnState::Connecting,
        k == MAX_WS_RECONNECT_ATTEMPTS ==> reconnect_step(
            after_failures((k - 1) as nat),
            ConnEvent::ConnectFailed,
        ).1 == ConnAction::Exit,
        k == MAX_WS_RECONNECT_ATTEMPTS ==> after_failures(k).state == ConnState::GaveUp,
{
    lemma_after_failures_shape((k - 1) as nat);
    lemma_after_failures_shape(k);
}

} // verus!
