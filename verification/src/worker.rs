//! Per-venue market workers: project each event into a partial state,
//! merge it into the cache, and fire a lossy change notification.

use vstd::prelude::*;
use crate::types::{MarketKey, MarketKeyModel, MarketEvent, MarketEventModel, event_key};
use crate::market::{MarketState, MarketStateModel, project_event};
use crate::cache::{MarketCache, upsert_state, empty_model};
use crate::queue::BoundedQueue;

verus! {

/// Model of a change notification.
pub ghost struct NotificationModel {
    pub key: MarketKeyModel,
    pub ws_received_at: u64,
}

/// A cache-change notification: which key changed, and the monotonic
/// instant at which the triggering event was received.
#[derive(Clone, Debug)]
pub struct Notification {
    /// The key whose cache entry changed.
    pub key: MarketKey,
    /// Monotonic receive instant of the triggering event.
    pub ws_received_at: u64,
}

impl View for Notification {
    type V = NotificationModel;

    open spec fn view(&self) -> NotificationModel {
        NotificationModel { key: self.key@, ws_received_at: self.ws_received_at }
    }
}

/// The cache contents after one event is applied: the event's partial
/// state is upserted under the event's key.
pub open spec fn apply_event(
    m: Map<MarketKeyModel, MarketStateModel>,
    e: MarketEventModel,
) -> Map<MarketKeyModel, MarketStateModel> {
    m.insert(event_key(e), upsert_state(m, event_key(e), project_event(e)))
}

/// The cache contents after a sequence of events is applied in order.
pub open spec fn apply_events(
    m: Map<MarketKeyModel, MarketStateModel>,
    es: Seq<MarketEventModel>,
) -> Map<MarketKeyModel, MarketStateModel>
    decreases es.len(),
{
    if es.len() == 0 {
        m
    } else {
        apply_event(apply_events(m, es.drop_last()), es.last())
    }
}

/// Whether some event in `es` updates key `k`.
pub open spec fn touches(es: Seq<MarketEventModel>, k: MarketKeyModel) -> bool {
    exists|i: int| 0 <= i < es.len() && event_key(#[trigger] es[i]) == k
}

/// The most recent `best_bid` among events for `k` where `best_bid` was
/// present, if any.
pub open spec fn latest_bid(es: Seq<MarketEventModel>, k: MarketKeyModel) -> Option<u64>
    decreases es.len(),
{
    if es.len() == 0 {
        None
    } else if event_key(es.last()) == k && es.last().best_bid is Some {
        es.last().best_bid
    } else {
        latest_bid(es.drop_last(), k)
    }
}

/// The most recent `best_ask` among events for `k` where `best_ask` was
/// present, if any.
pub open spec fn latest_ask(es: Seq<MarketEventModel>, k: MarketKeyModel) -> Option<u64>
    decreases es.len(),
{
    if es.len() == 0 {
        None
    } else if event_key(es.last()) == k && es.last().best_ask is Some {
        es.last().best_ask
    } else {
        latest_ask(es.drop_last(), k)
    }
}

/// The most recent `volume24h` among events for `k` where `volume24h` was
/// present, if any.
pub open spec fn latest_volume24h(es: Seq<MarketEventModel>, k: MarketKeyModel) -> Option<u64>
    decreases es.len(),
{
    if es.len() == 0 {
        None
    } else if event_key(es.last()) == k && es.last().volume24h is Some {
        es.last().volume24h
    } else {
        latest_volume24h(es.drop_last(), k)
    }
}

/// The first option if present, the fallback otherwise.
pub open spec fn opt_or(primary: Option<u64>, fallback: Option<u64>) -> Option<u64> {
    if primary is Some {
        primary
    } else {
        fallback
    }
}

/// A field of the entry under `k` in `m`, or absent.
pub open spec fn base_bid(m: Map<MarketKeyModel, MarketStateModel>, k: MarketKeyModel)
    -> Option<u64> {
    if m.contains_key(k) {
        m[k].0
    } else {
        None
    }
}

/// As [`base_bid`], for `best_ask`.
pub open spec fn base_ask(m: Map<MarketKeyModel, MarketStateModel>, k: MarketKeyModel)
    -> Option<u64> {
    if m.contains_key(k) {
        m[k].1
    } else {
        None
    }
}

/// As [`base_bid`], for `volume24h`.
pub open spec fn base_volume24h(m: Map<MarketKeyModel, MarketStateModel>, k: MarketKeyModel)
    -> Option<u64> {
    if m.contains_key(k) {
        m[k].2
    } else {
        None
    }
}

/// A sequence with no event for `k` has no latest field values for `k`.
pub proof fn lemma_latest_none_when_untouched(es: Seq<MarketEventModel>, k: MarketKeyModel)
    requires
        !touches(es, k),
    ensures
        latest_bid(es, k) is None,
        latest_ask(es, k) is None,
        latest_volume24h(es, k) is None,
    decreases es.len(),
{
    if es.len() > 0 {
        assert(event_key(es[es.len() - 1]) != k);
        assert(!touches(es.drop_last(), k)) by {
            if touches(es.drop_last(), k) {
                let i = choose|i: int| 0 <= i < es.drop_last().len()
                    && event_key(#[trigger] es.drop_last()[i]) == k;
                assert(event_key(es[i]) == k);
            }
        }
        lemma_latest_none_when_untouched(es.drop_last(), k);
    }
}

/// Applying events on top of any cache contents `m` keeps, under every
/// key, the most recent present value of each field, falling back to what
/// `m` held.
pub proof fn lemma_apply_events_latest(
    m: Map<MarketKeyModel, MarketStateModel>,
    es: Seq<MarketEventModel>,
    k: MarketKeyModel,
)
    ensures
        apply_events(m, es).contains_key(k) <==> (m.contains_key(k) || touches(es, k)),
        apply_events(m, es).contains_key(k)
            ==> apply_events(m, es)[k].0 == opt_or(latest_bid(es, k), base_bid(m, k)),
        apply_events(m, es).contains_key(k)
            ==> apply_events(m, es)[k].1 == opt_or(latest_ask(es, k), base_ask(m, k)),
        apply_events(m, es).contains_key(k)
            ==> apply_events(m, es)[k].2 == opt_or(latest_volume24h(es, k), base_volume24h(m, k)),
    decreases es.len(),
{
    if es.len() == 0 {
        assert(!touches(es, k));
    } else {
        let head = es.drop_last();
        let last = es.last();
        lemma_apply_events_latest(m, head, k);
        let prev = apply_events(m, head);
        assert(touches(es, k) <==> (touches(head, k) || event_key(last) == k)) by {
            if touches(es, k) {
                let i = choose|i: int| 0 <= i < es.len() && event_key(#[trigger] es[i]) == k;
                if i < es.len() - 1 {
                    assert(head[i] == es[i]);
                    assert(touches(head, k));
                }
            }
            if touches(head, k) {
                let i = choose|i: int| 0 <= i < head.len() && event_key(#[trigger] head[i]) == k;
                assert(es[i] == head[i]);
            }
            if event_key(last) == k {
                assert(event_key(es[es.len() - 1]) == k);
            }
        }
        if event_key(last) == k {
            if !prev.contains_key(k) {
                lemma_latest_none_when_untouched(head, k);
            }
        } else {
            if apply_events(m, es).contains_key(k) {
                assert(apply_events(m, es)[k] == prev[k]);
            }
        }
    }
}

/// Partial-merge monotonicity: after any sequence of market events is
/// applied to an empty cache, the entry under a key holds exactly the most
/// recent `best_bid` among events for that key where `best_bid` was
/// present — and likewise for `best_ask` and `volume24h`. A key is present
/// if and only if some event updated it.
pub proof fn lemma_partial_merge_monotonic(es: Seq<MarketEventModel>, k: MarketKeyModel)
    ensures
        apply_events(empty_model(), es).contains_key(k) <==> touches(es, k),
        touches(es, k) ==> apply_events(empty_model(), es)[k].0 == latest_bid(es, k),
        touches(es, k) ==> apply_events(empty_model(), es)[k].1 == latest_ask(es, k),
        touches(es, k) ==> apply_events(empty_model(), es)[k].2 == latest_volume24h(es, k),
{
    lemma_apply_events_latest(empty_model(), es, k);
}

/// Project an event into the partial state it carries.
pub fn project_event_state(e: &MarketEvent) -> (s: MarketState)
    ensures
        s@ == project_event(e@),
{
    MarketState { best_bid: e.best_bid, best_ask: e.best_ask, volume24h: e.volume24h }
}

/// One worker step: merge the event's partial state into the cache under
/// the event's key, then attempt a non-blocking send of a notification.
/// On a full notify queue the notification is dropped silently — the
/// strategy path is lossy on updates, never lossy on data.
pub fn run_market_worker_step(
    cache: &mut MarketCache,
    notify: &mut BoundedQueue<Notification>,
    event: &MarketEvent,
) -> (notified: bool)
    ensures
        final(cache)@ == apply_event(old(cache)@, event@),
        notified == (old(notify)@.len() < old(notify).cap()),
        notified ==> final(notify)@.len() == old(notify)@.len() + 1
            && final(notify)@.drop_last() == old(notify)@
            && final(notify)@.last()@.key == event_key(event@)
            && final(notify)@.last()@.ws_received_at == event@.received_at,
        !notified ==> final(notify)@ == old(notify)@,
        final(notify).cap() == old(notify).cap(),
{
    let key = event.key();
    let update = project_event_state(event);
    let notification = Notification { key: key.duplicate(), ws_received_at: event.received_at };
    cache.update_partial(key, update);
    let notified = notify.try_send(notification);
    proof {
        if notified {
            assert(final(notify)@.drop_last() =~= old(notify)@);
        }
    }
    notified
}

/// The latency an event reports: the difference between `now_ms` and the
/// exchange timestamp, where the event carries one; zero where the clock
/// ran behind the exchange.
pub fn event_latency_ms(now_ms: u64, event: &MarketEvent) -> (r: Option<u64>)
    ensures
        match event.ts_exchange_ms {
            Some(t) => r == Some(if now_ms >= t { (now_ms - t) as u64 } else { 0u64 }),
            None => r is None,
        },
{
    match event.ts_exchange_ms {
        Some(t) => {
            if now_ms >= t {
                Some(now_ms - t)
            } else {
                Some(0)
            }
        },
        None => None,
    }
}

} // verus!
