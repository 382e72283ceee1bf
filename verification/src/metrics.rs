//! Label-keyed counters and latency accumulators behind the metrics facade.
//!
//! Latencies are integer milliseconds; counters saturate at their type's
//! maximum rather than wrap.

use vstd::prelude::*;
use crate::assoc::AssocMap;

verus! {

/// The label pair of a metrics series, at the view level.
pub type LabelModel = (Seq<char>, Seq<char>);

/// The value a counter map holds under a label pair: zero when the pair was
/// never incremented.
pub open spec fn counter_value(m: Map<LabelModel, i64>, k: LabelModel) -> i64 {
    if m.contains_key(k) {
        m[k]
    } else {
        0
    }
}

/// A counter after one increment: one more, saturating at `i64::MAX`.
pub open spec fn bumped(m: Map<LabelModel, i64>, k: LabelModel) -> i64 {
    let c = counter_value(m, k);
    if c < i64::MAX {
        (c + 1) as i64
    } else {
        c
    }
}

/// `adapter_events_total{venue,event_type}`: how many events each venue
/// emitted, by event type.
pub struct AdapterEventsTotal {
    counts: AssocMap<(String, String), i64>,
}

impl View for AdapterEventsTotal {
    type V = Map<LabelModel, i64>;

    closed spec fn view(&self) -> Map<LabelModel, i64> {
        self.counts@
    }
}

impl AdapterEventsTotal {
    /// The empty counter map, at the view level.
    pub open spec fn spec_empty() -> Map<LabelModel, i64> {
        Map::empty()
    }

    /// No series yet.
    pub fn new() -> (m: Self)
        ensures
            m@ == Self::spec_empty(),
    {
        AdapterEventsTotal { counts: AssocMap::new() }
    }

    /// Add one to the series labelled `(venue, event_type)`.
    pub fn increment(&mut self, venue: &str, event_type: &str)
        ensures
            final(self)@ == old(self)@.insert((venue@, event_type@), bumped(old(self)@, (venue@, event_type@))),
    {
        let key = (venue.to_owned(), event_type.to_owned());
        let cur: i64 = match self.counts.get(&key) {
            Some(c) => *c,
            None => 0,
        };
        let next: i64 = if cur < i64::MAX {
            cur + 1
        } else {
            cur
        };
        self.counts.set(key, next);
    }

    /// The count of the series labelled `(venue, event_type)`; zero if the
    /// series was never incremented.
    pub fn get(&self, venue: &str, event_type: &str) -> (r: i64)
        ensures
            r == counter_value(self@, (venue@, event_type@)),
    {
        let key = (venue.to_owned(), event_type.to_owned());
        match self.counts.get(&key) {
            Some(c) => *c,
            None => 0,
        }
    }
}

/// `strategy_signals_total{strategy,venue}`: how many signals each strategy
/// generated, by venue.
pub struct StrategySignalsTotal {
    counts: AssocMap<(String, String), i64>,
}

impl View for StrategySignalsTotal {
    type V = Map<LabelModel, i64>;

    closed spec fn view(&self) -> Map<LabelModel, i64> {
        self.counts@
    }
}

impl StrategySignalsTotal {
    /// The empty counter map, at the view level.
    pub open spec fn spec_empty() -> Map<LabelModel, i64> {
        Map::empty()
    }

    /// No series yet.
    pub fn new() -> (m: Self)
        ensures
            m@ == Self::spec_empty(),
    {
        StrategySignalsTotal { counts: AssocMap::new() }
    }

    /// Add one to the series labelled `(strategy_name, signal_type)`.
    pub fn increment(&mut self, strategy_name: &str, signal_type: &str)
        ensures
            final(self)@ == old(self)@.insert((strategy_name@, signal_type@), bumped(old(self)@, (strategy_name@, signal_type@))),
    {
        let key = (strategy_name.to_owned(), signal_type.to_owned());
        let cur: i64 = match self.counts.get(&key) {
            Some(c) => *c,
            None => 0,
        };
        let next: i64 = if cur < i64::MAX {
            cur + 1
        } else {
            cur
        };
        self.counts.set(key, next);
    }

    /// The count of the series labelled `(strategy_name, signal_type)`;
    /// zero if the series was never incremented.
    pub fn get(&self, strategy_name: &str, signal_type: &str) -> (r: i64)
        ensures
            r == counter_value(self@, (strategy_name@, signal_type@)),
    {
        let key = (strategy_name.to_owned(), signal_type.to_owned());
        match self.counts.get(&key) {
            Some(c) => *c,
            None => 0,
        }
    }
}

/// Accumulated latency observations of one series.
#[derive(Clone, Copy, Debug, PartialEq, Eq, Structural)]
pub struct LatencyStats {
    /// How many observations were recorded.
    pub count: u64,
    /// Their sum, in milliseconds, saturating.
    pub total_ms: u64,
}

/// Saturating addition on `u64`.
pub open spec fn sat_add(a: u64, b: u64) -> u64 {
    if a + b <= u64::MAX {
        (a + b) as u64
    } else {
        u64::MAX
    }
}

/// The stats of a series after one observation of `latency_ms`.
pub open spec fn observed(
    m: Map<LabelModel, LatencyStats>,
    k: LabelModel,
    latency_ms: u64,
) -> LatencyStats {
    let cur = if m.contains_key(k) {
        m[k]
    } else {
        LatencyStats { count: 0, total_ms: 0 }
    };
    LatencyStats { count: sat_add(cur.count, 1), total_ms: sat_add(cur.total_ms, latency_ms) }
}

/// The average a series reports: the floor of total over count, zero while
/// nothing was observed.
pub open spec fn average_ms(stats: LatencyStats) -> u64 {
    if stats.count == 0 {
        0
    } else {
        (stats.total_ms as int / stats.count as int) as u64
    }
}

/// `adapter_event_latency_ms{venue,event_type}`: per-series latency sums
/// and counts, from which an average is reported.
pub struct AdapterEventLatencyMs {
    stats: AssocMap<(String, String), LatencyStats>,
}

impl View for AdapterEventLatencyMs {
    type V = Map<LabelModel, LatencyStats>;

    closed spec fn view(&self) -> Map<LabelModel, LatencyStats> {
        self.stats@
    }
}

impl AdapterEventLatencyMs {
    /// The empty stats map, at the view level.
    pub open spec fn spec_empty() -> Map<LabelModel, LatencyStats> {
        Map::empty()
    }

    /// No series yet.
    pub fn new() -> (m: Self)
        ensures
            m@ == Self::spec_empty(),
    {
        AdapterEventLatencyMs { stats: AssocMap::new() }
    }

    /// Record one latency observation for `(venue, event_type)`.
    pub fn observe(&mut self, venue: &str, event_type: &str, latency_ms: u64)
        ensures
            final(self)@ == old(self)@.insert((venue@, event_type@), observed(old(self)@, (venue@, event_type@), latency_ms)),
    {
        let key = (venue.to_owned(), event_type.to_owned());
        let cur: LatencyStats = match self.stats.get(&key) {
            Some(s) => *s,
            None => LatencyStats { count: 0, total_ms: 0 },
        };
        let count = if cur.count < u64::MAX {
            cur.count + 1
        } else {
            cur.count
        };
        let total_ms = if latency_ms <= u64::MAX - cur.total_ms {
            cur.total_ms + latency_ms
        } else {
            u64::MAX
        };
        self.stats.set(key, LatencyStats { count, total_ms });
    }

    /// The average latency of `(venue, event_type)`, if the series exists.
    pub fn avg_ms(&self, venue: &str, event_type: &str) -> (r: Option<u64>)
        ensures
            match r {
                Some(a) => self@.contains_key((venue@, event_type@))
                    && a == average_ms(self@[(venue@, event_type@)]),
                None => !self@.contains_key((venue@, event_type@)),
            },
    {
        let key = (venue.to_owned(), event_type.to_owned());
        match self.stats.get(&key) {
            Some(s) => {
                if s.count == 0 {
                    Some(0)
                } else {
                    Some(s.total_ms / s.count)
                }
            },
            None => None,
        }
    }
}

/// The adapter-side metrics, bundled.
pub struct Metrics {
    /// Events per venue and event type.
    pub adapter_events_total: AdapterEventsTotal,
    /// Event latency per venue and event type.
    pub adapter_event_latency_ms: AdapterEventLatencyMs,
}

impl Metrics {
    /// Fresh metrics: no series yet.
    pub fn new() -> (m: Self)
        ensures
            m.adapter_events_total@ == AdapterEventsTotal::spec_empty(),
            m.adapter_event_latency_ms@ == AdapterEventLatencyMs::spec_empty(),
    {
        Metrics {
            adapter_events_total: AdapterEventsTotal::new(),
            adapter_event_latency_ms: AdapterEventLatencyMs::new(),
        }
    }

    /// Count one event for `(venue, event_type)`.
    pub fn increment_counter(&mut self, venue: &str, event_type: &str)
        ensures
            final(self).adapter_events_total@ == old(self).adapter_events_total@.insert((venue@, event_type@), bumped(old(self).adapter_events_total@, (venue@, event_type@))),
            final(self).adapter_event_latency_ms == old(self).adapter_event_latency_ms,
    {
        self.adapter_events_total.increment(venue, event_type);
    }

    /// Record one latency observation for `(venue, event_type)`.
    pub fn observe_latency(&mut self, venue: &str, event_type: &str, latency_ms: u64)
        ensures
            final(self).adapter_event_latency_ms@ == old(self).adapter_event_latency_ms@.insert((venue@, event_type@), observed(old(self).adapter_event_latency_ms@, (venue@, event_type@), latency_ms)),
            final(self).adapter_events_total == old(self).adapter_events_total,
    {
        self.adapter_event_latency_ms.observe(venue, event_type, latency_ms);
    }
}

} // verus!
