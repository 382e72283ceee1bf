//! The concurrent market-state cache: `(venue, token_id)` to the latest
//! top-of-book snapshot, with upsert-merge semantics.
//!
//! The store is a `dashmap::DashMap`; its contents are modelled by
//! [`dash_contents`] and every operation on it goes through a trusted
//! wrapper whose contract states what the call does to that model.
//!
//! Writes take `&mut self`: the verifier tracks mutation only through
//! exclusive references, so the map's interior mutability is not exposed
//! here. Under that exclusivity [`MarketCache::update_partial`] may read
//! and then insert, where the original upsert holds dashmap's per-entry
//! lock across the merge; the two coincide because the `&mut` borrow
//! already serializes all access. An embedder that shares one cache across
//! tasks must therefore wrap it in a lock of its own — coarser than the
//! per-shard locking dashmap gives code that shares the raw map.

use vstd::prelude::*;
use dashmap::DashMap;
use crate::types::{Venue, MarketKey, MarketKeyModel, venue_id};
use crate::market::{MarketState, MarketStateModel, merge_state};

verus! {

#[verifier::external_type_specification]
#[verifier::external_body]
#[verifier::reject_recursive_types(K)]
#[verifier::reject_recursive_types(V)]
#[verifier::reject_recursive_types(S)]
pub struct ExDashMap<K, V, S>(DashMap<K, V, S>);

/// The entries that a `DashMap` store holds, as a map from plain key tuples
/// to plain state tuples.
pub uninterp spec fn dash_contents(m: DashMap<MarketKey, MarketState>)
    -> Map<MarketKeyModel, MarketStateModel>;

/// The empty cache model.
pub open spec fn empty_model() -> Map<MarketKeyModel, MarketStateModel> {
    Map::empty()
}

/// Relies on `dashmap::DashMap::new`: creates an empty map.
#[verifier::external_body]
fn dash_new() -> (created: DashMap<MarketKey, MarketState>)
    ensures
        dash_contents(created) == empty_model(),
{
    DashMap::new()
}

/// Relies on `dashmap::DashMap::insert`: maps the key to the value and
/// leaves every other key unchanged.
#[verifier::external_body]
fn dash_insert(m: &mut DashMap<MarketKey, MarketState>, key: MarketKey, value: MarketState)
    ensures
        dash_contents(*final(m)) == dash_contents(*old(m)).insert(key@, value@),
{
    m.insert(key, value);
}

/// Relies on `dashmap::DashMap::get`: returns the value mapped to the key,
/// if any. The guard it hands back is turned into a clone of the value.
#[verifier::external_body]
fn dash_get(m: &DashMap<MarketKey, MarketState>, key: &MarketKey) -> (r: Option<MarketState>)
    ensures
        match r {
            Some(s) => dash_contents(*m).contains_key(key@)
                && s@ == dash_contents(*m)[key@],
            None => !dash_contents(*m).contains_key(key@),
        },
{
    m.get(key).map(|entry| *entry.value())
}

/// Relies on `dashmap::DashMap::iter`: visits every entry exactly once, in
/// no promised order. Each entry is handed out as a cloned pair.
#[verifier::external_body]
fn dash_entries(m: &DashMap<MarketKey, MarketState>) -> (r: Vec<(MarketKey, MarketState)>)
    ensures
        forall|i: int| 0 <= i < r@.len()
            ==> dash_contents(*m).contains_key((#[trigger] r@[i]).0@)
                && r@[i].1@ == dash_contents(*m)[r@[i].0@],
        forall|i: int, j: int| 0 <= i < j < r@.len() ==> (#[trigger] r@[i]).0@ != (#[trigger] r@[j]).0@,
        forall|k: MarketKeyModel| dash_contents(*m).contains_key(k)
            ==> exists|i: int| 0 <= i < r@.len() && (#[trigger] r@[i]).0@ == k,
{
    m.iter().map(|entry| (entry.key().clone(), *entry.value())).collect()
}

/// The state an upsert leaves under a key: the merge of the existing entry
/// with the update, or the update itself where no entry exists.
pub open spec fn upsert_state(
    m: Map<MarketKeyModel, MarketStateModel>,
    k: MarketKeyModel,
    update: MarketStateModel,
) -> MarketStateModel {
    if m.contains_key(k) {
        merge_state(m[k], update)
    } else {
        update
    }
}

/// Market cache: a mapping from `MarketKey` to the latest top-of-book
/// snapshot. Workers write, the strategy engine reads.
#[derive(Debug)]
pub struct MarketCache {
    map: DashMap<MarketKey, MarketState>,
}

/// Shared handle to the cache.
pub type MarketCacheHandle = MarketCache;

impl View for MarketCache {
    type V = Map<MarketKeyModel, MarketStateModel>;

    closed spec fn view(&self) -> Map<MarketKeyModel, MarketStateModel> {
        dash_contents(self.map)
    }
}

impl MarketCache {
    /// An empty cache.
    pub fn new() -> (c: MarketCache)
        ensures
            c@ == empty_model(),
    {
        MarketCache { map: dash_new() }
    }

    /// Replace the entry under `key` with `state`, inserting if absent.
    pub fn update_market_state(&mut self, key: MarketKey, state: MarketState)
        ensures
            final(self)@ == old(self)@.insert(key@, state@),
    {
        dash_insert(&mut self.map, key, state);
    }

    /// Merge a partial update into an existing entry, or insert it as-is if
    /// no entry exists. Only overwrites fields that are `Some` in `update`.
    /// The read-then-insert is atomic to every observer because `&mut self`
    /// excludes them for the call's duration (see the module note).
    pub fn update_partial(&mut self, key: MarketKey, update: MarketState)
        ensures
            final(self)@ == old(self)@.insert(key@, upsert_state(old(self)@, key@, update@)),
    {
        let merged = match dash_get(&self.map, &key) {
            Some(mut existing) => {
                existing.merge(&update);
                existing
            },
            None => update,
        };
        dash_insert(&mut self.map, key, merged);
    }

    /// Snapshot of the entry under `key`, if any.
    pub fn get_market_state(&self, key: &MarketKey) -> (r: Option<MarketState>)
        ensures
            match r {
                Some(s) => self@.contains_key(key@) && s@ == self@[key@],
                None => !self@.contains_key(key@),
            },
    {
        dash_get(&self.map, key)
    }

    /// Every entry whose key belongs to `venue`, by linear scan, in no
    /// promised order.
    pub fn get_markets_by_venue(&self, venue: &Venue) -> (r: Vec<(MarketKey, MarketState)>)
        ensures
            forall|i: int| 0 <= i < r@.len()
                ==> (#[trigger] r@[i]).0.0 == *venue
                    && self@.contains_key(r@[i].0@)
                    && r@[i].1@ == self@[r@[i].0@],
            forall|i: int, j: int| 0 <= i < j < r@.len()
                ==> (#[trigger] r@[i]).0@ != (#[trigger] r@[j]).0@,
            forall|k: MarketKeyModel| self@.contains_key(k) && k.0 == venue_id(*venue)
                ==> exists|i: int| 0 <= i < r@.len() && (#[trigger] r@[i]).0@ == k,
    {
        let entries = dash_entries(&self.map);
        let mut out: Vec<(MarketKey, MarketState)> = Vec::new();
        let ghost all = entries@;
        let mut idx: usize = 0;
        while idx < entries.len()
            invariant
                idx <= entries.len(),
                entries@ == all,
                forall|i: int| 0 <= i < all.len()
                    ==> dash_contents(self.map).contains_key((#[trigger] all[i]).0@)
                        && all[i].1@ == dash_contents(self.map)[all[i].0@],
                forall|i: int, j: int| 0 <= i < j < all.len()
                    ==> (#[trigger] all[i]).0@ != (#[trigger] all[j]).0@,
                forall|k: MarketKeyModel| dash_contents(self.map).contains_key(k)
                    ==> exists|i: int| 0 <= i < all.len() && (#[trigger] all[i]).0@ == k,
                forall|i: int| 0 <= i < out@.len()
                    ==> (#[trigger] out@[i]).0.0 == *venue
                        && dash_contents(self.map).contains_key(out@[i].0@)
                        && out@[i].1@ == dash_contents(self.map)[out@[i].0@],
                forall|i: int, j: int| 0 <= i < j < out@.len()
                    ==> (#[trigger] out@[i]).0@ != (#[trigger] out@[j]).0@,
                // out holds exactly the venue's entries among the first idx
                forall|i: int| 0 <= i < idx ==> ((#[trigger] all[i]).0.0 == *venue
                    ==> exists|j: int| 0 <= j < out@.len() && (#[trigger] out@[j]).0@ == all[i].0@),
                forall|j: int| 0 <= j < out@.len()
                    ==> exists|i: int| 0 <= i < idx && (#[trigger] out@[j]).0@ == all[i].0@,
            decreases entries.len() - idx,
        {
            let entry = &entries[idx];
            let ghost prev = out@;
            if entry.0.0 == *venue {
                out.push((entry.0.duplicate(), entry.1));
            }
            proof {
                assert forall|i: int| 0 <= i < idx + 1 implies ((#[trigger] all[i]).0.0 == *venue
                    ==> exists|j: int| 0 <= j < out@.len() && (#[trigger] out@[j]).0@ == all[i].0@) by {
                    if all[i].0.0 == *venue {
                        if i < idx {
                            let j = choose|j: int| 0 <= j < prev.len()
                                && (#[trigger] prev[j]).0@ == all[i].0@;
                            assert(out@[j].0@ == all[i].0@);
                        } else {
                            assert(out@[out@.len() - 1].0@ == all[i].0@);
                        }
                    }
                }
            }
            idx += 1;
        }
        proof {
            assert forall|k: MarketKeyModel|
                self@.contains_key(k) && k.0 == venue_id(*venue)
                implies exists|i: int| 0 <= i < out@.len() && (#[trigger] out@[i]).0@ == k by {
                let i = choose|i: int| 0 <= i < all.len() && (#[trigger] all[i]).0@ == k;
                assert(venue_id(all[i].0.0) == k.0);
                assert(all[i].0.0 == *venue) by {
                    if all[i].0.0 != *venue {
                        assert(venue_id(all[i].0.0) != venue_id(*venue));
                    }
                }
            }
        }
        out
    }
}

/// Merge a partial market state update into the cache.
/// Only overwrites fields present in the incoming state; preserves existing
/// values otherwise.
pub fn insert(handle: &mut MarketCacheHandle, key: MarketKey, state: MarketState)
    ensures
        final(handle)@ == old(handle)@.insert(key@, upsert_state(old(handle)@, key@, state@)),
{
    handle.update_partial(key, state);
}

} // verus!
