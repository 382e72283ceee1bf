//! The venue-sharded router: venues are discovered by observation, and a
//! worker is spawned on first sight of each venue.
//!
//! The router's lanes are bounded queues owned by the embedder (capacity
//! [`crate::queue::LANE_CAPACITY`], blocking send); the routing decision —
//! which venue's lane, and whether a worker must first be spawned — is made
//! here.

use vstd::prelude::*;
use crate::types::{Venue, MarketEvent};

verus! {

/// What the router must do with an event.
#[derive(Clone, Copy, Debug, PartialEq, Eq, Structural)]
pub enum RouteAction {
    /// First event of its venue: create the venue's lane, spawn one market
    /// worker consuming it, then forward the event to that lane.
    SpawnWorkerAndForward,
    /// The venue's lane exists: forward the event to it, with backpressure.
    Forward,
}

/// The router's state: which venues have a lane and a worker.
pub struct RouterState {
    seen: Vec<Venue>,
}

impl View for RouterState {
    type V = Set<Venue>;

    closed spec fn view(&self) -> Set<Venue> {
        self.seen@.to_set()
    }
}

impl RouterState {
    /// The empty venue set, at the view level.
    pub open spec fn spec_empty() -> Set<Venue> {
        Set::empty()
    }

    /// A fresh router: no venue seen, no worker spawned.
    pub fn new() -> (r: RouterState)
        ensures
            r@ == Self::spec_empty(),
    {
        RouterState { seen: Vec::new() }
    }

    /// Whether the venue's lane exists.
    pub fn knows(&self, venue: &Venue) -> (r: bool)
        ensures
            r == self@.contains(*venue),
    {
        let n = self.seen.len();
        let mut i: usize = 0;
        while i < n
            invariant
                n == self.seen@.len(),
                i <= n,
                forall|j: int| 0 <= j < i ==> self.seen@[j] != *venue,
            decreases n - i,
        {
            if self.seen[i] == *venue {
                proof {
                    assert(self.seen@.contains(*venue));
                }
                return true;
            }
            i += 1;
        }
        proof {
            if self.seen@.contains(*venue) {
                let j = choose|j: int| 0 <= j < self.seen@.len() && self.seen@[j] == *venue;
                assert(false);
            }
        }
        false
    }

    /// Route one event: on first sight of its venue the router must create
    /// the lane and spawn a worker; afterwards the event is forwarded to
    /// the venue's lane either way.
    pub fn route(&mut self, event: &MarketEvent) -> (action: RouteAction)
        ensures
            action == (if old(self)@.contains(event.venue) {
                RouteAction::Forward
            } else {
                RouteAction::SpawnWorkerAndForward
            }),
            final(self)@ == old(self)@.insert(event.venue),
    {
        if self.knows(&event.venue) {
            proof {
                assert(self@.insert(event.venue) =~= self@);
            }
            RouteAction::Forward
        } else {
            self.seen.push(event.venue);
            proof {
                assert(self.seen@.drop_last() =~= old(self).seen@);
                assert(self.seen@.to_set() =~= old(self).seen@.to_set().insert(event.venue)) by {
                    assert forall|v: Venue| self.seen@.to_set().contains(v)
                        implies old(self).seen@.to_set().insert(event.venue).contains(v) by {
                        let j = choose|j: int| 0 <= j < self.seen@.len() && self.seen@[j] == v;
                        if j < self.seen@.len() - 1 {
                            assert(old(self).seen@[j] == v);
                            assert(old(self).seen@.contains(v));
                        }
                    }
                    assert forall|v: Venue| old(self).seen@.to_set().insert(event.venue).contains(v)
                        implies self.seen@.to_set().contains(v) by {
                        if v == event.venue {
                            assert(self.seen@[self.seen@.len() - 1] == v);
                            assert(self.seen@.contains(v));
                        } else {
                            let j = choose|j: int| 0 <= j < old(self).seen@.len()
                                && old(self).seen@[j] == v;
                            assert(self.seen@[j] == v);
                            assert(self.seen@.contains(v));
                        }
                    }
                }
            }
            RouteAction::SpawnWorkerAndForward
        }
    }
}

} // verus!
