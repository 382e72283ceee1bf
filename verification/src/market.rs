//! Top-of-book snapshot of one token, and the partial-merge rule.

use vstd::prelude::*;
use crate::types::MarketEventModel;

verus! {

/// Model of a market state: `(best_bid, best_ask, volume24h)`.
pub type MarketStateModel = (Option<u64>, Option<u64>, Option<u64>);

/// Lightweight snapshot of the latest market data for one token.
/// Stores only the pricing/volume fields.
#[derive(Clone, Copy, Debug)]
pub struct MarketState {
    /// Best bid, fixed-point, if one has been observed.
    pub best_bid: Option<u64>,
    /// Best ask, fixed-point, if one has been observed.
    pub best_ask: Option<u64>,
    /// 24-hour volume, if one has been observed.
    pub volume24h: Option<u64>,
}

impl View for MarketState {
    type V = MarketStateModel;

    open spec fn view(&self) -> MarketStateModel {
        (self.best_bid, self.best_ask, self.volume24h)
    }
}

/// The partial-merge rule: fields present in `update` overwrite, fields
/// absent in `update` keep the existing value. A present field is never
/// overwritten by an absent one.
pub open spec fn merge_state(existing: MarketStateModel, update: MarketStateModel)
    -> MarketStateModel {
    (
        if update.0 is Some { update.0 } else { existing.0 },
        if update.1 is Some { update.1 } else { existing.1 },
        if update.2 is Some { update.2 } else { existing.2 },
    )
}

/// The partial state that an event projects into the cache: whichever of
/// `best_bid`, `best_ask`, `volume24h` the event carried.
pub open spec fn project_event(e: MarketEventModel) -> MarketStateModel {
    (e.best_bid, e.best_ask, e.volume24h)
}

impl MarketState {
    /// An empty snapshot: no field observed yet.
    pub fn empty() -> (s: MarketState)
        ensures
            s@ == (None::<u64>, None::<u64>, None::<u64>),
    {
        MarketState { best_bid: None, best_ask: None, volume24h: None }
    }

    /// Merge a partial update into this state.
    /// Only overwrites fields that are `Some` in `update`; leaves others
    /// unchanged.
    pub fn merge(&mut self, update: &MarketState)
        ensures
            final(self)@ == merge_state(old(self)@, update@),
    {
        if update.best_bid.is_some() {
            self.best_bid = update.best_bid;
        }
        if update.best_ask.is_some() {
            self.best_ask = update.best_ask;
        }
        if update.volume24h.is_some() {
            self.volume24h = update.volume24h;
        }
    }
}

} // verus!
