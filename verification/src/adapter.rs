//! Venue adapter startup and event translation: catalog filtering, the two
//! immutable lookup tables, and the projection of stream payloads into
//! market events.

use vstd::prelude::*;
use crate::types::{Venue, Side, MarketEvent, MarketEventKind, MarketEventModel, MarketInfo, MarketInfoModel};
use crate::assoc::AssocMap;

verus! {

/// Smallest 24-hour volume of an eligible market.
pub const MIN_VOLUME_24H: u64 = 100_000;

/// Smallest liquidity of an eligible market.
pub const MIN_LIQUIDITY: u64 = 10_000;

/// Model of a catalog row.
pub ghost struct RawMarketModel {
    pub id: Seq<char>,
    pub question: Seq<char>,
    pub active: bool,
    pub closed: bool,
    pub archived: bool,
    pub token_ids: Seq<Seq<char>>,
    pub outcome_prices: Seq<u64>,
    pub volume24h: u64,
    pub liquidity: u64,
    pub neg_risk: bool,
}

/// One row of the venue's market catalog, as the venue driver hands it
/// over: flags, the outcome token ids, outcome prices (fixed-point), and
/// the volume and liquidity figures the eligibility rule reads.
#[derive(Clone, Debug)]
pub struct RawMarket {
    /// The market's id.
    pub id: String,
    /// The market's question text.
    pub question: String,
    pub active: bool,
    pub closed: bool,
    pub archived: bool,
    /// The outcome token ids; an eligible market has exactly two.
    pub clob_token_ids: Vec<String>,
    /// Outcome prices, fixed-point.
    pub outcome_prices: Vec<u64>,
    /// 24-hour volume.
    pub volume24h: u64,
    /// Liquidity.
    pub liquidity: u64,
    /// The venue's negative-risk flag for this market.
    pub neg_risk: bool,
}

impl View for RawMarket {
    type V = RawMarketModel;

    open spec fn view(&self) -> RawMarketModel {
        RawMarketModel {
            id: self.id@,
            question: self.question@,
            active: self.active,
            closed: self.closed,
            archived: self.archived,
            token_ids: self.clob_token_ids.deep_view(),
            outcome_prices: self.outcome_prices@,
            volume24h: self.volume24h,
            liquidity: self.liquidity,
            neg_risk: self.neg_risk,
        }
    }
}

/// The eligibility rule: active, not closed, not archived, exactly two
/// outcome token ids, at least one outcome price strictly positive, 24-hour
/// volume and liquidity above their floors. Rejected markets are silently
/// skipped.
pub open spec fn eligible(m: RawMarketModel) -> bool {
    &&& m.active
    &&& !m.closed
    &&& !m.archived
    &&& m.token_ids.len() == 2
    &&& has_positive(m.outcome_prices)
    &&& m.volume24h >= MIN_VOLUME_24H
    &&& m.liquidity >= MIN_LIQUIDITY
}

/// The metadata an eligible catalog row contributes: its question, its two
/// token ids in YES, NO order, and its negative-risk flag.
pub open spec fn info_of(m: RawMarketModel) -> MarketInfoModel {
    MarketInfoModel {
        question: m.question,
        yes_token_id: m.token_ids[0],
        no_token_id: m.token_ids[1],
        neg_risk: m.neg_risk,
    }
}

/// Whether the sequence holds a strictly positive price.
pub open spec fn has_positive(prices: Seq<u64>) -> bool {
    exists|i: int| 0 <= i < prices.len() && prices[i] > 0
}

/// Whether any price in the list is strictly positive.
fn any_positive(prices: &Vec<u64>) -> (r: bool)
    ensures
        r == has_positive(prices@),
{
    let n = prices.len();
    let mut i: usize = 0;
    while i < n
        invariant
            n == prices@.len(),
            i <= n,
            forall|j: int| 0 <= j < i ==> prices@[j] == 0,
        decreases n - i,
    {
        if prices[i] > 0 {
            proof {
                assert(0 <= i < prices@.len() && prices@[i as int] > 0);
            }
            return true;
        }
        i += 1;
    }
    false
}

/// Whether a catalog row passes the eligibility rule.
pub fn is_eligible(m: &RawMarket) -> (r: bool)
    ensures
        r == eligible(m@),
{
    let flags_ok = m.active && !m.closed && !m.archived;
    let two_tokens = m.clob_token_ids.len() == 2;
    let liquid = m.volume24h >= MIN_VOLUME_24H && m.liquidity >= MIN_LIQUIDITY;
    let priced = any_positive(&m.outcome_prices);
    proof {
        assert(m@.token_ids.len() == m.clob_token_ids@.len());
    }
    flags_ok && two_tokens && liquid && priced
}

/// The immutable table from market id to [`MarketInfo`], built once at
/// adapter startup and shared read-only.
pub struct MarketMap {
    map: AssocMap<String, MarketInfo>,
}

impl View for MarketMap {
    type V = Map<Seq<char>, MarketInfo>;

    closed spec fn view(&self) -> Map<Seq<char>, MarketInfo> {
        self.map@
    }
}

impl MarketMap {
    /// The empty table, at the view level.
    pub open spec fn spec_empty() -> Map<Seq<char>, MarketInfo> {
        Map::empty()
    }

    /// An empty table.
    pub fn new() -> (m: Self)
        ensures
            m@ == Self::spec_empty(),
    {
        MarketMap { map: AssocMap::new() }
    }

    /// The metadata of `market_id`, if the market was admitted.
    pub fn get<'a>(&'a self, market_id: &String) -> (r: Option<&'a MarketInfo>)
        ensures
            match r {
                Some(info) => self@.contains_key(market_id@) && *info == self@[market_id@],
                None => !self@.contains_key(market_id@),
            },
    {
        self.map.get(market_id)
    }

    /// How many markets were admitted.
    pub fn len(&self) -> (n: usize)
        ensures
            n == self@.dom().len(),
    {
        self.map.len()
    }
}

/// The immutable table from outcome token id back to its market id, built
/// once at adapter startup and shared read-only.
pub struct TokenToMarket {
    map: AssocMap<String, String>,
}

impl View for TokenToMarket {
    type V = Map<Seq<char>, String>;

    closed spec fn view(&self) -> Map<Seq<char>, String> {
        self.map@
    }
}

impl TokenToMarket {
    /// The empty table, at the view level.
    pub open spec fn spec_empty() -> Map<Seq<char>, String> {
        Map::empty()
    }

    /// An empty table.
    pub fn new() -> (m: Self)
        ensures
            m@ == Self::spec_empty(),
    {
        TokenToMarket { map: AssocMap::new() }
    }

    /// The market that `token_id` belongs to, if any.
    pub fn get<'a>(&'a self, token_id: &String) -> (r: Option<&'a String>)
        ensures
            match r {
                Some(mid) => self@.contains_key(token_id@) && *mid == self@[token_id@],
                None => !self@.contains_key(token_id@),
            },
    {
        self.map.get(token_id)
    }

    /// How many token ids are mapped.
    pub fn len(&self) -> (n: usize)
        ensures
            n == self@.dom().len(),
    {
        self.map.len()
    }
}

/// The tables are linked: for every market id in the market map, both its
/// outcome token ids appear in the token table and map back to that market.
pub open spec fn tables_linked(
    mm: Map<Seq<char>, MarketInfo>,
    tm: Map<Seq<char>, String>,
) -> bool {
    forall|mid: Seq<char>| #[trigger] mm.contains_key(mid) ==> {
        let info = mm[mid]@;
        &&& tm.contains_key(info.yes_token_id) && tm[info.yes_token_id]@ == mid
        &&& tm.contains_key(info.no_token_id) && tm[info.no_token_id]@ == mid
    }
}

/// Every token table entry points at an admitted market that lists it.
pub open spec fn tokens_sound(
    mm: Map<Seq<char>, MarketInfo>,
    tm: Map<Seq<char>, String>,
) -> bool {
    forall|tok: Seq<char>| #[trigger] tm.contains_key(tok) ==> {
        let mid = tm[tok]@;
        &&& mm.contains_key(mid)
        &&& (mm[mid]@.yes_token_id == tok || mm[mid]@.no_token_id == tok)
    }
}

/// Every admitted market is an eligible catalog row among the first `k`,
/// carried over exactly.
pub open spec fn markets_sound_upto(
    c: Seq<RawMarketModel>,
    k: int,
    mm: Map<Seq<char>, MarketInfo>,
) -> bool {
    forall|mid: Seq<char>| #[trigger] mm.contains_key(mid)
        ==> exists|i: int| 0 <= i < k && eligible(#[trigger] c[i]) && c[i].id == mid
            && mm[mid]@ == info_of(c[i])
}

/// Every admitted market is an eligible catalog row, carried over exactly.
pub open spec fn markets_sound(
    c: Seq<RawMarketModel>,
    mm: Map<Seq<char>, MarketInfo>,
) -> bool {
    markets_sound_upto(c, c.len() as int, mm)
}

/// No two eligible catalog rows share a market id or an outcome token id.
pub open spec fn catalog_distinct(c: Seq<RawMarketModel>) -> bool {
    forall|i: int, j: int| 0 <= i < c.len() && 0 <= j < c.len() && i != j
        && eligible(#[trigger] c[i]) && eligible(#[trigger] c[j])
        ==> c[i].id != c[j].id
            && c[i].token_ids[0] != c[j].token_ids[0]
            && c[i].token_ids[0] != c[j].token_ids[1]
            && c[i].token_ids[1] != c[j].token_ids[0]
            && c[i].token_ids[1] != c[j].token_ids[1]
}

/// The views of a catalog's rows.
pub open spec fn catalog_model(catalog: Seq<RawMarket>) -> Seq<RawMarketModel> {
    catalog.map_values(|m: RawMarket| m@)
}

/// Build the two lookup tables from the venue's catalog: eligible rows are
/// admitted, everything else is silently skipped, and a row whose market id
/// or token ids were already taken is skipped to keep the tables linked.
/// Where the catalog's eligible rows are pairwise distinct — the real case —
/// nothing eligible is skipped.
pub fn build_market_tables(catalog: &Vec<RawMarket>) -> (r: (MarketMap, TokenToMarket))
    ensures
        tables_linked(r.0@, r.1@),
        tokens_sound(r.0@, r.1@),
        markets_sound(catalog_model(catalog@), r.0@),
        catalog_distinct(catalog_model(catalog@)) ==> forall|i: int|
            0 <= i < catalog@.len() && eligible(#[trigger] catalog_model(catalog@)[i])
                ==> r.0@.contains_key(catalog_model(catalog@)[i].id),
{
    let ghost c = catalog_model(catalog@);
    let mut mm = MarketMap::new();
    let mut tm = TokenToMarket::new();
    let n = catalog.len();
    let mut idx: usize = 0;
    while idx < n
        invariant
            n == catalog@.len(),
            idx <= n,
            c == catalog_model(catalog@),
            c.len() == n,
            forall|i: int| 0 <= i < n ==> c[i] == catalog@[i]@,
            tables_linked(mm@, tm@),
            tokens_sound(mm@, tm@),
            markets_sound_upto(c, idx as int, mm@),
            catalog_distinct(c) ==> forall|i: int|
                0 <= i < idx && eligible(#[trigger] c[i]) ==> mm@.contains_key(c[i].id),
        decreases n - idx,
    {
        let row = &catalog[idx];
        let row_ok = is_eligible(row);
        let ghost mm0 = mm@;
        let ghost tm0 = tm@;
        let mut admitted = false;
        if row_ok {
            let yes = &row.clob_token_ids[0];
            let no = &row.clob_token_ids[1];
            let fresh = !mm.contains_id(&row.id) && !tm.contains_token(yes)
                && !tm.contains_token(no);
            if fresh {
                let info = MarketInfo {
                    question: row.question.clone(),
                    yes_token_id: yes.clone(),
                    no_token_id: no.clone(),
                    neg_risk: row.neg_risk,
                };
                let yes_key = yes.clone();
                let no_key = no.clone();
                let mid_key = row.id.clone();
                let mid_yes = row.id.clone();
                let mid_no = row.id.clone();
                let ghost ginfo = info;
                let ghost gyes = mid_yes;
                let ghost gno = mid_no;
                mm.set_info(mid_key, info);
                tm.set_token(yes_key, mid_yes);
                tm.set_token(no_key, mid_no);
                proof {
                    assert(row@ == c[idx as int]);
                    lemma_admit_row(c, idx as int, mm0, tm0, mm@, tm@, ginfo, gyes, gno);
                }
                admitted = true;
            }
        }
        proof {
            if !admitted {
                assert(mm@ == mm0);
                assert(markets_sound_upto(c, idx + 1, mm@)) by {
                    assert forall|mid: Seq<char>| #[trigger] mm@.contains_key(mid)
                        implies exists|i: int| 0 <= i < idx + 1 && eligible(#[trigger] c[i])
                            && c[i].id == mid && mm@[mid]@ == info_of(c[i]) by {
                        let i = choose|i: int| 0 <= i < idx && eligible(#[trigger] c[i])
                            && c[i].id == mid && mm@[mid]@ == info_of(c[i]);
                        assert(0 <= i < idx + 1 && eligible(c[i]) && c[i].id == mid
                            && mm@[mid]@ == info_of(c[i]));
                    }
                }
            }
            if catalog_distinct(c) && eligible(c[idx as int]) {
                // a distinct catalog never collides, so the row was admitted
                assert(admitted) by {
                    if !admitted {
                        let row_m = c[idx as int];
                        if mm0.contains_key(row_m.id) {
                            let j = choose|j: int| 0 <= j < idx && eligible(#[trigger] c[j])
                                && c[j].id == row_m.id && mm0[row_m.id]@ == info_of(c[j]);
                            assert(c[j].id != c[idx as int].id);
                            assert(false);
                        }
                        if tm0.contains_key(row_m.token_ids[0]) {
                            let owner = tm0[row_m.token_ids[0]]@;
                            assert(mm0.contains_key(owner));
                            let j = choose|j: int| 0 <= j < idx && eligible(#[trigger] c[j])
                                && c[j].id == owner && mm0[owner]@ == info_of(c[j]);
                            assert(c[j].token_ids[0] == row_m.token_ids[0]
                                || c[j].token_ids[1] == row_m.token_ids[0]);
                            assert(false);
                        }
                        if tm0.contains_key(row_m.token_ids[1]) {
                            let owner = tm0[row_m.token_ids[1]]@;
                            assert(mm0.contains_key(owner));
                            let j = choose|j: int| 0 <= j < idx && eligible(#[trigger] c[j])
                                && c[j].id == owner && mm0[owner]@ == info_of(c[j]);
                            assert(c[j].token_ids[0] == row_m.token_ids[1]
                                || c[j].token_ids[1] == row_m.token_ids[1]);
                            assert(false);
                        }
                        assert(false);
                    }
                }
            }
        }
        idx += 1;
    }
    (mm, tm)
}

/// Admitting one fresh eligible row preserves linkage and soundness of the
/// tables, and admits exactly that row.
proof fn lemma_admit_row(
    c: Seq<RawMarketModel>,
    idx: int,
    mm0: Map<Seq<char>, MarketInfo>,
    tm0: Map<Seq<char>, String>,
    mm1: Map<Seq<char>, MarketInfo>,
    tm1: Map<Seq<char>, String>,
    info: MarketInfo,
    y: String,
    n: String,
)
    requires
        0 <= idx < c.len(),
        eligible(c[idx]),
        tables_linked(mm0, tm0),
        tokens_sound(mm0, tm0),
        markets_sound_upto(c, idx, mm0),
        !mm0.contains_key(c[idx].id),
        !tm0.contains_key(c[idx].token_ids[0]),
        !tm0.contains_key(c[idx].token_ids[1]),
        mm1 == mm0.insert(c[idx].id, info),
        info@ == info_of(c[idx]),
        tm1 == tm0.insert(c[idx].token_ids[0], y).insert(c[idx].token_ids[1], n),
        y@ == c[idx].id,
        n@ == c[idx].id,
    ensures
        tables_linked(mm1, tm1),
        tokens_sound(mm1, tm1),
        markets_sound_upto(c, idx + 1, mm1),
        mm1.contains_key(c[idx].id),
        forall|mid: Seq<char>| mm0.contains_key(mid) ==> mm1.contains_key(mid),
{
    assert forall|mid: Seq<char>| #[trigger] mm1.contains_key(mid) implies ({
        let i = mm1[mid]@;
        &&& tm1.contains_key(i.yes_token_id) && tm1[i.yes_token_id]@ == mid
        &&& tm1.contains_key(i.no_token_id) && tm1[i.no_token_id]@ == mid
    }) by {
        if mid == c[idx].id {
        } else {
            assert(mm0.contains_key(mid));
            assert(tm0.contains_key(mm0[mid]@.yes_token_id));
            assert(tm0.contains_key(mm0[mid]@.no_token_id));
        }
    }
    assert forall|tok: Seq<char>| #[trigger] tm1.contains_key(tok) implies ({
        let mid = tm1[tok]@;
        &&& mm1.contains_key(mid)
        &&& (mm1[mid]@.yes_token_id == tok || mm1[mid]@.no_token_id == tok)
    }) by {
        if tok == c[idx].token_ids[0] || tok == c[idx].token_ids[1] {
        } else {
            assert(tm0.contains_key(tok));
            assert(mm0.contains_key(tm0[tok]@));
        }
    }
    assert forall|mid: Seq<char>| #[trigger] mm1.contains_key(mid)
        implies exists|i: int| 0 <= i < idx + 1 && eligible(#[trigger] c[i]) && c[i].id == mid
            && mm1[mid]@ == info_of(c[i]) by {
        if mid == c[idx].id {
            assert(0 <= idx < idx + 1 && eligible(c[idx]) && c[idx].id == mid
                && mm1[mid]@ == info_of(c[idx]));
        } else {
            let i = choose|i: int| 0 <= i < idx && eligible(#[trigger] c[i]) && c[i].id == mid
                && mm0[mid]@ == info_of(c[i]);
            assert(0 <= i < idx + 1 && eligible(c[i]) && c[i].id == mid
                && mm1[mid]@ == info_of(c[i]));
        }
    }
}

impl MarketMap {
    /// Whether `market_id` was already admitted.
    fn contains_id(&self, market_id: &String) -> (r: bool)
        ensures
            r == self@.contains_key(market_id@),
    {
        self.map.contains_key(market_id)
    }

    /// Admit a market.
    fn set_info(&mut self, market_id: String, info: MarketInfo)
        ensures
            final(self)@ == old(self)@.insert(market_id@, info),
    {
        self.map.set(market_id, info);
    }
}

impl TokenToMarket {
    /// Whether `token_id` is already mapped.
    fn contains_token(&self, token_id: &String) -> (r: bool)
        ensures
            r == self@.contains_key(token_id@),
    {
        self.map.contains_key(token_id)
    }

    /// Map a token to its market.
    fn set_token(&mut self, token_id: String, market_id: String)
        ensures
            final(self)@ == old(self)@.insert(token_id@, market_id),
    {
        self.map.set(token_id, market_id);
    }
}

/// Model of one per-leg update of a price-change payload.
pub ghost struct PriceChangeModel {
    pub asset_id: Seq<char>,
    pub side: Side,
    pub price: u64,
}

/// One per-leg update of a stream price-change payload, keyed by asset id.
#[derive(Clone, Debug)]
pub struct PriceChange {
    /// The outcome token the update is for.
    pub asset_id: String,
    /// Which side of the book changed.
    pub side: Side,
    /// The new best price on that side, fixed-point.
    pub price: u64,
}

impl View for PriceChange {
    type V = PriceChangeModel;

    open spec fn view(&self) -> PriceChangeModel {
        PriceChangeModel { asset_id: self.asset_id@, side: self.side, price: self.price }
    }
}

/// The views of a payload's legs.
pub open spec fn payload_model(payload: Seq<PriceChange>) -> Seq<PriceChangeModel> {
    payload.map_values(|p: PriceChange| p@)
}

/// The price of the first leg on the given side, if any.
pub open spec fn first_price(legs: Seq<PriceChangeModel>, side: Side) -> Option<u64>
    decreases legs.len(),
{
    if legs.len() == 0 {
        None
    } else if legs[0].side == side {
        Some(legs[0].price)
    } else {
        first_price(legs.drop_first(), side)
    }
}

/// What a price-change payload translates to: one `PriceChange` event for
/// the payload's asset id, with `best_bid` from the first Buy-side leg and
/// `best_ask` from the first Sell-side leg (absent if either is missing) —
/// or nothing, where the payload is empty or its asset id is unknown to the
/// token table (such updates are counted and dropped).
pub open spec fn translated(
    venue: Venue,
    legs: Seq<PriceChangeModel>,
    tm: Map<Seq<char>, String>,
    ts_exchange_ms: Option<u64>,
    received_at: u64,
) -> Option<MarketEventModel> {
    if legs.len() == 0 {
        None
    } else if !tm.contains_key(legs[0].asset_id) {
        None
    } else {
        Some(MarketEventModel {
            venue,
            token_id: legs[0].asset_id,
            kind: MarketEventKind::PriceChange,
            best_bid: first_price(legs, Side::Buy),
            best_ask: first_price(legs, Side::Sell),
            volume24h: None,
            last_trade_price: None,
            liquidity: None,
            ts_exchange_ms,
            ts_receive_ms: None,
            received_at,
        })
    }
}

/// The price of the first leg on the given side, if any.
fn find_first_price(payload: &Vec<PriceChange>, side: Side) -> (r: Option<u64>)
    ensures
        r == first_price(payload_model(payload@), side),
{
    let ghost legs = payload_model(payload@);
    proof {
        assert(legs.skip(0) =~= legs);
    }
    let n = payload.len();
    let mut i: usize = 0;
    while i < n
        invariant
            n == payload@.len(),
            i <= n,
            legs == payload_model(payload@),
            legs.len() == n,
            forall|j: int| 0 <= j < n ==> legs[j] == payload@[j]@,
            first_price(legs, side) == first_price(legs.skip(i as int), side),
        decreases n - i,
    {
        if payload[i].side == side {
            proof {
                assert(legs.skip(i as int)[0] == legs[i as int]);
            }
            return Some(payload[i].price);
        }
        proof {
            assert(legs.skip(i as int)[0] == legs[i as int]);
            assert(legs.skip(i as int).drop_first() =~= legs.skip(i as int + 1));
        }
        i += 1;
    }
    proof {
        assert(legs.skip(n as int).len() == 0);
    }
    None
}

/// Translate one stream price-change payload into a market event, per the
/// rule of [`translated`]. `None` means the payload was empty or its asset
/// id is unknown; the caller counts and drops it.
pub fn translate_price_change(
    venue: Venue,
    payload: &Vec<PriceChange>,
    token_to_market: &TokenToMarket,
    ts_exchange_ms: Option<u64>,
    received_at: u64,
) -> (r: Option<MarketEvent>)
    ensures
        match r {
            Some(e) => Some(e@) == translated(venue, payload_model(payload@), token_to_market@, ts_exchange_ms, received_at),
            None => translated(venue, payload_model(payload@), token_to_market@, ts_exchange_ms, received_at) is None,
        },
{
    if payload.len() == 0 {
        return None;
    }
    let first = &payload[0];
    proof {
        assert(payload_model(payload@)[0] == payload@[0]@);
    }
    if token_to_market.get(&first.asset_id).is_none() {
        return None;
    }
    let best_bid = find_first_price(payload, Side::Buy);
    let best_ask = find_first_price(payload, Side::Sell);
    Some(MarketEvent {
        venue,
        token_id: first.asset_id.clone(),
        kind: MarketEventKind::PriceChange,
        best_bid,
        best_ask,
        volume24h: None,
        last_trade_price: None,
        liquidity: None,
        ts_exchange_ms,
        ts_receive_ms: None,
        received_at,
    })
}

/// A warm-up heartbeat event carrying a REST-seeded top-of-book snapshot.
pub fn make_heartbeat(
    venue: Venue,
    token_id: String,
    best_bid: Option<u64>,
    best_ask: Option<u64>,
    volume24h: Option<u64>,
    last_trade_price: Option<u64>,
    liquidity: Option<u64>,
    received_at: u64,
) -> (e: MarketEvent)
    ensures
        e@ == (MarketEventModel {
            venue,
            token_id: token_id@,
            kind: MarketEventKind::Heartbeat,
            best_bid,
            best_ask,
            volume24h,
            last_trade_price,
            liquidity,
            ts_exchange_ms: None,
            ts_receive_ms: None,
            received_at,
        }),
{
    MarketEvent {
        venue,
        token_id,
        kind: MarketEventKind::Heartbeat,
        best_bid,
        best_ask,
        volume24h,
        last_trade_price,
        liquidity,
        ts_exchange_ms: None,
        ts_receive_ms: None,
        received_at,
    }
}

} // verus!
