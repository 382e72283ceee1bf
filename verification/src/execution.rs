//! Execution: intents, reports, the all-or-nothing multi-leg order
//! protocol, and the paper executor.
//!
//! Legs are attempted sequentially in order. A leg that fills proceeds to
//! the next; a leg that fails is recorded as rejected and every remaining
//! leg is marked not attempted — fail-fast, left to right. Every executor
//! returns one result per input leg.

use vstd::prelude::*;
use crate::types::{Venue, Side};
use crate::strategy::TradeSignal;
use crate::digits::{u64_to_string, spec_digits};

verus! {

/// Model of an order leg.
pub ghost struct OrderLegModel {
    pub token_id: Seq<char>,
    pub side: Side,
    pub price: u64,
    pub size: u64,
}

/// One leg of an execution intent.
#[derive(Clone, Debug)]
pub struct OrderLeg {
    /// The outcome token to trade.
    pub token_id: String,
    /// Which side to take.
    pub side: Side,
    /// Limit price, fixed-point.
    pub price: u64,
    /// Size, fixed-point.
    pub size: u64,
}

impl View for OrderLeg {
    type V = OrderLegModel;

    open spec fn view(&self) -> OrderLegModel {
        OrderLegModel {
            token_id: self.token_id@,
            side: self.side,
            price: self.price,
            size: self.size,
        }
    }
}

impl DeepView for OrderLeg {
    type V = OrderLegModel;

    open spec fn deep_view(&self) -> OrderLegModel {
        self@
    }
}

/// Model of an execution intent.
pub ghost struct ExecutionIntentModel {
    pub venue: Venue,
    pub market_id: Seq<char>,
    pub strategy_name: Seq<char>,
    pub legs: Seq<OrderLegModel>,
    pub edge: u64,
    pub neg_risk: bool,
    pub created_at: u64,
}

/// What the bridge hands an executor: the signal's legs one-to-one, plus
/// the market's negative-risk flag and a creation instant.
#[derive(Clone, Debug)]
pub struct ExecutionIntent {
    /// The venue to execute on.
    pub venue: Venue,
    /// The market the legs belong to.
    pub market_id: String,
    /// The emitting strategy's name.
    pub strategy_name: &'static str,
    /// The legs to execute, in order.
    pub legs: Vec<OrderLeg>,
    /// The detected edge, fixed-point.
    pub edge: u64,
    /// Whether the market uses negative-risk matching.
    pub neg_risk: bool,
    /// Monotonic instant at which the intent was created.
    pub created_at: u64,
}

impl View for ExecutionIntent {
    type V = ExecutionIntentModel;

    open spec fn view(&self) -> ExecutionIntentModel {
        ExecutionIntentModel {
            venue: self.venue,
            market_id: self.market_id@,
            strategy_name: self.strategy_name@,
            legs: self.legs.deep_view(),
            edge: self.edge,
            neg_risk: self.neg_risk,
            created_at: self.created_at,
        }
    }
}

/// Model of a leg's outcome in a report.
pub enum LegFillStatusModel {
    Filled { order_id: Seq<char>, avg_price: u64, filled_size: u64 },
    Rejected { reason: Seq<char> },
    NotAttempted,
}

/// The outcome of one leg: filled in full, rejected (creation failure,
/// venue rejection or submit error), or never attempted because an earlier
/// leg was rejected.
#[derive(Clone, Debug)]
pub enum LegFillStatus {
    /// The leg filled in full.
    Filled {
        /// The venue's (or paper) order id.
        order_id: String,
        /// Average fill price, fixed-point.
        avg_price: u64,
        /// Filled size, fixed-point.
        filled_size: u64,
    },
    /// The leg was rejected.
    Rejected {
        /// Why.
        reason: String,
    },
    /// An earlier leg was rejected; this one was never attempted.
    NotAttempted,
}

impl View for LegFillStatus {
    type V = LegFillStatusModel;

    open spec fn view(&self) -> LegFillStatusModel {
        match self {
            LegFillStatus::Filled { order_id, avg_price, filled_size } => (
                LegFillStatusModel::Filled {
                    order_id: order_id@,
                    avg_price: *avg_price,
                    filled_size: *filled_size,
                }
            ),
            LegFillStatus::Rejected { reason } => (LegFillStatusModel::Rejected {
                reason: reason@,
            }),
            LegFillStatus::NotAttempted => LegFillStatusModel::NotAttempted,
        }
    }
}

impl DeepView for LegFillStatus {
    type V = LegFillStatusModel;

    open spec fn deep_view(&self) -> LegFillStatusModel {
        self@
    }
}

/// Model of an execution report.
pub ghost struct ExecutionReportModel {
    pub market_id: Seq<char>,
    pub strategy_name: Seq<char>,
    pub leg_results: Seq<LegFillStatusModel>,
    pub completed_at: u64,
}

/// What an executor returns: one result per input leg, in leg order.
#[derive(Clone, Debug)]
pub struct ExecutionReport {
    /// The market the intent was for.
    pub market_id: String,
    /// The emitting strategy's name.
    pub strategy_name: &'static str,
    /// One result per input leg, in order.
    pub leg_results: Vec<LegFillStatus>,
    /// Monotonic instant at which execution finished.
    pub completed_at: u64,
}

impl View for ExecutionReport {
    type V = ExecutionReportModel;

    open spec fn view(&self) -> ExecutionReportModel {
        ExecutionReportModel {
            market_id: self.market_id@,
            strategy_name: self.strategy_name@,
            leg_results: self.leg_results.deep_view(),
            completed_at: self.completed_at,
        }
    }
}

/// Fail-fast, left to right: once a leg is rejected, every later leg is
/// not attempted.
pub open spec fn fail_fast(results: Seq<LegFillStatusModel>) -> bool {
    forall|i: int, j: int| 0 <= i < j < results.len() && (#[trigger] results[i]) is Rejected
        ==> (#[trigger] results[j]) is NotAttempted
}

/// Every leg filled.
pub open spec fn all_filled(results: Seq<LegFillStatusModel>) -> bool {
    forall|i: int| 0 <= i < results.len() ==> (#[trigger] results[i]) is Filled
}

/// Some leg was rejected.
pub open spec fn any_rejected(results: Seq<LegFillStatusModel>) -> bool {
    exists|i: int| 0 <= i < results.len() && (#[trigger] results[i]) is Rejected
}

/// The canonical report shape of the fail-fast protocol, split at `i`: the
/// legs before `i` all filled, and either `i` is the end, or leg `i` was
/// rejected and every later leg was not attempted.
pub open spec fn canonical_at(results: Seq<LegFillStatusModel>, i: int) -> bool {
    &&& 0 <= i <= results.len()
    &&& forall|j: int| 0 <= j < i ==> (#[trigger] results[j]) is Filled
    &&& (i == results.len() || (results[i] is Rejected && forall|j: int|
        i < j < results.len() ==> (#[trigger] results[j]) is NotAttempted))
}

/// The canonical report shape of the fail-fast protocol: a run of fills,
/// then — unless every leg filled — exactly one rejection followed by
/// nothing but not-attempted legs.
pub open spec fn canonical_report(results: Seq<LegFillStatusModel>) -> bool {
    exists|i: int| canonical_at(results, i)
}

impl ExecutionReport {
    /// Whether every leg filled.
    pub fn fully_filled(&self) -> (r: bool)
        ensures
            r == all_filled(self@.leg_results),
    {
        let n = self.leg_results.len();
        let mut i: usize = 0;
        while i < n
            invariant
                n == self.leg_results@.len(),
                i <= n,
                forall|j: int| 0 <= j < i ==> (#[trigger] self.leg_results@[j]@) is Filled,
            decreases n - i,
        {
            match &self.leg_results[i] {
                LegFillStatus::Filled { .. } => {},
                _ => {
                    proof {
                        assert(!(self@.leg_results[i as int] is Filled));
                    }
                    return false;
                },
            }
            i += 1;
        }
        true
    }

    /// Whether some leg was rejected.
    pub fn has_rejection(&self) -> (r: bool)
        ensures
            r == any_rejected(self@.leg_results),
    {
        let n = self.leg_results.len();
        let mut i: usize = 0;
        while i < n
            invariant
                n == self.leg_results@.len(),
                i <= n,
                forall|j: int| 0 <= j < i ==> !((#[trigger] self.leg_results@[j]@) is Rejected),
            decreases n - i,
        {
            match &self.leg_results[i] {
                LegFillStatus::Rejected { .. } => {
                    proof {
                        assert(self@.leg_results[i as int] is Rejected);
                    }
                    return true;
                },
                _ => {},
            }
            i += 1;
        }
        false
    }
}

/// The executor interface. Every executor must respect the fail-fast leg
/// protocol — one result per input leg, and a report in the canonical
/// shape: a run of fills, then at most one rejection, then only
/// not-attempted legs — against the intent it was handed, stamped with the
/// instant it was given.
pub trait ExecutionEngine {
    /// Execute the intent's legs sequentially, fail-fast.
    fn execute(&mut self, intent: ExecutionIntent, now: u64) -> (report: ExecutionReport)
        ensures
            report@.leg_results.len() == intent@.legs.len(),
            fail_fast(report@.leg_results),
            canonical_report(report@.leg_results),
            report@.market_id == intent@.market_id,
            report@.strategy_name == intent@.strategy_name,
            report@.completed_at == now,
    ;
}

/// Convert a trade signal into an execution intent: the legs are copied
/// one-to-one and in order, the negative-risk flag comes from the market's
/// metadata, and the intent is stamped with the current instant.
pub fn signal_to_intent(signal: TradeSignal, neg_risk: bool, now: u64) -> (intent: ExecutionIntent)
    ensures
        intent@.venue == signal@.venue,
        intent@.market_id == signal@.market_id,
        intent@.strategy_name == signal@.strategy_name,
        intent@.edge == signal@.edge,
        intent@.neg_risk == neg_risk,
        intent@.created_at == now,
        intent@.legs.len() == signal@.legs.len(),
        forall|i: int| 0 <= i < signal@.legs.len() ==> {
            let sl = signal@.legs[i];
            (#[trigger] intent@.legs[i]) == (OrderLegModel {
                token_id: sl.token_id,
                side: sl.side,
                price: sl.price,
                size: sl.size,
            })
        },
{
    let ghost signal_model = signal@;
    let mut legs: Vec<OrderLeg> = Vec::new();
    let n = signal.legs.len();
    let mut i: usize = 0;
    let signal_legs = signal.legs;
    while i < n
        invariant
            n == signal_legs@.len(),
            signal_legs.deep_view() == signal_model.legs,
            i <= n,
            legs@.len() == i,
            forall|j: int| 0 <= j < i ==> (#[trigger] legs@[j]@) == (OrderLegModel {
                token_id: signal_model.legs[j].token_id,
                side: signal_model.legs[j].side,
                price: signal_model.legs[j].price,
                size: signal_model.legs[j].size,
            }),
        decreases n - i,
    {
        let leg = &signal_legs[i];
        legs.push(OrderLeg {
            token_id: leg.token_id.clone(),
            side: leg.side,
            price: leg.price,
            size: leg.size,
        });
        i += 1;
    }
    ExecutionIntent {
        venue: signal.venue,
        market_id: signal.market_id,
        strategy_name: signal.strategy_name,
        legs,
        edge: signal.edge,
        neg_risk,
        created_at: now,
    }
}

/// Microseconds elapsed from `then` to `now` on a monotonic clock; zero
/// where the instants are misordered.
pub fn elapsed_us(now: u64, then: u64) -> (r: u64)
    ensures
        r == if now >= then {
            now - then
        } else {
            0
        },
{
    if now >= then {
        now - then
    } else {
        0
    }
}

/// The paper executor: fills every leg at its requested price and size,
/// assigning monotonically increasing order ids.
pub struct PaperExecutor {
    next_order_id: u64,
}

impl PaperExecutor {
    /// The next order id to assign.
    pub closed spec fn spec_next_order_id(&self) -> u64 {
        self.next_order_id
    }

    /// A fresh paper executor; ids start at 1.
    pub fn new() -> (e: Self)
        ensures
            e.spec_next_order_id() == 1,
    {
        PaperExecutor { next_order_id: 1 }
    }

    /// Fill every leg at its requested price and size. Leg `i` gets order
    /// id `next_order_id + i`, rendered in decimal: ids strictly increase
    /// across legs and across intents.
    pub fn paper_execute(&mut self, intent: &ExecutionIntent, now: u64) -> (report:
        ExecutionReport)
        requires
            old(self).spec_next_order_id() + intent@.legs.len() <= u64::MAX,
        ensures
            report@.market_id == intent@.market_id,
            report@.strategy_name == intent@.strategy_name,
            report@.completed_at == now,
            report@.leg_results.len() == intent@.legs.len(),
            forall|i: int| 0 <= i < intent@.legs.len()
                ==> (#[trigger] report@.leg_results[i]) == (LegFillStatusModel::Filled {
                    order_id: spec_digits((old(self).spec_next_order_id() + i) as nat),
                    avg_price: intent@.legs[i].price,
                    filled_size: intent@.legs[i].size,
                }),
            final(self).spec_next_order_id() == old(self).spec_next_order_id()
                + intent@.legs.len(),
    {
        let ghost first_id = self.next_order_id;
        let mut leg_results: Vec<LegFillStatus> = Vec::new();
        let n = intent.legs.len();
        let mut i: usize = 0;
        while i < n
            invariant
                n == intent.legs@.len(),
                i <= n,
                first_id + n <= u64::MAX,
                self.next_order_id == first_id + i,
                leg_results@.len() == i,
                forall|j: int| 0 <= j < i ==> (#[trigger] leg_results@[j]@)
                    == (LegFillStatusModel::Filled {
                    order_id: spec_digits((first_id + j) as nat),
                    avg_price: intent.legs@[j]@.price,
                    filled_size: intent.legs@[j]@.size,
                }),
            decreases n - i,
        {
            let leg = &intent.legs[i];
            let order_id = u64_to_string(self.next_order_id);
            leg_results.push(LegFillStatus::Filled {
                order_id,
                avg_price: leg.price,
                filled_size: leg.size,
            });
            self.next_order_id = self.next_order_id + 1;
            i += 1;
        }
        ExecutionReport {
            market_id: intent.market_id.clone(),
            strategy_name: intent.strategy_name,
            leg_results,
            completed_at: now,
        }
    }
}

/// Where the paper executor's order ids start for one call: at the current
/// counter where the whole leg list fits the id space; back at 1 where it
/// does not; nowhere when no start could fit the list.
pub open spec fn paper_start_id(counter: u64, n_legs: nat) -> Option<u64> {
    if counter + n_legs <= u64::MAX {
        Some(counter)
    } else if 1 + n_legs <= u64::MAX {
        Some(1u64)
    } else {
        None
    }
}

impl ExecutionEngine for PaperExecutor {
    fn execute(&mut self, intent: ExecutionIntent, now: u64) -> (report: ExecutionReport)
        ensures
            match paper_start_id(old(self).spec_next_order_id(), intent@.legs.len()) {
                Some(start) => (forall|i: int| 0 <= i < intent@.legs.len()
                    ==> (#[trigger] report@.leg_results[i]) == (LegFillStatusModel::Filled {
                        order_id: spec_digits((start + i) as nat),
                        avg_price: intent@.legs[i].price,
                        filled_size: intent@.legs[i].size,
                    })) && final(self).spec_next_order_id() == start + intent@.legs.len(),
                None => intent@.legs.len() > 0 && report@.leg_results[0] is Rejected
                    && (forall|i: int| 1 <= i < intent@.legs.len()
                        ==> (#[trigger] report@.leg_results[i]) is NotAttempted),
            },
    {
        let n = intent.legs.len() as u64;
        if self.next_order_id <= u64::MAX - n {
            let report = self.paper_execute(&intent, now);
            proof {
                assert(canonical_at(report@.leg_results, report@.leg_results.len() as int));
            }
            return report;
        }
        // id space exhausted: start over rather than fail
        self.next_order_id = 1;
        if n <= u64::MAX - 1 {
            let report = self.paper_execute(&intent, now);
            proof {
                assert(canonical_at(report@.leg_results, report@.leg_results.len() as int));
            }
            return report;
        }
        // a leg list longer than the id space cannot be executed: reject
        // the first leg, mark the rest not attempted
        let mut leg_results: Vec<LegFillStatus> = Vec::new();
        leg_results.push(LegFillStatus::Rejected {
            reason: "order id space exhausted".to_owned(),
        });
        let total = intent.legs.len();
        let mut i: usize = 1;
        while i < total
            invariant
                1 <= i <= total,
                leg_results@.len() == i,
                leg_results@[0]@ is Rejected,
                forall|j: int| 1 <= j < i ==> (#[trigger] leg_results@[j]@) is NotAttempted,
            decreases total - i,
        {
            leg_results.push(LegFillStatus::NotAttempted);
            i += 1;
        }
        let report = ExecutionReport {
            market_id: intent.market_id.clone(),
            strategy_name: intent.strategy_name,
            leg_results,
            completed_at: now,
        };
        proof {
            assert(canonical_at(report@.leg_results, 0));
        }
        report
    }
}

/// Model of a leg attempt's outcome, as the venue reports it.
pub enum LegOutcomeModel {
    Filled { order_id: Seq<char>, avg_price: u64, filled_size: u64 },
    Rejected { reason: Seq<char> },
}

/// The outcome of one attempted leg, as the embedder's venue driver
/// reports it: a full fill, or a rejection (creation failure, venue
/// rejection or submit error).
#[derive(Clone, Debug)]
pub enum LegOutcome {
    /// The order filled in full.
    Filled {
        /// The venue's order id.
        order_id: String,
        /// Average fill price, fixed-point.
        avg_price: u64,
        /// Filled size, fixed-point.
        filled_size: u64,
    },
    /// The order was not placed or not filled.
    Rejected {
        /// Why.
        reason: String,
    },
}

impl View for LegOutcome {
    type V = LegOutcomeModel;

    open spec fn view(&self) -> LegOutcomeModel {
        match self {
            LegOutcome::Filled { order_id, avg_price, filled_size } => (LegOutcomeModel::Filled {
                order_id: order_id@,
                avg_price: *avg_price,
                filled_size: *filled_size,
            }),
            LegOutcome::Rejected { reason } => (LegOutcomeModel::Rejected { reason: reason@ }),
        }
    }
}

/// `results` padded with `NotAttempted` to length `n`.
pub open spec fn padded_results(results: Seq<LegFillStatusModel>, n: int) -> Seq<
    LegFillStatusModel,
> {
    results + Seq::new((if n >= results.len() {
        n - results.len()
    } else {
        0
    }) as nat, |i: int| LegFillStatusModel::NotAttempted)
}

/// Drives the multi-leg order protocol for an executor that performs the
/// venue I/O itself: the embedder asks for the next leg to attempt,
/// performs the order signing and submission, records the outcome, and
/// finishes with a report. The fail-fast rule is enforced here: after a
/// rejection no further leg is handed out, and the report marks every
/// remaining leg as not attempted.
pub struct LegRunner {
    intent: ExecutionIntent,
    results: Vec<LegFillStatus>,
}

/// A run of fills, possibly closed by one rejection: the shape the
/// recorded results always have.
pub open spec fn filled_prefix(results: Seq<LegFillStatusModel>) -> bool {
    ||| all_filled(results)
    ||| (results.len() > 0 && results.last() is Rejected && all_filled(results.drop_last()))
}

impl LegRunner {
    #[verifier::type_invariant]
    closed spec fn wf(&self) -> bool {
        &&& self.results@.len() <= self.intent.legs@.len()
        &&& filled_prefix(self.results.deep_view())
    }

    /// The intent being executed.
    pub closed spec fn spec_intent(&self) -> ExecutionIntentModel {
        self.intent@
    }

    /// The results recorded so far.
    pub closed spec fn spec_results(&self) -> Seq<LegFillStatusModel> {
        self.results.deep_view()
    }

    /// Whether execution stopped early on a rejection: the last recorded
    /// outcome was one.
    pub open spec fn spec_halted(&self) -> bool {
        self.spec_results().len() > 0 && self.spec_results().last() is Rejected
    }

    /// Whether every leg is settled: all attempted, or halted early.
    pub open spec fn spec_done(&self) -> bool {
        self.spec_halted() || self.spec_results().len() == self.spec_intent().legs.len()
    }

    /// Start executing an intent.
    pub fn new(intent: ExecutionIntent) -> (runner: LegRunner)
        ensures
            runner.spec_intent() == intent@,
            runner.spec_results() == Seq::<LegFillStatusModel>::empty(),
            !runner.spec_halted(),
    {
        let runner = LegRunner { intent, results: Vec::new() };
        proof {
            assert(runner.results.deep_view() =~= Seq::<LegFillStatusModel>::empty());
        }
        runner
    }

    /// The next leg to attempt, in order — or nothing, when every leg is
    /// settled.
    pub fn next_leg<'a>(&'a self) -> (r: Option<&'a OrderLeg>)
        ensures
            match r {
                Some(leg) => !self.spec_done() && leg@ == self.spec_intent().legs[
                    self.spec_results().len() as int
                ],
                None => self.spec_done(),
            },
    {
        proof {
            use_type_invariant(&*self);
        }
        let n = self.results.len();
        if n >= self.intent.legs.len() {
            return None;
        }
        if n > 0 {
            let halted = match &self.results[n - 1] {
                LegFillStatus::Rejected { .. } => true,
                _ => false,
            };
            proof {
                assert(self.results.deep_view().last() == self.results@[n - 1]@);
            }
            if halted {
                return None;
            }
        }
        Some(&self.intent.legs[n])
    }

    /// Record the outcome of the leg just attempted. A fill settles that
    /// leg and moves on; a rejection settles it and halts the run, so no
    /// further leg is attempted.
    pub fn record(&mut self, outcome: LegOutcome)
        requires
            !old(self).spec_done(),
        ensures
            final(self).spec_intent() == old(self).spec_intent(),
            match outcome@ {
                LegOutcomeModel::Filled { order_id, avg_price, filled_size } => {
                    &&& final(self).spec_results() == old(self).spec_results().push(
                        LegFillStatusModel::Filled { order_id, avg_price, filled_size },
                    )
                    &&& !final(self).spec_halted()
                },
                LegOutcomeModel::Rejected { reason } => {
                    &&& final(self).spec_results() == old(self).spec_results().push(
                        LegFillStatusModel::Rejected { reason },
                    )
                    &&& final(self).spec_halted()
                },
            },
    {
        proof {
            use_type_invariant(&*self);
        }
        let mut results: Vec<LegFillStatus> = Vec::new();
        core::mem::swap(&mut self.results, &mut results);
        let ghost before = results.deep_view();
        proof {
            // not yet halted, so nothing recorded was a rejection
            assert(all_filled(before)) by {
                if !all_filled(before) {
                    assert(before.len() > 0 && before.last() is Rejected);
                }
            }
        }
        let entry = match outcome {
            LegOutcome::Filled { order_id, avg_price, filled_size } => (LegFillStatus::Filled {
                order_id,
                avg_price,
                filled_size,
            }),
            LegOutcome::Rejected { reason } => LegFillStatus::Rejected { reason },
        };
        let ghost entry_model = entry@;
        results.push(entry);
        proof {
            assert(results.deep_view() =~= before.push(entry_model));
            assert(results.deep_view().drop_last() =~= before);
        }
        self.results = results;
    }

    /// Finish: one result per input leg, in order — the recorded outcomes,
    /// then `NotAttempted` for every leg a rejection cut off. The report
    /// has the protocol's canonical shape.
    pub fn finish(self, now: u64) -> (report: ExecutionReport)
        requires
            self.spec_done(),
        ensures
            report@.market_id == self.spec_intent().market_id,
            report@.strategy_name == self.spec_intent().strategy_name,
            report@.completed_at == now,
            report@.leg_results.len() == self.spec_intent().legs.len(),
            report@.leg_results == padded_results(
                self.spec_results(),
                self.spec_intent().legs.len() as int,
            ),
            fail_fast(report@.leg_results),
            canonical_report(report@.leg_results),
    {
        proof {
            use_type_invariant(&self);
        }
        let ghost halted = self.spec_halted();
        let LegRunner { intent, mut results } = self;
        let ghost recorded = results.deep_view();
        let total = intent.legs.len();
        proof {
            assert(results.deep_view() =~= padded_results(recorded, results@.len() as int));
        }
        while results.len() < total
            invariant
                recorded.len() <= results@.len() <= total,
                results.deep_view() == padded_results(recorded, results@.len() as int),
            decreases total - results@.len(),
        {
            let ghost before = results.deep_view();
            results.push(LegFillStatus::NotAttempted);
            proof {
                assert(results.deep_view() =~= before.push(LegFillStatusModel::NotAttempted));
                assert(results.deep_view() =~= padded_results(recorded, results@.len() as int));
            }
        }
        proof {
            let padded = results.deep_view();
            assert(forall|j: int| 0 <= j < recorded.len() ==> #[trigger] padded[j] == recorded[j]);
            if halted {
                // recorded = fills then one rejection; the padding extends it
                assert(canonical_at(padded, recorded.len() - 1)) by {
                    assert(forall|j: int| 0 <= j < recorded.len() - 1
                        ==> (#[trigger] recorded[j]) == recorded.drop_last()[j]);
                }
            } else {
                // nothing halted the run, so it is settled by length alone
                assert(recorded.len() == total);
                assert(all_filled(recorded)) by {
                    if !all_filled(recorded) {
                        assert(recorded.len() > 0 && recorded.last() is Rejected);
                    }
                }
                assert(canonical_at(padded, padded.len() as int));
            }
            assert(canonical_report(padded));
            assert(fail_fast(padded)) by {
                let k = choose|k: int| canonical_at(padded, k);
                assert forall|i: int, j: int|
                    0 <= i < j < padded.len() && (#[trigger] padded[i]) is Rejected
                    implies (#[trigger] padded[j]) is NotAttempted by {
                    assert(i >= k);
                    assert(i == k || padded[i] is NotAttempted);
                }
            }
        }
        ExecutionReport {
            market_id: intent.market_id,
            strategy_name: intent.strategy_name,
            leg_results: results,
            completed_at: now,
        }
    }
}

} // verus!
