//! The dispatcher core: a state machine over three bounded priority
//! tiers of in-flight remote calls.
//!
//! An event loop around it feeds it four kinds of events. A submission
//! is admitted into its tier (handing back a fresh ticket, under which
//! the remote call starts at once) or rejected with `QueueFull` when the
//! tier is at capacity. A completion records the outcome of a started
//! call under its ticket. A pacer tick releases at most one outcome
//! system-wide: only the head of line of the highest-priority non-empty
//! tier is eligible, so results leave a tier in submission order and a
//! tier never overtakes a higher one. Shutdown discards everything and
//! silences the dispatcher for good.

use crate::types::ApiError;
use vstd::prelude::*;

verus! {

/// Priority of a submission: the dispatcher always prefers releasing
/// High results over Normal, and Normal over Low.
#[derive(Clone, Copy, Debug, PartialEq, Eq, Hash, Structural)]
pub enum Priority {
    High,
    Normal,
    Low,
}

/// One accepted remote call while it sits in its tier: the ticket that
/// identifies it and, once the call finished, its outcome.
struct InFlight<P> {
    ticket: u64,
    outcome: Option<Result<P, ApiError>>,
}

/// Ghost model of one in-flight call.
pub ghost struct Call<P> {
    pub ticket: nat,
    pub outcome: Option<Result<P, ApiError>>,
}

/// Ghost model of the dispatcher: the shared tier capacity, the shutdown
/// flag, the next fresh ticket, and the three tiers in priority order.
#[verifier::ext_equal]
pub ghost struct DispatcherModel<P> {
    pub capacity: nat,
    pub stopped: bool,
    pub next_ticket: nat,
    pub high: Seq<Call<P>>,
    pub normal: Seq<Call<P>>,
    pub low: Seq<Call<P>>,
}

/// A tier with `ticket` still awaiting its outcome.
pub open spec fn tier_has_pending<P>(t: Seq<Call<P>>, ticket: nat) -> bool {
    exists|i: int| 0 <= i < t.len() && t[i].ticket == ticket && t[i].outcome is None
}

/// The tier after recording `outcome` for a pending `ticket`; entries
/// that do not carry the ticket, and entries already completed, are
/// untouched.
pub open spec fn complete_tier<P>(
    t: Seq<Call<P>>,
    ticket: nat,
    outcome: Result<P, ApiError>,
) -> Seq<Call<P>> {
    t.map(
        |i: int, c: Call<P>|
            if c.ticket == ticket && c.outcome is None {
                Call { ticket: c.ticket, outcome: Some(outcome) }
            } else {
                c
            },
    )
}

impl<P> DispatcherModel<P> {
    /// The model of a freshly started dispatcher.
    pub open spec fn init(capacity: nat) -> Self {
        DispatcherModel {
            capacity,
            stopped: false,
            next_ticket: 0,
            high: Seq::empty(),
            normal: Seq::empty(),
            low: Seq::empty(),
        }
    }

    /// The tier that serves a priority.
    pub open spec fn tier(self, p: Priority) -> Seq<Call<P>> {
        match p {
            Priority::High => self.high,
            Priority::Normal => self.normal,
            Priority::Low => self.low,
        }
    }

    /// This model with the tier of `p` replaced.
    pub open spec fn with_tier(self, p: Priority, t: Seq<Call<P>>) -> Self {
        match p {
            Priority::High => DispatcherModel { high: t, ..self },
            Priority::Normal => DispatcherModel { normal: t, ..self },
            Priority::Low => DispatcherModel { low: t, ..self },
        }
    }

    /// How many calls are queued over all tiers.
    pub open spec fn total_pending(self) -> nat {
        self.high.len() + self.normal.len() + self.low.len()
    }

    /// A well-formed tier: bounded by the capacity, tickets strictly
    /// ascending (submission order) and all below the next fresh ticket.
    pub open spec fn tier_wf(t: Seq<Call<P>>, capacity: nat, next_ticket: nat) -> bool {
        &&& t.len() <= capacity
        &&& forall|i: int| 0 <= i < t.len() ==> #[trigger] t[i].ticket < next_ticket
        &&& forall|i: int, j: int| 0 <= i < j < t.len() ==> t[i].ticket < t[j].ticket
    }

    /// Well-formedness: a positive capacity, each tier well-formed, and
    /// no ticket in two tiers.
    pub open spec fn wf(self) -> bool {
        &&& self.capacity >= 1
        &&& Self::tier_wf(self.high, self.capacity, self.next_ticket)
        &&& Self::tier_wf(self.normal, self.capacity, self.next_ticket)
        &&& Self::tier_wf(self.low, self.capacity, self.next_ticket)
        &&& forall|i: int, j: int|
            0 <= i < self.high.len() && 0 <= j < self.normal.len() ==> self.high[i].ticket
                != self.normal[j].ticket
        &&& forall|i: int, j: int|
            0 <= i < self.high.len() && 0 <= j < self.low.len() ==> self.high[i].ticket
                != self.low[j].ticket
        &&& forall|i: int, j: int|
            0 <= i < self.normal.len() && 0 <= j < self.low.len() ==> self.normal[i].ticket
                != self.low[j].ticket
    }

    /// A submission of priority `p` is admitted exactly when the
    /// dispatcher is running and the tier has room.
    pub open spec fn submit_accepts(self, p: Priority) -> bool {
        !self.stopped && self.tier(p).len() < self.capacity
    }

    /// The state after a submission: an admitted call joins the back of
    /// its tier under the next fresh ticket; otherwise nothing changes.
    pub open spec fn submit_state(self, p: Priority) -> Self {
        if self.submit_accepts(p) {
            let joined = self.with_tier(
                p,
                self.tier(p).push(Call { ticket: self.next_ticket, outcome: None }),
            );
            DispatcherModel { next_ticket: self.next_ticket + 1, ..joined }
        } else {
            self
        }
    }

    /// What a pacer tick releases: the outcome of the head of line of
    /// the highest-priority non-empty tier, provided that call has
    /// completed. A pending head blocks the tiers below it.
    pub open spec fn tick_output(self) -> Option<Result<P, ApiError>> {
        if self.stopped {
            None
        } else if self.high.len() > 0 {
            match self.high[0].outcome {
                Some(r) => Some(r),
                None => None,
            }
        } else if self.normal.len() > 0 {
            match self.normal[0].outcome {
                Some(r) => Some(r),
                None => None,
            }
        } else if self.low.len() > 0 {
            match self.low[0].outcome {
                Some(r) => Some(r),
                None => None,
            }
        } else {
            None
        }
    }

    /// The state after a pacer tick: the released call, if any, leaves
    /// its tier; everything else stays.
    pub open spec fn tick_state(self) -> Self {
        if self.stopped {
            self
        } else if self.high.len() > 0 {
            match self.high[0].outcome {
                Some(r) => DispatcherModel { high: self.high.drop_first(), ..self },
                None => self,
            }
        } else if self.normal.len() > 0 {
            match self.normal[0].outcome {
                Some(r) => DispatcherModel { normal: self.normal.drop_first(), ..self },
                None => self,
            }
        } else if self.low.len() > 0 {
            match self.low[0].outcome {
                Some(r) => DispatcherModel { low: self.low.drop_first(), ..self },
                None => self,
            }
        } else {
            self
        }
    }

    /// Whether a completion for `ticket` lands on a waiting call.
    pub open spec fn complete_found(self, ticket: nat) -> bool {
        !self.stopped && (tier_has_pending(self.high, ticket) || tier_has_pending(
            self.normal,
            ticket,
        ) || tier_has_pending(self.low, ticket))
    }

    /// The state after a completion arrives: the waiting call with this
    /// ticket, if any, records the outcome. A completion after shutdown
    /// or for an unknown ticket changes nothing.
    pub open spec fn complete_state(self, ticket: nat, outcome: Result<P, ApiError>) -> Self {
        if self.stopped {
            self
        } else {
            DispatcherModel {
                high: complete_tier(self.high, ticket, outcome),
                normal: complete_tier(self.normal, ticket, outcome),
                low: complete_tier(self.low, ticket, outcome),
                ..self
            }
        }
    }

    /// The state after shutdown: stopped for good, all queued work
    /// discarded.
    pub open spec fn shutdown_state(self) -> Self {
        DispatcherModel {
            stopped: true,
            high: Seq::empty(),
            normal: Seq::empty(),
            low: Seq::empty(),
            ..self
        }
    }
}

/// What the dispatcher answers to a submission.
pub enum SubmitOutcome<P> {
    /// The request was admitted under this ticket; its remote call
    /// starts now, independent of the pacer.
    Accepted { ticket: u64 },
    /// The tier was at capacity: nothing was queued, the remote call is
    /// never made, and this `QueueFull` response goes straight to the
    /// caller.
    Rejected { response: Result<P, ApiError> },
    /// The dispatcher had already been shut down; nothing happens.
    Halted,
}

/// The dispatcher state: three bounded FIFO tiers of in-flight calls,
/// owned by a single worker. `P` is the decoded success payload, opaque
/// to the dispatcher.
pub struct Dispatcher<P> {
    capacity: usize,
    stopped: bool,
    next_ticket: u64,
    high: Vec<InFlight<P>>,
    normal: Vec<InFlight<P>>,
    low: Vec<InFlight<P>>,
}

/// The ghost contents of one tier.
spec fn tier_model<P>(v: Seq<InFlight<P>>) -> Seq<Call<P>> {
    v.map_values(|c: InFlight<P>| Call { ticket: c.ticket as nat, outcome: c.outcome })
}

impl<P> View for Dispatcher<P> {
    type V = DispatcherModel<P>;

    closed spec fn view(&self) -> DispatcherModel<P> {
        DispatcherModel {
            capacity: self.capacity as nat,
            stopped: self.stopped,
            next_ticket: self.next_ticket as nat,
            high: tier_model(self.high@),
            normal: tier_model(self.normal@),
            low: tier_model(self.low@),
        }
    }
}

impl<P> Dispatcher<P> {
    /// The dispatcher invariant; constructors establish it and every
    /// operation preserves it.
    pub open spec fn wf(&self) -> bool {
        self@.wf()
    }

    /// A dispatcher with empty tiers, each bounded by `capacity`.
    pub fn new(capacity: usize) -> (d: Self)
        requires
            capacity >= 1,
        ensures
            d@ == DispatcherModel::<P>::init(capacity as nat),
            d.wf(),
    {
        let d = Dispatcher {
            capacity,
            stopped: false,
            next_ticket: 0,
            high: Vec::new(),
            normal: Vec::new(),
            low: Vec::new(),
        };
        proof {
            assert(tier_model(d.high@) =~= Seq::<Call<P>>::empty());
            assert(d@ =~= DispatcherModel::<P>::init(capacity as nat));
        }
        d
    }

    /// How many calls the tier of `p` holds.
    pub fn tier_len(&self, p: Priority) -> (n: usize)
        ensures
            n == self@.tier(p).len(),
    {
        match p {
            Priority::High => self.high.len(),
            Priority::Normal => self.normal.len(),
            Priority::Low => self.low.len(),
        }
    }

    /// Whether shutdown was signaled.
    pub fn is_stopped(&self) -> (b: bool)
        ensures
            b == self@.stopped,
    {
        self.stopped
    }

    /// The shared per-tier capacity.
    pub fn capacity(&self) -> (n: usize)
        ensures
            n == self@.capacity,
    {
        self.capacity
    }

    /// Whether a fresh ticket is still available. The ticket space is
    /// effectively inexhaustible, but `submit` asks the caller to have
    /// checked.
    pub fn has_fresh_ticket(&self) -> (b: bool)
        ensures
            b == (self@.next_ticket < u64::MAX),
    {
        self.next_ticket < u64::MAX
    }

    /// Offer one submission of priority `p`. A running dispatcher with
    /// room admits it under a fresh ticket — the caller then starts the
    /// remote call at once; a full tier answers `QueueFull` immediately
    /// and queues nothing; after shutdown nothing happens at all.
    pub fn submit(&mut self, priority: Priority) -> (r: SubmitOutcome<P>)
        requires
            old(self).wf(),
            old(self)@.next_ticket < u64::MAX,
        ensures
            final(self).wf(),
            final(self)@ == old(self)@.submit_state(priority),
            match r {
                SubmitOutcome::Accepted { ticket } => old(self)@.submit_accepts(priority)
                    && ticket == old(self)@.next_ticket,
                SubmitOutcome::Rejected { response } => !old(self)@.stopped && old(self)@.tier(
                    priority,
                ).len() == old(self)@.capacity && response == Err::<P, ApiError>(
                    ApiError::QueueFull,
                ),
                SubmitOutcome::Halted => old(self)@.stopped,
            },
    {
        if self.stopped {
            return SubmitOutcome::Halted;
        }
        let ticket = self.next_ticket;
        let ghost fresh = Call::<P> { ticket: ticket as nat, outcome: None };
        match priority {
            Priority::High => {
                if self.high.len() < self.capacity {
                    self.next_ticket = ticket + 1;
                    self.high.push(InFlight { ticket, outcome: None });
                    proof {
                        assert(tier_model(self.high@) =~= tier_model(old(self).high@).push(fresh));
                        assert(self@ =~= old(self)@.submit_state(priority));
                    }
                    SubmitOutcome::Accepted { ticket }
                } else {
                    SubmitOutcome::Rejected { response: Err(ApiError::QueueFull) }
                }
            },
            Priority::Normal => {
                if self.normal.len() < self.capacity {
                    self.next_ticket = ticket + 1;
                    self.normal.push(InFlight { ticket, outcome: None });
                    proof {
                        assert(tier_model(self.normal@) =~= tier_model(old(self).normal@).push(
                            fresh,
                        ));
                        assert(self@ =~= old(self)@.submit_state(priority));
                    }
                    SubmitOutcome::Accepted { ticket }
                } else {
                    SubmitOutcome::Rejected { response: Err(ApiError::QueueFull) }
                }
            },
            Priority::Low => {
                if self.low.len() < self.capacity {
                    self.next_ticket = ticket + 1;
                    self.low.push(InFlight { ticket, outcome: None });
                    proof {
                        assert(tier_model(self.low@) =~= tier_model(old(self).low@).push(fresh));
                        assert(self@ =~= old(self)@.submit_state(priority));
                    }
                    SubmitOutcome::Accepted { ticket }
                } else {
                    SubmitOutcome::Rejected { response: Err(ApiError::QueueFull) }
                }
            },
        }
    }

    /// One pacer tick: release the completed head of line of the
    /// highest-priority non-empty tier, if there is one. At most one
    /// response leaves per tick, and a pending head blocks every tier
    /// below its own.
    pub fn tick(&mut self) -> (r: Option<Result<P, ApiError>>)
        requires
            old(self).wf(),
        ensures
            final(self).wf(),
            final(self)@ == old(self)@.tick_state(),
            r == old(self)@.tick_output(),
    {
        if self.stopped {
            return None;
        }
        if self.high.len() > 0 {
            if self.high[0].outcome.is_some() {
                let head = self.high.remove(0);
                proof {
                    assert(tier_model(self.high@) =~= tier_model(old(self).high@).drop_first());
                    assert(self@ =~= old(self)@.tick_state());
                }
                return head.outcome;
            }
            return None;
        }
        if self.normal.len() > 0 {
            if self.normal[0].outcome.is_some() {
                let head = self.normal.remove(0);
                proof {
                    assert(tier_model(self.normal@) =~= tier_model(old(self).normal@).drop_first());
                    assert(self@ =~= old(self)@.tick_state());
                }
                return head.outcome;
            }
            return None;
        }
        if self.low.len() > 0 {
            if self.low[0].outcome.is_some() {
                let head = self.low.remove(0);
                proof {
                    assert(tier_model(self.low@) =~= tier_model(old(self).low@).drop_first());
                    assert(self@ =~= old(self)@.tick_state());
                }
                return head.outcome;
            }
            return None;
        }
        None
    }

    /// Record the outcome of the started call `ticket` in whichever
    /// tier holds it. Reports whether a waiting call was found; after
    /// shutdown, or for a ticket no longer queued, nothing changes.
    pub fn complete(&mut self, ticket: u64, outcome: Result<P, ApiError>) -> (found: bool)
        requires
            old(self).wf(),
        ensures
            final(self).wf(),
            final(self)@ == old(self)@.complete_state(ticket as nat, outcome),
            found == old(self)@.complete_found(ticket as nat),
    {
        if self.stopped {
            return false;
        }
        proof {
            lemma_tier_tickets_distinct(self.high@);
            lemma_tier_tickets_distinct(self.normal@);
            lemma_tier_tickets_distinct(self.low@);
        }
        match Self::tier_complete(&mut self.high, ticket, outcome) {
            None => {
                proof {
                    let t = ticket as nat;
                    let i = choose|i: int|
                        0 <= i < old(self)@.high.len() && old(self)@.high[i].ticket == t && old(
                            self,
                        )@.high[i].outcome is None;
                    assert(complete_tier(old(self)@.normal, t, outcome) =~= old(self)@.normal);
                    assert(complete_tier(old(self)@.low, t, outcome) =~= old(self)@.low);
                    assert(self@ =~= old(self)@.complete_state(t, outcome));
                }
                true
            },
            Some(o) => {
                proof {
                    assert(complete_tier(old(self)@.high, ticket as nat, outcome) =~= old(
                        self,
                    )@.high);
                }
                match Self::tier_complete(&mut self.normal, ticket, o) {
                    None => {
                        proof {
                            let t = ticket as nat;
                            let i = choose|i: int|
                                0 <= i < old(self)@.normal.len() && old(self)@.normal[i].ticket
                                    == t && old(self)@.normal[i].outcome is None;
                            assert(complete_tier(old(self)@.low, t, outcome) =~= old(self)@.low);
                            assert(self@ =~= old(self)@.complete_state(t, outcome));
                        }
                        true
                    },
                    Some(o2) => {
                        proof {
                            assert(complete_tier(old(self)@.normal, ticket as nat, outcome) =~= old(
                                self,
                            )@.normal);
                        }
                        match Self::tier_complete(&mut self.low, ticket, o2) {
                            None => {
                                proof {
                                    assert(self@ =~= old(self)@.complete_state(
                                        ticket as nat,
                                        outcome,
                                    ));
                                }
                                true
                            },
                            Some(_) => {
                                proof {
                                    assert(complete_tier(old(self)@.low, ticket as nat, outcome)
                                        =~= old(self)@.low);
                                    assert(self@ =~= old(self)@.complete_state(
                                        ticket as nat,
                                        outcome,
                                    ));
                                }
                                false
                            },
                        }
                    },
                }
            },
        }
    }

    /// Shut the dispatcher down: discard all queued work and ignore
    /// every later event. Spec: [`DispatcherModel::shutdown_state`].
    pub fn shutdown(&mut self)
        requires
            old(self).wf(),
        ensures
            final(self).wf(),
            final(self)@ == old(self)@.shutdown_state(),
    {
        self.stopped = true;
        self.high = Vec::new();
        self.normal = Vec::new();
        self.low = Vec::new();
        proof {
            assert(tier_model(self.high@) =~= Seq::<Call<P>>::empty());
            assert(self@ =~= old(self)@.shutdown_state());
        }
    }

    /// Record `outcome` on the first waiting call with `ticket` in one
    /// tier; hands the outcome back when the tier has no such call.
    fn tier_complete(
        tier: &mut Vec<InFlight<P>>,
        ticket: u64,
        outcome: Result<P, ApiError>,
    ) -> (leftover: Option<Result<P, ApiError>>)
        requires
            forall|i: int, j: int|
                0 <= i < j < old(tier)@.len() ==> old(tier)@[i].ticket != old(tier)@[j].ticket,
        ensures
            match leftover {
                None => tier_has_pending(tier_model(old(tier)@), ticket as nat) && tier_model(
                    final(tier)@,
                ) == complete_tier(tier_model(old(tier)@), ticket as nat, outcome),
                Some(o) => o == outcome && final(tier)@ == old(tier)@ && !tier_has_pending(
                    tier_model(old(tier)@),
                    ticket as nat,
                ),
            },
    {
        let n = tier.len();
        let mut i: usize = 0;
        while i < n
            invariant
                n == tier@.len(),
                i <= n,
                tier@ == old(tier)@,
                forall|k: int|
                    0 <= k < i ==> !(tier@[k].ticket == ticket && tier@[k].outcome is None),
                forall|k: int, j: int|
                    0 <= k < j < tier@.len() ==> tier@[k].ticket != tier@[j].ticket,
            decreases n - i,
        {
            if tier[i].ticket == ticket && tier[i].outcome.is_none() {
                tier[i] = InFlight { ticket, outcome: Some(outcome) };
                proof {
                    assert(tier_model(old(tier)@)[i as int].ticket == ticket as nat
                        && tier_model(old(tier)@)[i as int].outcome is None);
                    assert(tier_model(tier@) =~= complete_tier(
                        tier_model(old(tier)@),
                        ticket as nat,
                        outcome,
                    ));
                }
                return None;
            }
            i += 1;
        }
        proof {
            assert(!tier_has_pending(tier_model(old(tier)@), ticket as nat));
        }
        Some(outcome)
    }
}

/// The recorded outcome of a completed call.
pub open spec fn recorded_outcome<P>(c: Call<P>) -> Result<P, ApiError>
    recommends
        c.outcome is Some,
{
    c.outcome->0
}

impl<P> DispatcherModel<P> {
    /// The tier a tick would release from: the highest-priority
    /// non-empty tier, and only if its head of line has completed.
    pub open spec fn tick_source(self) -> Option<Priority> {
        if self.stopped {
            None
        } else if self.high.len() > 0 {
            if self.high[0].outcome is Some {
                Some(Priority::High)
            } else {
                None
            }
        } else if self.normal.len() > 0 {
            if self.normal[0].outcome is Some {
                Some(Priority::Normal)
            } else {
                None
            }
        } else if self.low.len() > 0 {
            if self.low[0].outcome is Some {
                Some(Priority::Low)
            } else {
                None
            }
        } else {
            None
        }
    }

    /// Whether every queued call has completed.
    pub open spec fn all_completed(self) -> bool {
        &&& forall|i: int| 0 <= i < self.high.len() ==> (#[trigger] self.high[i].outcome) is Some
        &&& forall|i: int|
            0 <= i < self.normal.len() ==> (#[trigger] self.normal[i].outcome) is Some
        &&& forall|i: int| 0 <= i < self.low.len() ==> (#[trigger] self.low[i].outcome) is Some
    }

    /// The outcomes still queued, in the order ticks would release them
    /// once all calls complete: the High tier in submission order, then
    /// Normal, then Low.
    pub open spec fn queued_outcomes(self) -> Seq<Result<P, ApiError>> {
        self.high.map_values(|c: Call<P>| recorded_outcome(c)) + self.normal.map_values(
            |c: Call<P>| recorded_outcome(c),
        ) + self.low.map_values(|c: Call<P>| recorded_outcome(c))
    }
}

/// One event the worker loop can feed the dispatcher.
pub ghost enum DispatcherEvent<P> {
    /// A caller offers a request of this priority.
    Submit(Priority),
    /// The started call with this ticket finished with this outcome.
    Complete(nat, Result<P, ApiError>),
    /// The pacer fired.
    Tick,
    /// The shutdown signal arrived.
    Shutdown,
}

/// The state after one event.
pub open spec fn step_state<P>(
    s: DispatcherModel<P>,
    e: DispatcherEvent<P>,
) -> DispatcherModel<P> {
    match e {
        DispatcherEvent::Submit(p) => s.submit_state(p),
        DispatcherEvent::Complete(t, o) => s.complete_state(t, o),
        DispatcherEvent::Tick => s.tick_state(),
        DispatcherEvent::Shutdown => s.shutdown_state(),
    }
}

/// What one event hands to the caller: a rejected submission emits its
/// `QueueFull` response at once, and a tick emits the outcome it
/// releases, if any. No other event emits anything.
pub open spec fn step_outputs<P>(
    s: DispatcherModel<P>,
    e: DispatcherEvent<P>,
) -> Seq<Result<P, ApiError>> {
    match e {
        DispatcherEvent::Submit(p) => if !s.stopped && s.tier(p).len() >= s.capacity {
            seq![Err::<P, ApiError>(ApiError::QueueFull)]
        } else {
            Seq::empty()
        },
        DispatcherEvent::Complete(t, o) => Seq::empty(),
        DispatcherEvent::Tick => match s.tick_output() {
            Some(r) => seq![r],
            None => Seq::empty(),
        },
        DispatcherEvent::Shutdown => Seq::empty(),
    }
}

/// The state after a whole sequence of events.
pub open spec fn run_state<P>(
    s: DispatcherModel<P>,
    es: Seq<DispatcherEvent<P>>,
) -> DispatcherModel<P>
    decreases es.len(),
{
    if es.len() == 0 {
        s
    } else {
        run_state(step_state(s, es[0]), es.drop_first())
    }
}

/// Everything a whole sequence of events hands to the caller, in order.
pub open spec fn run_outputs<P>(
    s: DispatcherModel<P>,
    es: Seq<DispatcherEvent<P>>,
) -> Seq<Result<P, ApiError>>
    decreases es.len(),
{
    if es.len() == 0 {
        Seq::empty()
    } else {
        step_outputs(s, es[0]) + run_outputs(step_state(s, es[0]), es.drop_first())
    }
}

/// A pacer tick releases at most one response over all tiers: either
/// exactly one queued call leaves, or nothing changes at all.
pub proof fn lemma_tick_releases_at_most_one<P>(s: DispatcherModel<P>)
    ensures
        match s.tick_output() {
            Some(r) => s.tick_state().total_pending() + 1 == s.total_pending(),
            None => s.tick_state() == s,
        },
{
}

/// At every tick, a ready head of line in the High tier is released
/// before any Normal or Low item is so much as considered, whatever
/// their readiness; the lower tiers are untouched.
pub proof fn lemma_high_tier_first<P>(s: DispatcherModel<P>)
    requires
        !s.stopped,
        s.high.len() > 0,
        s.high[0].outcome is Some,
    ensures
        s.tick_output() == Some(recorded_outcome(s.high[0])),
        s.tick_state().high == s.high.drop_first(),
        s.tick_state().normal == s.normal,
        s.tick_state().low == s.low,
{
}

/// Within one tier, responses are released in the order the requests
/// were accepted: whenever a tick releases from a tier, it releases the
/// call with the smallest ticket of that tier — even when later calls
/// completed first — and the calls behind it keep their order.
pub proof fn lemma_fifo_within_tier<P>(s: DispatcherModel<P>, p: Priority)
    requires
        s.wf(),
        s.tick_source() == Some(p),
    ensures
        s.tick_output() == Some(recorded_outcome(s.tier(p)[0])),
        forall|i: int| 0 < i < s.tier(p).len() ==> s.tier(p)[0].ticket < #[trigger] s.tier(
            p,
        )[i].ticket,
        s.tick_state().tier(p) == s.tier(p).drop_first(),
{
}

/// A submission to a full tier of a running dispatcher is rejected on
/// the spot: the caller receives `QueueFull` without any tick involved,
/// the state does not change, and no ticket is issued, so the request
/// never reaches the remote call adapter.
pub proof fn lemma_full_tier_rejects<P>(s: DispatcherModel<P>, p: Priority)
    requires
        !s.stopped,
        s.tier(p).len() >= s.capacity,
    ensures
        step_outputs(s, DispatcherEvent::Submit(p)) == seq![
            Err::<P, ApiError>(ApiError::QueueFull),
        ],
        step_state(s, DispatcherEvent::Submit(p)) == s,
{
}

/// After shutdown no response is ever released again: whatever events
/// still arrive — late completions of in-flight calls included — a
/// stopped dispatcher stays stopped and emits nothing.
pub proof fn lemma_stopped_stays_silent<P>(s: DispatcherModel<P>, es: Seq<DispatcherEvent<P>>)
    requires
        s.stopped,
    ensures
        run_outputs(s, es) == Seq::<Result<P, ApiError>>::empty(),
        run_state(s, es).stopped,
    decreases es.len(),
{
    if es.len() > 0 {
        let s2 = step_state(s, es[0]);
        assert(s2.stopped);
        assert(step_outputs(s, es[0]) =~= Seq::<Result<P, ApiError>>::empty());
        lemma_stopped_stays_silent(s2, es.drop_first());
        assert(run_outputs(s, es) =~= Seq::<Result<P, ApiError>>::empty());
    }
}

/// An accepted submission joins the back of its tier under a ticket
/// that no queued call in any tier carries: responses can never be
/// attributed to the wrong submission.
pub proof fn lemma_accepted_call_is_new<P>(s: DispatcherModel<P>, p: Priority)
    requires
        s.wf(),
        s.submit_accepts(p),
    ensures
        s.submit_state(p).tier(p) == s.tier(p).push(
            Call { ticket: s.next_ticket, outcome: None },
        ),
        forall|q: Priority, i: int|
            0 <= i < s.tier(q).len() ==> (#[trigger] s.tier(q)[i]).ticket != s.next_ticket,
{
}

/// A tick preserves the dispatcher invariant.
pub proof fn lemma_tick_preserves_wf<P>(s: DispatcherModel<P>)
    requires
        s.wf(),
    ensures
        s.tick_state().wf(),
{
}

/// Every accepted submission yields exactly one response, with no
/// duplicates and no omissions: once every queued call has completed,
/// one tick per queued call releases exactly the queued outcomes — the
/// High tier first in submission order, then Normal, then Low — and
/// leaves the dispatcher empty. Together with the unique fresh ticket
/// that `submit` assigns on acceptance, each accepted submission is
/// answered exactly once.
pub proof fn lemma_ready_backlog_drains<P>(s: DispatcherModel<P>)
    requires
        s.wf(),
        !s.stopped,
        s.all_completed(),
    ensures
        run_outputs(s, Seq::new(s.total_pending(), |i: int| DispatcherEvent::<P>::Tick))
            == s.queued_outcomes(),
        run_state(
            s,
            Seq::new(s.total_pending(), |i: int| DispatcherEvent::<P>::Tick),
        ).total_pending() == 0,
    decreases s.total_pending(),
{
    let ticks = Seq::new(s.total_pending(), |i: int| DispatcherEvent::<P>::Tick);
    if s.total_pending() == 0 {
        assert(run_outputs(s, ticks) =~= s.queued_outcomes());
    } else {
        let s2 = s.tick_state();
        assert(s.tick_output() is Some);
        lemma_tick_preserves_wf(s);
        let out = s.tick_output()->0;
        assert(s.queued_outcomes() =~= seq![out] + s2.queued_outcomes());
        lemma_ready_backlog_drains(s2);
        let ticks2 = Seq::new(s2.total_pending(), |i: int| DispatcherEvent::<P>::Tick);
        assert(ticks.drop_first() =~= ticks2);
        assert(run_outputs(s, ticks) =~= seq![out] + run_outputs(s2, ticks2));
        assert(run_outputs(s, ticks) =~= s.queued_outcomes());
    }
}

/// In a tier whose ghost contents have strictly ascending tickets, the
/// stored tickets are pairwise distinct.
proof fn lemma_tier_tickets_distinct<P>(v: Seq<InFlight<P>>)
    requires
        forall|i: int, j: int|
            0 <= i < j < tier_model(v).len() ==> tier_model(v)[i].ticket < tier_model(
                v,
            )[j].ticket,
    ensures
        forall|i: int, j: int| 0 <= i < j < v.len() ==> v[i].ticket != v[j].ticket,
{
    assert forall|i: int, j: int| 0 <= i < j < v.len() implies v[i].ticket != v[j].ticket by {
        assert(tier_model(v)[i].ticket == v[i].ticket as nat);
        assert(tier_model(v)[j].ticket == v[j].ticket as nat);
    }
}

} // verus!
