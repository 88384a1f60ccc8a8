//! The equivocation detection pipeline: relays each report of a double
//! vote once, as long as it can still be reported.

use vstd::prelude::*;
use crate::error::RelayError;
use crate::pipeline::{lemma_step_preserves_wf, spec_step, Action, Event, Phase, Pipeline};
use crate::submission::{ProofId, ReportId};
use crate::types::RelayConfig;

verus! {

/// Evidence that one validator signed two conflicting votes in one round.
#[derive(Clone, Debug, PartialEq, Eq)]
pub struct EquivocationReport {
    pub id: ReportId,
    /// The height of the source chain at which the double vote was cast.
    pub origin_height: u64,
    /// The first vote, with its signature.
    pub first_vote: Vec<u8>,
    /// The vote that conflicts with it, with its signature.
    pub second_vote: Vec<u8>,
}

/// The window for reporting has passed: the source chain is more than
/// `window` blocks above the height at which the double vote was cast.
pub open spec fn is_expired(origin_height: u64, window: u64, current_height: u64) -> bool {
    origin_height + window < current_height
}

/// Whether a report cast at `origin_height` can no longer be reported.
pub fn expired(origin_height: u64, window: u64, current_height: u64) -> (b: bool)
    ensures
        b == is_expired(origin_height, window, current_height),
{
    current_height > origin_height && current_height - origin_height > window
}

/// The reports that have been relayed or are being relayed.
#[derive(Clone, Debug, PartialEq, Eq)]
pub struct ReportTracker {
    pub ids: Vec<ReportId>,
}

impl View for ReportTracker {
    type V = Set<ReportId>;

    open spec fn view(&self) -> Set<ReportId> {
        self.ids@.to_set()
    }
}

impl ReportTracker {
    pub fn new() -> (t: ReportTracker)
        ensures
            t@ == Set::<ReportId>::empty(),
    {
        let t = ReportTracker { ids: Vec::new() };
        assert(t.ids@.to_set() =~= Set::<ReportId>::empty());
        t
    }

    /// Whether `id` has been recorded.
    pub fn contains(&self, id: &ReportId) -> (found: bool)
        ensures
            found == self@.contains(*id),
    {
        let mut i: usize = 0;
        while i < self.ids.len()
            invariant
                0 <= i <= self.ids.len(),
                forall|j: int| 0 <= j < i ==> self.ids@[j] != *id,
            decreases self.ids.len() - i,
        {
            if self.ids[i].same(id) {
                assert(self.ids@.contains(*id));
                return true;
            }
            i = i + 1;
        }
        assert(!self.ids@.contains(*id));
        false
    }

    /// Records `id`. Returns whether it was new.
    pub fn insert(&mut self, id: ReportId) -> (fresh: bool)
        ensures
            fresh == !old(self)@.contains(id),
            final(self)@ == old(self)@.insert(id),
    {
        if self.contains(&id) {
            assert(self@.insert(id) =~= self@);
            false
        } else {
            proof {
                self.ids@.lemma_push_to_set_commute(id);
            }
            self.ids.push(id);
            true
        }
    }
}

/// What becomes of a report that the source presents.
#[derive(Clone, Copy, Debug, PartialEq, Eq, Structural)]
pub enum ReportDecision {
    /// It is relayed to the target.
    Relay,
    /// It was relayed before, or is being relayed: nothing is done.
    Duplicate,
    /// Its window for reporting has passed: it is dropped.
    Expired,
    /// The pipeline is not selecting: the report was not looked at.
    NotTaken,
}

/// The decision on a report while the pipeline selects: an expired
/// report is dropped; the report in hand is taken up again, which is the
/// retry after a failure; a report seen before is a duplicate; any other
/// report is relayed.
pub open spec fn spec_decide(seen: Set<ReportId>, in_hand: Option<ProofId>, id: ReportId, origin_height: u64, window: u64, current_height: u64) -> ReportDecision {
    if is_expired(origin_height, window, current_height) {
        ReportDecision::Expired
    } else if in_hand == Some(ProofId::Equivocation(id)) {
        ReportDecision::Relay
    } else if seen.contains(id) {
        ReportDecision::Duplicate
    } else {
        ReportDecision::Relay
    }
}

/// The state of the equivocation detection pipeline.
#[derive(Clone, Debug, PartialEq, Eq)]
pub struct EquivocationPipeline {
    pub machine: Pipeline,
    pub seen: ReportTracker,
}

/// The answer of the equivocation detection pipeline to one event.
#[derive(Clone, Debug, PartialEq, Eq)]
pub struct EquivocationStep {
    pub next: EquivocationPipeline,
    pub decision: ReportDecision,
    pub action: Action,
    pub notice: Option<RelayError>,
}

/// The pipeline as its contracts speak of it: the steps it is in, and the
/// set of the reports recorded.
#[verifier::ext_equal]
pub struct EquivocationState {
    pub machine: Pipeline,
    pub seen: Set<ReportId>,
}

/// An answer of the pipeline as its contracts speak of it.
#[verifier::ext_equal]
pub struct EquivocationAnswer {
    pub next: EquivocationState,
    pub decision: ReportDecision,
    pub action: Action,
    pub notice: Option<RelayError>,
}

impl View for EquivocationPipeline {
    type V = EquivocationState;

    open spec fn view(&self) -> EquivocationState {
        EquivocationState { machine: self.machine, seen: self.seen@ }
    }
}

impl View for EquivocationStep {
    type V = EquivocationAnswer;

    open spec fn view(&self) -> EquivocationAnswer {
        EquivocationAnswer { next: self.next@, decision: self.decision, action: self.action, notice: self.notice }
    }
}

/// The event that a decision on the report `id` amounts to.
pub open spec fn spec_decided_event(decision: ReportDecision, id: ReportId) -> Event {
    match decision {
        ReportDecision::Relay => Event::Selected(Some(ProofId::Equivocation(id))),
        ReportDecision::Expired => Event::Failed(RelayError::ExpiredEvidence),
        _ => Event::Selected(None),
    }
}

/// A pipeline that has done nothing yet.
pub open spec fn spec_initial() -> EquivocationState {
    EquivocationState { machine: Pipeline::spec_new(), seen: Set::empty() }
}

/// The answer to a report of the equivocation `id`, cast at
/// `origin_height`, that is presented when the source chain stands at
/// `current_height`. While the pipeline selects, the report is judged as
/// `spec_decide` says, a report that is relayed is recorded, and the
/// pipeline goes on as the decision demands. Otherwise the report is not
/// taken.
pub open spec fn spec_offer(s: EquivocationState, id: ReportId, origin_height: u64, current_height: u64, cfg: RelayConfig, now: u64) -> EquivocationAnswer {
    if s.machine.phase == Phase::Selecting {
        let decision = spec_decide(s.seen, s.machine.current, id, origin_height, cfg.reporting_window, current_height);
        let r = spec_step(s.machine, spec_decided_event(decision, id), cfg, now);
        EquivocationAnswer {
            next: EquivocationState {
                machine: r.next,
                seen: if decision == ReportDecision::Relay {
                    s.seen.insert(id)
                } else {
                    s.seen
                },
            },
            decision,
            action: r.action,
            notice: r.notice,
        }
    } else {
        EquivocationAnswer { next: s, decision: ReportDecision::NotTaken, action: Action::Nothing, notice: None }
    }
}

/// The answer to any event but a selection: the pipeline goes its way and
/// the record of reports stays. A selection made elsewhere is not taken.
pub open spec fn spec_on_event(s: EquivocationState, event: Event, cfg: RelayConfig, now: u64) -> EquivocationAnswer {
    if event is Selected {
        EquivocationAnswer { next: s, decision: ReportDecision::NotTaken, action: Action::Nothing, notice: None }
    } else {
        let r = spec_step(s.machine, event, cfg, now);
        EquivocationAnswer {
            next: EquivocationState { machine: r.next, seen: s.seen },
            decision: ReportDecision::NotTaken,
            action: r.action,
            notice: r.notice,
        }
    }
}

impl EquivocationState {
    /// What holds of every state that the pipeline can reach under `cfg`:
    /// the proof in hand is the evidence of a report, and that report has
    /// been recorded.
    pub open spec fn wf(self, cfg: RelayConfig) -> bool {
        &&& self.machine.wf(cfg)
        &&& self.machine.current matches Some(p) ==> p matches ProofId::Equivocation(id) && self.seen.contains(id)
    }
}

impl EquivocationPipeline {
    pub fn new() -> (p: EquivocationPipeline)
        ensures
            p@ == spec_initial(),
    {
        EquivocationPipeline { machine: Pipeline::new(), seen: ReportTracker::new() }
    }

    /// Presents the next report of the source to the pipeline, with the
    /// current height of the source chain.
    pub fn offer(self, report: &EquivocationReport, current_height: u64, cfg: &RelayConfig, now: u64) -> (r: EquivocationStep)
        ensures
            r@ == spec_offer(self@, report.id, report.origin_height, current_height, *cfg, now),
            (r.action is Build) <==> r.decision == ReportDecision::Relay,
            r.action != Action::Submit,
    {
        let EquivocationPipeline { machine, seen } = self;
        let mut seen = seen;
        match machine.phase {
            Phase::Selecting => {
                let id = report.id;
                let in_hand: bool = match machine.current {
                    Some(ProofId::Equivocation(c)) => c.same(&id),
                    _ => false,
                };
                let decision = if expired(report.origin_height, cfg.reporting_window, current_height) {
                    ReportDecision::Expired
                } else if in_hand {
                    ReportDecision::Relay
                } else if seen.contains(&id) {
                    ReportDecision::Duplicate
                } else {
                    ReportDecision::Relay
                };
                let event = match decision {
                    ReportDecision::Relay => {
                        seen.insert(id);
                        Event::Selected(Some(ProofId::Equivocation(id)))
                    },
                    ReportDecision::Expired => Event::Failed(RelayError::ExpiredEvidence),
                    _ => Event::Selected(None),
                };
                let step = machine.step(event, cfg, now);
                EquivocationStep {
                    next: EquivocationPipeline { machine: step.next, seen },
                    decision,
                    action: step.action,
                    notice: step.notice,
                }
            },
            _ => EquivocationStep {
                next: EquivocationPipeline { machine, seen },
                decision: ReportDecision::NotTaken,
                action: Action::Nothing,
                notice: None,
            },
        }
    }

    /// Takes any event but a selection.
    pub fn on_event(self, event: Event, cfg: &RelayConfig, now: u64) -> (r: EquivocationStep)
        ensures
            r@ == spec_on_event(self@, event, *cfg, now),
            r.next.seen == self.seen,
    {
        match event {
            Event::Selected(_) => EquivocationStep {
                next: self,
                decision: ReportDecision::NotTaken,
                action: Action::Nothing,
                notice: None,
            },
            event => {
                let step = self.machine.step(event, cfg, now);
                EquivocationStep {
                    next: EquivocationPipeline { machine: step.next, seen: self.seen },
                    decision: ReportDecision::NotTaken,
                    action: step.action,
                    notice: step.notice,
                }
            },
        }
    }
}

/// A report whose window has passed is never relayed, whatever else holds
/// of it.
pub proof fn lemma_expired_is_never_relayed(seen: Set<ReportId>, in_hand: Option<ProofId>, id: ReportId, origin_height: u64, window: u64, current_height: u64)
    requires
        origin_height + window < current_height,
    ensures
        spec_decide(seen, in_hand, id, origin_height, window, current_height) == ReportDecision::Expired,
{
}

/// A report that was recorded before and is not the one in hand is never
/// relayed again.
pub proof fn lemma_duplicate_is_never_relayed(seen: Set<ReportId>, in_hand: Option<ProofId>, id: ReportId, origin_height: u64, window: u64, current_height: u64)
    requires
        seen.contains(id),
        in_hand != Some(ProofId::Equivocation(id)),
    ensures
        spec_decide(seen, in_hand, id, origin_height, window, current_height) != ReportDecision::Relay,
{
}

/// Of two reports of one equivocation that come one after the other, the
/// second is not relayed unless it is the retry of the first: when the
/// first is relayed it is recorded, and with the record the second is a
/// duplicate as soon as the first is no longer in hand.
pub proof fn lemma_second_report_is_duplicate(seen: Set<ReportId>, in_hand: Option<ProofId>, later_in_hand: Option<ProofId>, id: ReportId, origin_height: u64, window: u64, h1: u64, h2: u64)
    requires
        spec_decide(seen, in_hand, id, origin_height, window, h1) == ReportDecision::Relay,
        later_in_hand != Some(ProofId::Equivocation(id)),
    ensures
        spec_decide(seen.insert(id), later_in_hand, id, origin_height, window, h2) != ReportDecision::Relay,
{
}

/// Presenting a report leads from a reachable state to a reachable state,
/// and no record is ever lost.
pub proof fn lemma_offer_preserves_wf(s: EquivocationState, id: ReportId, origin_height: u64, current_height: u64, cfg: RelayConfig, now: u64)
    requires
        s.wf(cfg),
    ensures
        spec_offer(s, id, origin_height, current_height, cfg, now).next.wf(cfg),
        s.seen.subset_of(spec_offer(s, id, origin_height, current_height, cfg, now).next.seen),
{
    let decision = spec_decide(s.seen, s.machine.current, id, origin_height, cfg.reporting_window, current_height);
    lemma_step_preserves_wf(s.machine, spec_decided_event(decision, id), cfg, now);
}

/// Every other event leads from a reachable state to a reachable state.
pub proof fn lemma_on_event_preserves_wf(s: EquivocationState, event: Event, cfg: RelayConfig, now: u64)
    requires
        s.wf(cfg),
    ensures
        spec_on_event(s, event, cfg, now).next.wf(cfg),
        spec_on_event(s, event, cfg, now).next.seen == s.seen,
{
    lemma_step_preserves_wf(s.machine, event, cfg, now);
}

/// One thing that the pipeline is told in the course of a run.
pub enum EquivocationInput {
    /// A report was presented.
    Report { id: ReportId, origin_height: u64, current_height: u64, now: u64 },
    /// Any other event.
    Other { event: Event, now: u64 },
}

/// The answer of the pipeline to `input`.
pub open spec fn spec_apply(s: EquivocationState, input: EquivocationInput, cfg: RelayConfig) -> EquivocationAnswer {
    match input {
        EquivocationInput::Report { id, origin_height, current_height, now } => spec_offer(
            s,
            id,
            origin_height,
            current_height,
            cfg,
            now,
        ),
        EquivocationInput::Other { event, now } => spec_on_event(s, event, cfg, now),
    }
}

/// The state of a new pipeline after it was told `inputs`, one after the
/// other.
pub open spec fn spec_run(inputs: Seq<EquivocationInput>, cfg: RelayConfig) -> EquivocationState
    decreases inputs.len(),
{
    if inputs.len() == 0 {
        spec_initial()
    } else {
        spec_apply(spec_run(inputs.drop_last(), cfg), inputs.last(), cfg).next
    }
}

/// Whatever a pipeline is told, in whatever order, it stays in a state
/// that can be reached.
pub proof fn lemma_every_run_is_wf(inputs: Seq<EquivocationInput>, cfg: RelayConfig)
    ensures
        spec_run(inputs, cfg).wf(cfg),
    decreases inputs.len(),
{
    if inputs.len() > 0 {
        lemma_every_run_is_wf(inputs.drop_last(), cfg);
        let s = spec_run(inputs.drop_last(), cfg);
        match inputs.last() {
            EquivocationInput::Report { id, origin_height, current_height, now } => {
                lemma_offer_preserves_wf(s, id, origin_height, current_height, cfg, now);
            },
            EquivocationInput::Other { event, now } => {
                lemma_on_event_preserves_wf(s, event, cfg, now);
            },
        }
    }
}

/// In no run does the pipeline ask for the evidence of a report whose
/// window has passed: whatever it asks for is the report just presented,
/// and that report can still be reported.
pub proof fn lemma_no_run_relays_expired(inputs: Seq<EquivocationInput>, input: EquivocationInput, cfg: RelayConfig)
    ensures
        spec_apply(spec_run(inputs, cfg), input, cfg).action matches Action::Build(p) ==> {
            &&& input matches EquivocationInput::Report { id, origin_height, current_height, .. }
            &&& p == ProofId::Equivocation(id)
            &&& !is_expired(origin_height, cfg.reporting_window, current_height)
        },
{
}

/// In no run is more than one submission of one equivocation in flight.
/// A report that was recorded before is asked for again only as the
/// retry of the report in hand, and then nothing is in flight; and a
/// submission starts only while nothing is in flight, and is the
/// submission of the report in hand, which has been recorded.
pub proof fn lemma_no_run_relays_twice(inputs: Seq<EquivocationInput>, input: EquivocationInput, cfg: RelayConfig)
    ensures
        ({
            let before = spec_run(inputs, cfg);
            let r = spec_apply(before, input, cfg);
            &&& r.action matches Action::Build(ProofId::Equivocation(id)) ==> {
                &&& !before.machine.spec_in_flight()
                &&& before.seen.contains(id) ==> before.machine.current == Some(ProofId::Equivocation(id))
                &&& r.next.seen.contains(id)
            }
            &&& r.action == Action::Submit ==> {
                &&& !before.machine.spec_in_flight()
                &&& r.next.machine.spec_in_flight()
                &&& r.next.machine.attempt.unwrap().proof matches ProofId::Equivocation(id)
                &&& before.machine.current == Some(r.next.machine.attempt.unwrap().proof)
                &&& r.next.seen.contains(id)
            }
        }),
{
    lemma_every_run_is_wf(inputs, cfg);
}

} // verus!
