//! The finality sync pipeline: moves the target towards the newest
//! finalized header of the source.

use vstd::prelude::*;
use crate::error::RelayError;
use crate::pipeline::{lemma_step_preserves_wf, spec_step, Action, Event, Phase, Pipeline};
use crate::selection::{
    is_boundary_ahead, lemma_boundary_goes_first, lemma_selection_exists, select_next, spec_select,
};
use crate::submission::ProofId;
use crate::types::{RelayConfig, SourceHeader, TargetChainState};

verus! {

/// The state of the finality sync pipeline.
#[derive(Clone, Debug, PartialEq, Eq)]
pub struct FinalityPipeline {
    pub machine: Pipeline,
    /// The header chosen at the latest selection.
    pub selected: Option<SourceHeader>,
    /// Where the pipeline expects the target to stand: the state it last
    /// read, moved on by every submission settled since.
    pub expected: Option<TargetChainState>,
}

/// The answer of the finality sync pipeline to one event.
#[derive(Clone, Debug, PartialEq, Eq)]
pub struct FinalityStep {
    pub next: FinalityPipeline,
    pub action: Action,
    pub notice: Option<RelayError>,
}

/// The proof that is asked for when the header at `choice` is chosen.
pub open spec fn spec_chosen_proof(cands: Seq<SourceHeader>, choice: Option<int>) -> Option<ProofId> {
    match choice {
        Some(i) => Some(ProofId::Finality { height: cands[i].header.height }),
        None => None,
    }
}

/// The header at `choice`.
pub open spec fn spec_chosen_header(cands: Seq<SourceHeader>, choice: Option<int>) -> Option<SourceHeader> {
    match choice {
        Some(i) => Some(cands[i]),
        None => None,
    }
}

/// The event settles the submission in flight: the target confirmed it,
/// or refused it as stale because it stands there already.
pub open spec fn spec_settles(s: Pipeline, event: Event) -> bool {
    &&& s.phase == Phase::AwaitingConfirmation
    &&& event == Event::Confirmed || event == Event::Failed(RelayError::StaleSubmission)
}

/// The expectation after the header `selected` was settled.
pub open spec fn spec_expect(expected: Option<TargetChainState>, selected: Option<SourceHeader>) -> Option<TargetChainState> {
    match (expected, selected) {
        (Some(t), Some(h)) => Some(t.spec_advance(h)),
        _ => expected,
    }
}

impl FinalityPipeline {
    pub open spec fn spec_new() -> FinalityPipeline {
        FinalityPipeline { machine: Pipeline::spec_new(), selected: None, expected: None }
    }

    /// What holds of every state that the pipeline can reach under `cfg`:
    /// the proof in hand is the finality proof of the header chosen at the
    /// latest selection, and that header lies above the height that the
    /// target had accepted when it was chosen.
    pub open spec fn wf(&self, cfg: RelayConfig) -> bool {
        &&& self.machine.wf(cfg)
        &&& self.machine.current matches Some(id) ==> {
            &&& self.selected is Some
            &&& self.expected is Some
            &&& id == (ProofId::Finality { height: self.selected.unwrap().header.height })
            &&& self.selected.unwrap().header.height > self.expected.unwrap().last_accepted.height
            &&& self.selected.unwrap().has_justification
        }
    }

    /// One selection: with the target's state read anew, the skip policy
    /// chooses among `cands`, and the pipeline goes on to build the proof
    /// of the header chosen, or rests where there is none. Outside the
    /// selecting phase nothing happens.
    pub open spec fn spec_sync_step(self, target: TargetChainState, cands: Seq<SourceHeader>, cfg: RelayConfig, now: u64) -> FinalityStep {
        if self.machine.phase == Phase::Selecting {
            let choice = spec_select(target, cands, cfg.max_set_transitions);
            let r = spec_step(self.machine, Event::Selected(spec_chosen_proof(cands, choice)), cfg, now);
            FinalityStep {
                next: FinalityPipeline {
                    machine: r.next,
                    selected: spec_chosen_header(cands, choice),
                    expected: Some(target),
                },
                action: r.action,
                notice: r.notice,
            }
        } else {
            FinalityStep { next: self, action: Action::Nothing, notice: None }
        }
    }

    /// Any event but a selection: the pipeline goes its way, and where a
    /// submission is settled the expectation of the target moves on. A
    /// selection made elsewhere is not taken.
    pub open spec fn spec_on_event(self, event: Event, cfg: RelayConfig, now: u64) -> FinalityStep {
        if event is Selected {
            FinalityStep { next: self, action: Action::Nothing, notice: None }
        } else {
            let r = spec_step(self.machine, event, cfg, now);
            FinalityStep {
                next: FinalityPipeline {
                    machine: r.next,
                    selected: self.selected,
                    expected: if spec_settles(self.machine, event) {
                        spec_expect(self.expected, self.selected)
                    } else {
                        self.expected
                    },
                },
                action: r.action,
                notice: r.notice,
            }
        }
    }

    pub fn new() -> (p: FinalityPipeline)
        ensures
            p == FinalityPipeline::spec_new(),
    {
        FinalityPipeline { machine: Pipeline::new(), selected: None, expected: None }
    }

    /// Chooses the next header to submit, given the target's state as just
    /// read and the finalized headers of the source.
    pub fn sync_step(self, target: &TargetChainState, candidates: &Vec<SourceHeader>, cfg: &RelayConfig, now: u64) -> (r: FinalityStep)
        ensures
            r == self.spec_sync_step(*target, candidates@, *cfg, now),
            r.action matches Action::Build(id) ==> id matches ProofId::Finality { height }
                && height > target.last_accepted.height,
            r.action != Action::Submit,
    {
        match self.machine.phase {
            Phase::Selecting => {
                let choice = select_next(target, candidates, cfg.max_set_transitions);
                let (proof, selected): (Option<ProofId>, Option<SourceHeader>) = match choice {
                    Some(i) => (
                        Some(ProofId::Finality { height: candidates[i].header.height }),
                        Some(candidates[i]),
                    ),
                    None => (None, None),
                };
                let step = self.machine.step(Event::Selected(proof), cfg, now);
                FinalityStep {
                    next: FinalityPipeline { machine: step.next, selected, expected: Some(*target) },
                    action: step.action,
                    notice: step.notice,
                }
            },
            _ => FinalityStep { next: self, action: Action::Nothing, notice: None },
        }
    }

    /// Takes any event but a selection.
    pub fn on_event(self, event: Event, cfg: &RelayConfig, now: u64) -> (r: FinalityStep)
        ensures
            r == self.spec_on_event(event, *cfg, now),
    {
        let settles: bool = match (&self.machine.phase, &event) {
            (Phase::AwaitingConfirmation, Event::Confirmed) => true,
            (Phase::AwaitingConfirmation, Event::Failed(RelayError::StaleSubmission)) => true,
            _ => false,
        };
        match event {
            Event::Selected(_) => FinalityStep { next: self, action: Action::Nothing, notice: None },
            event => {
                let expected: Option<TargetChainState> = if settles {
                    match (self.expected, self.selected) {
                        (Some(t), Some(h)) => Some(t.advance(&h)),
                        (e, _) => e,
                    }
                } else {
                    self.expected
                };
                let step = self.machine.step(event, cfg, now);
                FinalityStep {
                    next: FinalityPipeline { machine: step.next, selected: self.selected, expected },
                    action: step.action,
                    notice: step.notice,
                }
            },
        }
    }
}

/// The pipeline never asks for a proof of a header at or below the height
/// that the target has accepted, whatever headers the source presents.
pub proof fn lemma_no_redundant_submission(p: FinalityPipeline, target: TargetChainState, cands: Seq<SourceHeader>, cfg: RelayConfig, now: u64)
    ensures
        p.spec_sync_step(target, cands, cfg, now).action matches Action::Build(id) ==> id matches ProofId::Finality {
            height,
        } && height > target.last_accepted.height,
{
    let choice = spec_select(target, cands, cfg.max_set_transitions);
    if p.machine.phase == Phase::Selecting && choice is Some {
        lemma_selection_exists(target, cands, cfg.max_set_transitions);
    }
}

/// A new pipeline is in a reachable state.
pub proof fn lemma_new_finality_is_wf(cfg: RelayConfig)
    ensures
        FinalityPipeline::spec_new().wf(cfg),
{
}

/// A selection leads from a reachable state to a reachable state.
pub proof fn lemma_sync_step_preserves_wf(p: FinalityPipeline, target: TargetChainState, cands: Seq<SourceHeader>, cfg: RelayConfig, now: u64)
    requires
        p.wf(cfg),
    ensures
        p.spec_sync_step(target, cands, cfg, now).next.wf(cfg),
{
    lemma_selection_exists(target, cands, cfg.max_set_transitions);
    lemma_step_preserves_wf(
        p.machine,
        Event::Selected(spec_chosen_proof(cands, spec_select(target, cands, cfg.max_set_transitions))),
        cfg,
        now,
    );
}

/// Every other event leads from a reachable state to a reachable state.
pub proof fn lemma_on_event_preserves_wf(p: FinalityPipeline, event: Event, cfg: RelayConfig, now: u64)
    requires
        p.wf(cfg),
    ensures
        p.spec_on_event(event, cfg, now).next.wf(cfg),
{
    lemma_step_preserves_wf(p.machine, event, cfg, now);
}

/// Whatever the pipeline submits is the proof of a header above the
/// height that the target had accepted when the header was chosen: the
/// submission is the one of the header chosen at the latest selection,
/// and it carries a justification.
pub proof fn lemma_submits_only_above_target(p: FinalityPipeline, event: Event, cfg: RelayConfig, now: u64)
    requires
        p.wf(cfg),
        p.spec_on_event(event, cfg, now).action == Action::Submit,
    ensures
        ({
            let next = p.spec_on_event(event, cfg, now).next;
            &&& next.machine.spec_in_flight()
            &&& next.selected is Some
            &&& next.expected is Some
            &&& next.machine.attempt.unwrap().proof == (ProofId::Finality {
                height: next.selected.unwrap().header.height,
            })
            &&& next.selected.unwrap().header.height > next.expected.unwrap().last_accepted.height
            &&& next.selected.unwrap().has_justification
            &&& next.selected == p.selected
            &&& next.expected == p.expected
        }),
{
}

/// One thing that the pipeline is told in the course of a run.
pub enum FinalityInput {
    /// The chains were read for a selection.
    Selection { target: TargetChainState, headers: Seq<SourceHeader>, now: u64 },
    /// Any other event.
    Other { event: Event, now: u64 },
}

/// The answer of the pipeline to `input`.
pub open spec fn spec_apply(p: FinalityPipeline, input: FinalityInput, cfg: RelayConfig) -> FinalityStep {
    match input {
        FinalityInput::Selection { target, headers, now } => p.spec_sync_step(target, headers, cfg, now),
        FinalityInput::Other { event, now } => p.spec_on_event(event, cfg, now),
    }
}

/// The state of a new pipeline after it was told `inputs`, one after the
/// other.
pub open spec fn spec_run(inputs: Seq<FinalityInput>, cfg: RelayConfig) -> FinalityPipeline
    decreases inputs.len(),
{
    if inputs.len() == 0 {
        FinalityPipeline::spec_new()
    } else {
        spec_apply(spec_run(inputs.drop_last(), cfg), inputs.last(), cfg).next
    }
}

/// Whatever a pipeline is told, in whatever order, it stays in a state
/// that can be reached.
pub proof fn lemma_every_run_is_wf(inputs: Seq<FinalityInput>, cfg: RelayConfig)
    ensures
        spec_run(inputs, cfg).wf(cfg),
    decreases inputs.len(),
{
    if inputs.len() > 0 {
        lemma_every_run_is_wf(inputs.drop_last(), cfg);
        let p = spec_run(inputs.drop_last(), cfg);
        match inputs.last() {
            FinalityInput::Selection { target, headers, now } => {
                lemma_sync_step_preserves_wf(p, target, headers, cfg, now);
            },
            FinalityInput::Other { event, now } => {
                lemma_on_event_preserves_wf(p, event, cfg, now);
            },
        }
    }
}

/// In no run, whatever the source presents and whatever happens, does the
/// pipeline ask for or submit the proof of a header at or below the
/// height that the target had accepted when the header was chosen; and
/// with one submission in flight it never starts another.
pub proof fn lemma_no_run_submits_at_or_below_target(inputs: Seq<FinalityInput>, input: FinalityInput, cfg: RelayConfig)
    ensures
        ({
            let before = spec_run(inputs, cfg);
            let r = spec_apply(before, input, cfg);
            &&& r.action matches Action::Build(id) ==> {
                &&& input matches FinalityInput::Selection { target, .. }
                &&& id matches ProofId::Finality { height }
                &&& height > target.last_accepted.height
            }
            &&& r.action == Action::Submit ==> {
                &&& !before.machine.spec_in_flight()
                &&& r.next.machine.spec_in_flight()
                &&& r.next.machine.attempt.unwrap().proof == (ProofId::Finality {
                    height: r.next.selected.unwrap().header.height,
                })
                &&& r.next.selected.unwrap().header.height > r.next.expected.unwrap().last_accepted.height
                &&& r.next.selected.unwrap().has_justification
            }
        }),
{
    lemma_every_run_is_wf(inputs, cfg);
    let before = spec_run(inputs, cfg);
    match input {
        FinalityInput::Selection { target, headers, now } => {
            lemma_no_redundant_submission(before, target, headers, cfg, now);
        },
        FinalityInput::Other { event, now } => {
            if before.spec_on_event(event, cfg, now).action == Action::Submit {
                lemma_submits_only_above_target(before, event, cfg, now);
            }
        },
    }
}

/// A header that closes an authority set is asked for before any header
/// above it: while the boundary at `b` is still ahead of the target, the
/// pipeline asks for no proof of a higher header.
pub proof fn lemma_boundary_proof_goes_first(p: FinalityPipeline, target: TargetChainState, cands: Seq<SourceHeader>, cfg: RelayConfig, now: u64, b: int)
    requires
        0 <= b < cands.len(),
        is_boundary_ahead(target, cands[b]),
    ensures
        p.spec_sync_step(target, cands, cfg, now).action matches Action::Build(id) ==> id matches ProofId::Finality {
            height,
        } && height <= cands[b].header.height,
{
    let choice = spec_select(target, cands, cfg.max_set_transitions);
    if p.machine.phase == Phase::Selecting && choice is Some {
        lemma_selection_exists(target, cands, cfg.max_set_transitions);
        lemma_boundary_goes_first(target, cands, cfg.max_set_transitions, choice.unwrap(), b);
    }
}

/// Once the target has accepted a boundary, that boundary bars nothing
/// any more: the headers above it can be chosen at the next selection.
pub proof fn lemma_accepted_boundary_is_passed(target: TargetChainState, boundary: SourceHeader)
    requires
        is_boundary_ahead(target, boundary),
    ensures
        !is_boundary_ahead(target.spec_advance(boundary), boundary),
        target.spec_advance(boundary).last_accepted == boundary.header,
        boundary.header.authority_set < u64::MAX ==> target.spec_advance(boundary).authority_set_id
            == boundary.header.authority_set + 1,
{
}

/// Only a selection makes the pipeline ask for a proof: no other event
/// does.
pub proof fn lemma_only_selection_builds(p: FinalityPipeline, event: Event, cfg: RelayConfig, now: u64)
    ensures
        !(p.spec_on_event(event, cfg, now).action is Build),
{
}

/// A submission that is settled twice leaves the expectation of the
/// target where settling it once leaves it.
pub proof fn lemma_settling_twice_changes_nothing(expected: Option<TargetChainState>, selected: Option<SourceHeader>)
    ensures
        spec_expect(spec_expect(expected, selected), selected) == spec_expect(expected, selected),
{
}

/// A confirmed submission and one refused as stale move the expectation
/// of the target to the same place.
pub proof fn lemma_stale_and_confirmed_agree(p: FinalityPipeline, cfg: RelayConfig, now: u64)
    requires
        p.machine.phase == Phase::AwaitingConfirmation,
    ensures
        p.spec_on_event(Event::Confirmed, cfg, now).next.expected == p.spec_on_event(
            Event::Failed(RelayError::StaleSubmission),
            cfg,
            now,
        ).next.expected,
        p.spec_on_event(Event::Confirmed, cfg, now).next.machine.phase == Phase::Idle,
        p.spec_on_event(Event::Failed(RelayError::StaleSubmission), cfg, now).next.machine.phase == Phase::Idle,
{
}

/// Once a submission of the chosen header is settled, the pipeline expects
/// the target at that header or above.
pub proof fn lemma_confirmed_advances_expectation(p: FinalityPipeline, t: TargetChainState, h: SourceHeader, cfg: RelayConfig, now: u64)
    requires
        p.machine.phase == Phase::AwaitingConfirmation,
        p.expected == Some(t),
        p.selected == Some(h),
    ensures
        p.spec_on_event(Event::Confirmed, cfg, now).next.expected == Some(t.spec_advance(h)),
        t.spec_advance(h).last_accepted.height >= h.header.height,
        h.header.height > t.last_accepted.height ==> t.spec_advance(h).last_accepted == h.header,
{
}

} // verus!
