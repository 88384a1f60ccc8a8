//! The steps that every pipeline goes through for one proof.
//!
//! A pipeline does no outside work itself. It is told what happened, and
//! answers with its next state and with what to do next:
//!
//! ```text
//! Idle -> Selecting -> Building -> Submitting -> AwaitingConfirmation
//!      -> Idle                      (confirmed, rejected, given up)
//!      -> Backoff -> Selecting      (failed in a passing way)
//! any  -> Halted                    (told to stop)
//! ```

use vstd::prelude::*;
use crate::error::{Disposition, RelayError};
use crate::retry::{after_failure, spec_after_failure, RetryDecision};
use crate::submission::{Outcome, ProofId, SubmissionAttempt};
use crate::types::RelayConfig;

verus! {

/// Where a pipeline stands.
#[derive(Clone, Copy, Debug, PartialEq, Eq, Structural)]
pub enum Phase {
    /// Waiting for the next polling interval to pass.
    Idle,
    /// Reading the chains to choose what to relay.
    Selecting,
    /// Waiting for the call builder.
    Building,
    /// Handing the transaction to the target.
    Submitting,
    /// Waiting for the target's verdict.
    AwaitingConfirmation,
    /// Waiting before a retry.
    Backoff,
    /// Stopped for good.
    Halted,
}

/// What a pipeline is told.
#[derive(Clone, Debug, PartialEq, Eq)]
pub enum Event {
    /// The wait that was asked for is over.
    Wake,
    /// The proof chosen to be relayed next, if any.
    Selected(Option<ProofId>),
    /// The call builder produced this payload.
    Built(Vec<u8>),
    /// The target took the transaction.
    Dispatched,
    /// The target accepted the proof.
    Confirmed,
    /// The transaction was lost before the target judged it.
    Dropped,
    /// No verdict came within the time allowed.
    TimedOut,
    /// The work in hand failed.
    Failed(RelayError),
    /// The relay guard orders every pipeline to stop.
    Stop,
}

/// What a pipeline asks for.
#[derive(Clone, Copy, Debug, PartialEq, Eq, Structural)]
pub enum Action {
    /// Read the chains and report the choice with `Event::Selected`.
    Select,
    /// Have the call builder encode this proof.
    Build(ProofId),
    /// Hand the payload of the attempt in flight to the target.
    Submit,
    /// Wait for the target's verdict, for a bounded time.
    AwaitConfirmation,
    /// Wait this many milliseconds, then report `Event::Wake`.
    Sleep(u64),
    /// End the loop.
    Halt,
    /// The event did not apply: go on as before.
    Nothing,
}

/// The state of one pipeline.
#[derive(Clone, Debug, PartialEq, Eq)]
pub struct Pipeline {
    pub phase: Phase,
    /// The proof in hand.
    pub current: Option<ProofId>,
    /// How many times in a row the work in hand has failed.
    pub failures: u32,
    /// The latest submission. It is in flight while its outcome is pending.
    pub attempt: Option<SubmissionAttempt>,
}

/// The answer of a pipeline to one event.
#[derive(Clone, Debug, PartialEq, Eq)]
pub struct StepResult {
    pub next: Pipeline,
    pub action: Action,
    /// A condition to be logged. It never ends the loop by itself.
    pub notice: Option<RelayError>,
}

/// The record of the latest submission with `outcome` written into it, if
/// it was still pending.
pub open spec fn spec_settle(attempt: Option<SubmissionAttempt>, outcome: Outcome) -> Option<SubmissionAttempt> {
    match attempt {
        Some(a) => Some(a.spec_settle(outcome)),
        None => None,
    }
}

/// The pipeline stops for good and abandons what was in flight.
pub open spec fn spec_halted(s: Pipeline) -> StepResult {
    StepResult {
        next: Pipeline {
            phase: Phase::Halted,
            current: None,
            failures: 0,
            attempt: spec_settle(s.attempt, Outcome::Dropped),
        },
        action: Action::Halt,
        notice: None,
    }
}

/// The work in hand is over; the pipeline rests for one polling interval.
pub open spec fn spec_finished(s: Pipeline, outcome: Outcome, cfg: RelayConfig, notice: Option<RelayError>) -> StepResult {
    StepResult {
        next: Pipeline {
            phase: Phase::Idle,
            current: None,
            failures: 0,
            attempt: spec_settle(s.attempt, outcome),
        },
        action: Action::Sleep(cfg.polling_interval_ms),
        notice,
    }
}

/// The event does not apply in this state.
pub open spec fn spec_ignored(s: Pipeline) -> StepResult {
    StepResult { next: s, action: Action::Nothing, notice: None }
}

/// The work in hand failed with `err`. A passing failure leads to a retry
/// after a backoff delay while retries are left, and to giving up after
/// that; a stale submission counts as done; an order to stop halts; any
/// other failure ends the work on this proof.
pub open spec fn spec_failed(s: Pipeline, err: RelayError, cfg: RelayConfig) -> StepResult {
    match err.spec_disposition() {
        Disposition::Retry => match spec_after_failure(cfg, s.failures) {
            RetryDecision::RetryAfter(delay) => StepResult {
                next: Pipeline {
                    phase: Phase::Backoff,
                    current: s.current,
                    failures: (s.failures + 1) as u32,
                    attempt: spec_settle(s.attempt, Outcome::Dropped),
                },
                action: Action::Sleep(delay),
                notice: Some(err),
            },
            RetryDecision::GiveUp => spec_finished(s, Outcome::Dropped, cfg, Some(RelayError::ExhaustedRetries)),
        },
        Disposition::Fatal => spec_halted(s),
        _ => spec_finished(s, Outcome::Rejected, cfg, Some(err)),
    }
}

/// The answer of a pipeline in state `s` to `event`, at time `now`.
pub open spec fn spec_step(s: Pipeline, event: Event, cfg: RelayConfig, now: u64) -> StepResult {
    if event == Event::Stop {
        spec_halted(s)
    } else if s.phase == Phase::Halted {
        StepResult { next: s, action: Action::Halt, notice: None }
    } else if event matches Event::Failed(err) && err.spec_is_fatal() {
        spec_halted(s)
    } else {
        match s.phase {
            Phase::Idle | Phase::Backoff => match event {
                Event::Wake => StepResult {
                    next: Pipeline { phase: Phase::Selecting, ..s },
                    action: Action::Select,
                    notice: None,
                },
                _ => spec_ignored(s),
            },
            Phase::Selecting => match event {
                Event::Selected(Some(id)) => StepResult {
                    next: Pipeline {
                        phase: Phase::Building,
                        current: Some(id),
                        failures: if s.current == Some(id) { s.failures } else { 0 },
                        attempt: s.attempt,
                    },
                    action: Action::Build(id),
                    notice: None,
                },
                Event::Selected(None) => spec_finished(s, Outcome::Dropped, cfg, None),
                Event::Failed(err) => spec_failed(s, err, cfg),
                _ => spec_ignored(s),
            },
            Phase::Building => match event {
                Event::Built(payload) => match s.current {
                    Some(id) => StepResult {
                        next: Pipeline {
                            phase: Phase::Submitting,
                            current: s.current,
                            failures: s.failures,
                            attempt: Some(
                                SubmissionAttempt {
                                    proof: id,
                                    payload,
                                    submitted_at: now,
                                    retry_count: s.failures,
                                    outcome: Outcome::Pending,
                                },
                            ),
                        },
                        action: Action::Submit,
                        notice: None,
                    },
                    None => spec_ignored(s),
                },
                Event::Failed(err) => spec_failed(s, err, cfg),
                _ => spec_ignored(s),
            },
            Phase::Submitting => match event {
                Event::Dispatched => StepResult {
                    next: Pipeline { phase: Phase::AwaitingConfirmation, ..s },
                    action: Action::AwaitConfirmation,
                    notice: None,
                },
                Event::Failed(err) => spec_failed(s, err, cfg),
                _ => spec_ignored(s),
            },
            Phase::AwaitingConfirmation => match event {
                Event::Confirmed => spec_finished(s, Outcome::Confirmed, cfg, None),
                Event::Dropped | Event::TimedOut => spec_failed(s, RelayError::TransientNetworkError, cfg),
                Event::Failed(err) => spec_failed(s, err, cfg),
                _ => spec_ignored(s),
            },
            Phase::Halted => spec_ignored(s),
        }
    }
}

fn settle(attempt: Option<SubmissionAttempt>, outcome: Outcome) -> (r: Option<SubmissionAttempt>)
    ensures
        r == spec_settle(attempt, outcome),
{
    match attempt {
        Some(a) => Some(a.settle(outcome)),
        None => None,
    }
}

fn halted(s: Pipeline) -> (r: StepResult)
    ensures
        r == spec_halted(s),
{
    StepResult {
        next: Pipeline {
            phase: Phase::Halted,
            current: None,
            failures: 0,
            attempt: settle(s.attempt, Outcome::Dropped),
        },
        action: Action::Halt,
        notice: None,
    }
}

fn finished(s: Pipeline, outcome: Outcome, cfg: &RelayConfig, notice: Option<RelayError>) -> (r: StepResult)
    ensures
        r == spec_finished(s, outcome, *cfg, notice),
{
    StepResult {
        next: Pipeline { phase: Phase::Idle, current: None, failures: 0, attempt: settle(s.attempt, outcome) },
        action: Action::Sleep(cfg.polling_interval_ms),
        notice,
    }
}

fn ignored(s: Pipeline) -> (r: StepResult)
    ensures
        r == spec_ignored(s),
{
    StepResult { next: s, action: Action::Nothing, notice: None }
}

fn failed(s: Pipeline, err: RelayError, cfg: &RelayConfig) -> (r: StepResult)
    ensures
        r == spec_failed(s, err, *cfg),
{
    match err.disposition() {
        Disposition::Retry => match after_failure(cfg, s.failures) {
            RetryDecision::RetryAfter(delay) => StepResult {
                next: Pipeline {
                    phase: Phase::Backoff,
                    current: s.current,
                    failures: s.failures + 1,
                    attempt: settle(s.attempt, Outcome::Dropped),
                },
                action: Action::Sleep(delay),
                notice: Some(err),
            },
            RetryDecision::GiveUp => finished(s, Outcome::Dropped, cfg, Some(RelayError::ExhaustedRetries)),
        },
        Disposition::Fatal => halted(s),
        _ => finished(s, Outcome::Rejected, cfg, Some(err)),
    }
}

fn holds(current: &Option<ProofId>, id: &ProofId) -> (b: bool)
    ensures
        b == (*current == Some(*id)),
{
    match current {
        Some(c) => c.same(id),
        None => false,
    }
}

impl Pipeline {
    /// A pipeline at rest, with nothing in hand.
    pub open spec fn spec_new() -> Pipeline {
        Pipeline { phase: Phase::Idle, current: None, failures: 0, attempt: None }
    }

    /// Whether a submission is in flight.
    pub open spec fn spec_in_flight(&self) -> bool {
        self.attempt matches Some(a) && a.spec_in_flight()
    }

    /// What holds of every state that a pipeline can reach under `cfg`:
    /// a submission is in flight exactly while the pipeline submits or
    /// awaits the verdict, and it is a submission of the proof in hand;
    /// at rest nothing is in hand; the failures in a row never exceed the
    /// retries allowed.
    pub open spec fn wf(&self, cfg: RelayConfig) -> bool {
        &&& self.spec_in_flight() <==> (self.phase == Phase::Submitting || self.phase == Phase::AwaitingConfirmation)
        &&& self.spec_in_flight() ==> self.current == Some(self.attempt.unwrap().proof)
            && self.attempt.unwrap().retry_count == self.failures
        &&& self.phase == Phase::Building ==> self.current is Some
        &&& (self.phase == Phase::Idle || self.phase == Phase::Halted) ==> self.current is None && self.failures == 0
        &&& self.phase == Phase::Backoff ==> self.failures >= 1
        &&& self.failures <= cfg.max_retries
    }

    pub fn new() -> (p: Pipeline)
        ensures
            p == Pipeline::spec_new(),
    {
        Pipeline { phase: Phase::Idle, current: None, failures: 0, attempt: None }
    }

    pub fn in_flight(&self) -> (b: bool)
        ensures
            b == self.spec_in_flight(),
    {
        match &self.attempt {
            Some(a) => a.in_flight(),
            None => false,
        }
    }

    pub fn is_halted(&self) -> (b: bool)
        ensures
            b == (self.phase == Phase::Halted),
    {
        match self.phase {
            Phase::Halted => true,
            _ => false,
        }
    }

    /// Takes one event and answers with the next state, the action to
    /// perform, and a condition to log if there is one.
    pub fn step(self, event: Event, cfg: &RelayConfig, now: u64) -> (r: StepResult)
        ensures
            r == spec_step(self, event, *cfg, now),
    {
        match event {
            Event::Stop => halted(self),
            event => match self.phase {
                Phase::Halted => StepResult { next: self, action: Action::Halt, notice: None },
                phase => match event {
                    Event::Failed(err) => {
                        if err.is_fatal() {
                            halted(self)
                        } else {
                            match phase {
                                Phase::Idle | Phase::Backoff => ignored(self),
                                _ => failed(self, err, cfg),
                            }
                        }
                    },
                    Event::Wake => match phase {
                        Phase::Idle | Phase::Backoff => StepResult {
                            next: Pipeline {
                                phase: Phase::Selecting,
                                current: self.current,
                                failures: self.failures,
                                attempt: self.attempt,
                            },
                            action: Action::Select,
                            notice: None,
                        },
                        _ => ignored(self),
                    },
                    Event::Selected(choice) => match phase {
                        Phase::Selecting => match choice {
                            Some(id) => {
                                let failures: u32 = if holds(&self.current, &id) { self.failures } else { 0 };
                                StepResult {
                                    next: Pipeline {
                                        phase: Phase::Building,
                                        current: Some(id),
                                        failures,
                                        attempt: self.attempt,
                                    },
                                    action: Action::Build(id),
                                    notice: None,
                                }
                            },
                            None => finished(self, Outcome::Dropped, cfg, None),
                        },
                        _ => ignored(self),
                    },
                    Event::Built(payload) => match phase {
                        Phase::Building => match self.current {
                            Some(id) => StepResult {
                                next: Pipeline {
                                    phase: Phase::Submitting,
                                    current: self.current,
                                    failures: self.failures,
                                    attempt: Some(SubmissionAttempt::new(id, payload, now, self.failures)),
                                },
                                action: Action::Submit,
                                notice: None,
                            },
                            None => ignored(self),
                        },
                        _ => ignored(self),
                    },
                    Event::Dispatched => match phase {
                        Phase::Submitting => StepResult {
                            next: Pipeline {
                                phase: Phase::AwaitingConfirmation,
                                current: self.current,
                                failures: self.failures,
                                attempt: self.attempt,
                            },
                            action: Action::AwaitConfirmation,
                            notice: None,
                        },
                        _ => ignored(self),
                    },
                    Event::Confirmed => match phase {
                        Phase::AwaitingConfirmation => finished(self, Outcome::Confirmed, cfg, None),
                        _ => ignored(self),
                    },
                    Event::Dropped | Event::TimedOut => match phase {
                        Phase::AwaitingConfirmation => failed(self, RelayError::TransientNetworkError, cfg),
                        _ => ignored(self),
                    },
                    Event::Stop => halted(self),
                },
            },
        }
    }
}

/// Every step leads from a reachable state to a reachable state.
pub proof fn lemma_step_preserves_wf(s: Pipeline, event: Event, cfg: RelayConfig, now: u64)
    requires
        s.wf(cfg),
    ensures
        spec_step(s, event, cfg, now).next.wf(cfg),
{
}

/// A new pipeline is in a reachable state.
pub proof fn lemma_new_is_wf(cfg: RelayConfig)
    ensures
        Pipeline::spec_new().wf(cfg),
{
}

/// A halted pipeline stays halted and asks for nothing but the end of the
/// loop.
pub proof fn lemma_halted_is_terminal(s: Pipeline, event: Event, cfg: RelayConfig, now: u64)
    requires
        s.phase == Phase::Halted,
    ensures
        spec_step(s, event, cfg, now).next.phase == Phase::Halted,
        spec_step(s, event, cfg, now).action == Action::Halt,
{
}

/// Only the relay guard halts a pipeline: by its order to stop, or by the
/// change of the runtime specification that it reports.
pub proof fn lemma_halts_only_on_guard_signal(s: Pipeline, event: Event, cfg: RelayConfig, now: u64)
    requires
        s.phase != Phase::Halted,
        spec_step(s, event, cfg, now).next.phase == Phase::Halted,
    ensures
        event == Event::Stop || event == Event::Failed(RelayError::RuntimeSpecChanged),
{
}

/// The order to stop halts a pipeline in every state, leaves nothing in
/// flight, and no further submission follows.
pub proof fn lemma_stop_always_halts(s: Pipeline, cfg: RelayConfig, now: u64)
    ensures
        spec_step(s, Event::Stop, cfg, now).next.phase == Phase::Halted,
        spec_step(s, Event::Stop, cfg, now).action == Action::Halt,
        !spec_step(s, Event::Stop, cfg, now).next.spec_in_flight(),
{
}

/// A failure that concerns one item never halts the pipeline.
pub proof fn lemma_item_errors_never_halt(s: Pipeline, err: RelayError, cfg: RelayConfig, now: u64)
    requires
        s.phase != Phase::Halted,
        !err.spec_is_fatal(),
    ensures
        spec_step(s, Event::Failed(err), cfg, now).next.phase != Phase::Halted,
        spec_step(s, Event::Failed(err), cfg, now).action != Action::Halt,
{
}

/// At most one submission is in flight: a pipeline asks to submit only
/// while nothing is in flight, and what it then submits is the proof in
/// hand.
pub proof fn lemma_single_submission_in_flight(s: Pipeline, event: Event, cfg: RelayConfig, now: u64)
    requires
        s.wf(cfg),
        spec_step(s, event, cfg, now).action == Action::Submit,
    ensures
        !s.spec_in_flight(),
        s.phase == Phase::Building,
        spec_step(s, event, cfg, now).next.spec_in_flight(),
        s.current == Some(spec_step(s, event, cfg, now).next.attempt.unwrap().proof),
{
}

/// No item is retried without end: once the retries allowed are used up,
/// one more passing failure ends the work on the item with a warning, and
/// the pipeline rests.
pub proof fn lemma_retries_are_bounded(s: Pipeline, cfg: RelayConfig, now: u64)
    requires
        s.phase == Phase::Selecting || s.phase == Phase::Building || s.phase == Phase::Submitting
            || s.phase == Phase::AwaitingConfirmation,
        s.failures >= cfg.max_retries,
    ensures
        spec_step(s, Event::Failed(RelayError::TransientNetworkError), cfg, now).next.phase == Phase::Idle,
        spec_step(s, Event::Failed(RelayError::TransientNetworkError), cfg, now).notice == Some(
            RelayError::ExhaustedRetries,
        ),
        spec_step(s, Event::Failed(RelayError::TransientNetworkError), cfg, now).action == Action::Sleep(
            cfg.polling_interval_ms,
        ),
{
}

/// While retries are left, a passing failure leads to a backoff wait of
/// bounded length and then to a new selection.
pub proof fn lemma_transient_failure_backs_off(s: Pipeline, cfg: RelayConfig, now: u64)
    requires
        s.phase == Phase::Selecting || s.phase == Phase::Building || s.phase == Phase::Submitting
            || s.phase == Phase::AwaitingConfirmation,
        s.failures < cfg.max_retries,
    ensures
        ({
            let r = spec_step(s, Event::Failed(RelayError::TransientNetworkError), cfg, now);
            &&& r.next.phase == Phase::Backoff
            &&& r.next.failures == s.failures + 1
            &&& r.next.current == s.current
            &&& r.action matches Action::Sleep(delay) && delay <= cfg.backoff_ceiling_ms
            &&& spec_step(r.next, Event::Wake, cfg, now).next.phase == Phase::Selecting
            &&& spec_step(r.next, Event::Wake, cfg, now).action == Action::Select
        }),
{
}

/// A verdict that never comes, and a transaction that is lost, are handled
/// as a passing failure.
pub proof fn lemma_timeout_is_transient(s: Pipeline, cfg: RelayConfig, now: u64)
    requires
        s.phase == Phase::AwaitingConfirmation,
    ensures
        spec_step(s, Event::TimedOut, cfg, now) == spec_step(
            s,
            Event::Failed(RelayError::TransientNetworkError),
            cfg,
            now,
        ),
        spec_step(s, Event::Dropped, cfg, now) == spec_step(s, Event::TimedOut, cfg, now),
{
}

/// A submission that the target refuses as stale leaves the pipeline where
/// a confirmed one leaves it: at rest, with nothing in hand and nothing in
/// flight.
pub proof fn lemma_stale_counts_as_confirmed(s: Pipeline, cfg: RelayConfig, now: u64)
    requires
        s.phase == Phase::AwaitingConfirmation,
    ensures
        ({
            let stale = spec_step(s, Event::Failed(RelayError::StaleSubmission), cfg, now);
            let confirmed = spec_step(s, Event::Confirmed, cfg, now);
            &&& stale.next.phase == Phase::Idle
            &&& stale.next.phase == confirmed.next.phase
            &&& stale.next.current == confirmed.next.current
            &&& stale.next.failures == confirmed.next.failures
            &&& stale.action == confirmed.action
            &&& !stale.next.spec_in_flight()
            &&& !confirmed.next.spec_in_flight()
        }),
{
}

/// A pipeline never spins: whenever it comes to rest, it asks for a wait
/// of one polling interval before it selects again.
pub proof fn lemma_rest_waits_one_interval(s: Pipeline, event: Event, cfg: RelayConfig, now: u64)
    requires
        s.phase != Phase::Idle,
        spec_step(s, event, cfg, now).next.phase == Phase::Idle,
    ensures
        spec_step(s, event, cfg, now).action == Action::Sleep(cfg.polling_interval_ms),
{
}

} // verus!
