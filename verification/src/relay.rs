//! The two pipelines under their guard.

use vstd::prelude::*;
use crate::equivocation::{spec_initial, spec_on_event, EquivocationPipeline};
use crate::error::RelayError;
use crate::finality::FinalityPipeline;
use crate::guard::{GuardAction, GuardStep, RelayGuard};
use crate::pipeline::{Event, Phase};
use crate::types::RelayConfig;

verus! {

/// The whole relay: both pipelines, and the guard that can stop them.
#[derive(Clone, Debug, PartialEq, Eq)]
pub struct Relay {
    pub guard: RelayGuard,
    pub finality: FinalityPipeline,
    pub equivocation: EquivocationPipeline,
}

/// The answer of the relay to one reading of the guard.
#[derive(Clone, Debug, PartialEq, Eq)]
pub struct RelayStep {
    pub next: Relay,
    pub action: GuardAction,
    /// The condition on which the process ends, if it ends.
    pub fatal: Option<RelayError>,
}

/// `r` is what becomes of the relay `before` when its guard answers `g`:
/// where the guard aborts, both pipelines are ordered to stop and the
/// change of the runtime specification is reported as fatal; otherwise
/// both pipelines are left as they are.
pub open spec fn spec_obeys(before: Relay, g: GuardStep, r: RelayStep, cfg: RelayConfig, now: u64) -> bool {
    &&& r.next.guard == g.guard
    &&& r.action == g.action
    &&& if g.action == GuardAction::Abort {
        &&& r.next.finality == before.finality.spec_on_event(Event::Stop, cfg, now).next
        &&& r.next.equivocation@ == spec_on_event(before.equivocation@, Event::Stop, cfg, now).next
        &&& r.next.equivocation.seen == before.equivocation.seen
        &&& r.fatal == Some(RelayError::RuntimeSpecChanged)
    } else {
        &&& r.next.finality == before.finality
        &&& r.next.equivocation == before.equivocation
        &&& r.fatal == None::<RelayError>
    }
}

impl Relay {
    /// Both pipelines are halted.
    pub open spec fn spec_halted(&self) -> bool {
        &&& self.finality.machine.phase == Phase::Halted
        &&& self.equivocation.machine.phase == Phase::Halted
    }

    /// No pipeline has a submission in flight.
    pub open spec fn spec_nothing_in_flight(&self) -> bool {
        &&& !self.finality.machine.spec_in_flight()
        &&& !self.equivocation.machine.spec_in_flight()
    }

    /// A relay with both pipelines at rest, and its guard on or off as
    /// `cfg` says.
    pub fn new(cfg: &RelayConfig) -> (r: RelayStep)
        ensures
            r.next.guard == RelayGuard::spec_start(cfg.enable_version_guard).guard,
            r.action == RelayGuard::spec_start(cfg.enable_version_guard).action,
            r.next.finality == FinalityPipeline::spec_new(),
            r.next.equivocation@ == spec_initial(),
            r.fatal == None::<RelayError>,
    {
        let g = RelayGuard::start(cfg.enable_version_guard);
        RelayStep {
            next: Relay { guard: g.guard, finality: FinalityPipeline::new(), equivocation: EquivocationPipeline::new() },
            action: g.action,
            fatal: None,
        }
    }

    fn obey(self, g: GuardStep, cfg: &RelayConfig, now: u64) -> (r: RelayStep)
        ensures
            spec_obeys(self, g, r, *cfg, now),
            g.action == GuardAction::Abort ==> r.next.spec_halted() && r.next.spec_nothing_in_flight(),
    {
        match g.action {
            GuardAction::Abort => {
                let f = self.finality.on_event(Event::Stop, cfg, now);
                let e = self.equivocation.on_event(Event::Stop, cfg, now);
                RelayStep {
                    next: Relay { guard: g.guard, finality: f.next, equivocation: e.next },
                    action: g.action,
                    fatal: Some(RelayError::RuntimeSpecChanged),
                }
            },
            _ => RelayStep {
                next: Relay { guard: g.guard, finality: self.finality, equivocation: self.equivocation },
                action: g.action,
                fatal: None,
            },
        }
    }

    /// Takes one reading of the target's runtime version.
    ///
    /// The guard judges the reading. Where it differs from the version
    /// recorded, both pipelines halt at once, whatever they were doing,
    /// and the relay reports the change as fatal. Any other reading leaves
    /// both pipelines untouched.
    pub fn observe_version(self, version: u32, cfg: &RelayConfig, now: u64) -> (r: RelayStep)
        ensures
            spec_obeys(self, self.guard.spec_observe(version, *cfg), r, *cfg, now),
            r.action == GuardAction::Abort ==> r.next.spec_halted() && r.next.spec_nothing_in_flight(),
    {
        let g = self.guard.observe(version, cfg);
        self.obey(g, cfg, now)
    }

    /// Takes note that a reading of the version failed.
    pub fn version_read_failed(self, cfg: &RelayConfig, now: u64) -> (r: RelayStep)
        ensures
            spec_obeys(self, self.guard.spec_read_failed(*cfg), r, *cfg, now),
            r.action == GuardAction::Abort ==> r.next.spec_halted() && r.next.spec_nothing_in_flight(),
    {
        let g = self.guard.read_failed(cfg);
        self.obey(g, cfg, now)
    }

    /// Whether both pipelines have halted.
    pub fn is_halted(&self) -> (b: bool)
        ensures
            b == self.spec_halted(),
    {
        self.finality.machine.is_halted() && self.equivocation.machine.is_halted()
    }
}

/// Once the guard has tripped, every later reading halts the relay again:
/// there is no way back.
pub proof fn lemma_tripped_relay_aborts(relay: Relay, version: u32, cfg: RelayConfig)
    requires
        relay.guard.spec_is_tripped(),
    ensures
        relay.guard.spec_observe(version, cfg).action == GuardAction::Abort,
        relay.guard.spec_read_failed(cfg).action == GuardAction::Abort,
        relay.guard.spec_observe(version, cfg).guard == relay.guard,
{
}

} // verus!
