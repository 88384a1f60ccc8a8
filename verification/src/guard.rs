//! The relay guard: stops the relay when the runtime specification of the
//! target changes under it.
//!
//! The encoding of every call that the relay submits depends on the
//! version of the target's runtime. Once that version is no longer the one
//! recorded at the start, nothing more may be submitted.

use vstd::prelude::*;
use crate::error::RelayError;
use crate::types::RelayConfig;

verus! {

/// The state of the relay guard.
#[derive(Clone, Copy, Debug, PartialEq, Eq, Structural)]
pub enum RelayGuard {
    /// The guard is switched off.
    Disabled,
    /// The guard waits for the first reading of the version.
    Starting,
    /// The guard compares every reading with the version recorded.
    Watching { recorded: u32 },
    /// A reading differed from the version recorded.
    Tripped { recorded: u32, observed: u32 },
}

/// What the guard asks for.
#[derive(Clone, Copy, Debug, PartialEq, Eq, Structural)]
pub enum GuardAction {
    /// Nothing: the guard is off.
    Nothing,
    /// Read the target's runtime version now.
    ReadVersion,
    /// Read the target's runtime version after this many milliseconds.
    ReadVersionAfter(u64),
    /// The first reading failed: the relay does not start.
    FailStart,
    /// Order both pipelines to stop and end the process.
    Abort,
}

/// The answer of the guard to one reading.
#[derive(Clone, Copy, Debug, PartialEq, Eq, Structural)]
pub struct GuardStep {
    pub guard: RelayGuard,
    pub action: GuardAction,
    pub notice: Option<RelayError>,
}

impl RelayGuard {
    /// The guard at the start of the relay: off, or waiting for the first
    /// reading.
    pub open spec fn spec_start(enabled: bool) -> GuardStep {
        if enabled {
            GuardStep { guard: RelayGuard::Starting, action: GuardAction::ReadVersion, notice: None }
        } else {
            GuardStep { guard: RelayGuard::Disabled, action: GuardAction::Nothing, notice: None }
        }
    }

    /// The guard after it read `version`: the first reading is recorded;
    /// every later one must equal it, or the guard trips and stays tripped.
    pub open spec fn spec_observe(self, version: u32, cfg: RelayConfig) -> GuardStep {
        match self {
            RelayGuard::Disabled => GuardStep { guard: self, action: GuardAction::Nothing, notice: None },
            RelayGuard::Starting => GuardStep {
                guard: RelayGuard::Watching { recorded: version },
                action: GuardAction::ReadVersionAfter(cfg.polling_interval_ms),
                notice: None,
            },
            RelayGuard::Watching { recorded } => if version == recorded {
                GuardStep { guard: self, action: GuardAction::ReadVersionAfter(cfg.polling_interval_ms), notice: None }
            } else {
                GuardStep {
                    guard: RelayGuard::Tripped { recorded, observed: version },
                    action: GuardAction::Abort,
                    notice: Some(RelayError::RuntimeSpecChanged),
                }
            },
            RelayGuard::Tripped { .. } => GuardStep {
                guard: self,
                action: GuardAction::Abort,
                notice: Some(RelayError::RuntimeSpecChanged),
            },
        }
    }

    /// The guard after a reading failed: at the start the relay gives up;
    /// later the guard reads again after the interval.
    pub open spec fn spec_read_failed(self, cfg: RelayConfig) -> GuardStep {
        match self {
            RelayGuard::Disabled => GuardStep { guard: self, action: GuardAction::Nothing, notice: None },
            RelayGuard::Starting => GuardStep {
                guard: self,
                action: GuardAction::FailStart,
                notice: Some(RelayError::TransientNetworkError),
            },
            RelayGuard::Watching { .. } => GuardStep {
                guard: self,
                action: GuardAction::ReadVersionAfter(cfg.polling_interval_ms),
                notice: Some(RelayError::TransientNetworkError),
            },
            RelayGuard::Tripped { .. } => GuardStep {
                guard: self,
                action: GuardAction::Abort,
                notice: Some(RelayError::RuntimeSpecChanged),
            },
        }
    }

    pub open spec fn spec_is_tripped(self) -> bool {
        self is Tripped
    }

    pub fn start(enabled: bool) -> (r: GuardStep)
        ensures
            r == RelayGuard::spec_start(enabled),
    {
        if enabled {
            GuardStep { guard: RelayGuard::Starting, action: GuardAction::ReadVersion, notice: None }
        } else {
            GuardStep { guard: RelayGuard::Disabled, action: GuardAction::Nothing, notice: None }
        }
    }

    /// Takes one reading of the target's runtime version.
    pub fn observe(self, version: u32, cfg: &RelayConfig) -> (r: GuardStep)
        ensures
            r == self.spec_observe(version, *cfg),
    {
        match self {
            RelayGuard::Disabled => GuardStep { guard: self, action: GuardAction::Nothing, notice: None },
            RelayGuard::Starting => GuardStep {
                guard: RelayGuard::Watching { recorded: version },
                action: GuardAction::ReadVersionAfter(cfg.polling_interval_ms),
                notice: None,
            },
            RelayGuard::Watching { recorded } => {
                if version == recorded {
                    GuardStep {
                        guard: self,
                        action: GuardAction::ReadVersionAfter(cfg.polling_interval_ms),
                        notice: None,
                    }
                } else {
                    GuardStep {
                        guard: RelayGuard::Tripped { recorded, observed: version },
                        action: GuardAction::Abort,
                        notice: Some(RelayError::RuntimeSpecChanged),
                    }
                }
            },
            RelayGuard::Tripped { .. } => GuardStep {
                guard: self,
                action: GuardAction::Abort,
                notice: Some(RelayError::RuntimeSpecChanged),
            },
        }
    }

    /// Takes note that a reading of the version failed.
    pub fn read_failed(self, cfg: &RelayConfig) -> (r: GuardStep)
        ensures
            r == self.spec_read_failed(*cfg),
    {
        match self {
            RelayGuard::Disabled => GuardStep { guard: self, action: GuardAction::Nothing, notice: None },
            RelayGuard::Starting => GuardStep {
                guard: self,
                action: GuardAction::FailStart,
                notice: Some(RelayError::TransientNetworkError),
            },
            RelayGuard::Watching { .. } => GuardStep {
                guard: self,
                action: GuardAction::ReadVersionAfter(cfg.polling_interval_ms),
                notice: Some(RelayError::TransientNetworkError),
            },
            RelayGuard::Tripped { .. } => GuardStep {
                guard: self,
                action: GuardAction::Abort,
                notice: Some(RelayError::RuntimeSpecChanged),
            },
        }
    }

    pub fn is_tripped(&self) -> (b: bool)
        ensures
            b == self.spec_is_tripped(),
    {
        match self {
            RelayGuard::Tripped { .. } => true,
            _ => false,
        }
    }
}

/// A guard that watches aborts on a reading exactly when the reading
/// differs from the version recorded.
pub proof fn lemma_guard_trips_on_any_change(g: RelayGuard, recorded: u32, version: u32, cfg: RelayConfig)
    requires
        g == (RelayGuard::Watching { recorded }),
    ensures
        (g.spec_observe(version, cfg).action == GuardAction::Abort) <==> version != recorded,
        version != recorded ==> g.spec_observe(version, cfg).guard.spec_is_tripped(),
        version != recorded ==> g.spec_observe(version, cfg).notice == Some(RelayError::RuntimeSpecChanged),
        version == recorded ==> g.spec_observe(version, cfg).guard == g,
{
}

/// A guard that has tripped stays tripped: every later reading, even of
/// the version recorded, and every failed reading, lead to an abort.
pub proof fn lemma_tripped_is_terminal(g: RelayGuard, version: u32, cfg: RelayConfig)
    requires
        g.spec_is_tripped(),
    ensures
        g.spec_observe(version, cfg).guard == g,
        g.spec_observe(version, cfg).action == GuardAction::Abort,
        g.spec_read_failed(cfg).guard == g,
        g.spec_read_failed(cfg).action == GuardAction::Abort,
{
}

/// A guard that is switched off never aborts.
pub proof fn lemma_disabled_never_aborts(version: u32, cfg: RelayConfig)
    ensures
        RelayGuard::spec_start(false).guard == RelayGuard::Disabled,
        RelayGuard::Disabled.spec_observe(version, cfg).action == GuardAction::Nothing,
        RelayGuard::Disabled.spec_observe(version, cfg).guard == RelayGuard::Disabled,
        RelayGuard::Disabled.spec_read_failed(cfg).action == GuardAction::Nothing,
{
}

/// The first reading is the version recorded.
pub proof fn lemma_first_reading_is_recorded(version: u32, cfg: RelayConfig)
    ensures
        RelayGuard::spec_start(true).guard.spec_observe(version, cfg).guard == (RelayGuard::Watching {
            recorded: version,
        }),
        RelayGuard::spec_start(true).action == GuardAction::ReadVersion,
{
}

} // verus!
