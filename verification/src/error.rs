//! The conditions a relay step can end in, and how each of them is handled.

use vstd::prelude::*;

verus! {

/// The exit status of a process that the relay guard has ended.
pub const FATAL_EXIT_STATUS: u8 = 70;

/// A condition raised while relaying one header or one report.
#[derive(Clone, Copy, Debug, PartialEq, Eq, Structural)]
pub enum RelayError {
    /// The network or the node failed in a way that may pass.
    TransientNetworkError,
    /// Another actor already advanced the target past this submission.
    StaleSubmission,
    /// The target refused the proof as invalid.
    InvalidProof,
    /// The call builder could not encode the proof or report.
    EncodingError,
    /// The reporting window of an equivocation report has passed.
    ExpiredEvidence,
    /// The runtime specification version of the target changed.
    RuntimeSpecChanged,
    /// Every permitted retry of a submission failed.
    ExhaustedRetries,
}

/// What the pipeline does about a condition.
#[derive(Clone, Copy, Debug, PartialEq, Eq, Structural)]
pub enum Disposition {
    /// Try the same item again after a backoff delay.
    Retry,
    /// The goal is already reached: count the item as relayed.
    TreatAsSuccess,
    /// Give the item up and go on with the next one.
    Skip,
    /// Drop the item without ever submitting it.
    Discard,
    /// Report to the operators and go on at the next step.
    Degraded,
    /// Stop both pipelines and end the process.
    Fatal,
}

/// How loudly a condition is reported.
#[derive(Clone, Copy, Debug, PartialEq, Eq, Structural)]
pub enum Severity {
    Low,
    Warning,
    Fatal,
}

impl RelayError {
    /// The handling that belongs to each condition.
    pub open spec fn spec_disposition(self) -> Disposition {
        match self {
            RelayError::TransientNetworkError => Disposition::Retry,
            RelayError::StaleSubmission => Disposition::TreatAsSuccess,
            RelayError::InvalidProof => Disposition::Skip,
            RelayError::EncodingError => Disposition::Skip,
            RelayError::ExpiredEvidence => Disposition::Discard,
            RelayError::RuntimeSpecChanged => Disposition::Fatal,
            RelayError::ExhaustedRetries => Disposition::Degraded,
        }
    }

    /// Only a change of the runtime specification ends the process.
    pub open spec fn spec_is_fatal(self) -> bool {
        self == RelayError::RuntimeSpecChanged
    }

    /// How loudly each condition is reported: what passes or is skipped
    /// is logged low, used-up retries are a warning to the operators, and
    /// only the fatal condition is reported as fatal.
    pub open spec fn spec_severity(self) -> Severity {
        match self.spec_disposition() {
            Disposition::Fatal => Severity::Fatal,
            Disposition::Degraded => Severity::Warning,
            _ => Severity::Low,
        }
    }

    /// The exit status of the process on this condition: not zero exactly
    /// for the fatal one.
    pub open spec fn spec_exit_status(self) -> u8 {
        if self.spec_is_fatal() {
            FATAL_EXIT_STATUS
        } else {
            0
        }
    }

    pub fn disposition(&self) -> (d: Disposition)
        ensures
            d == self.spec_disposition(),
    {
        match self {
            RelayError::TransientNetworkError => Disposition::Retry,
            RelayError::StaleSubmission => Disposition::TreatAsSuccess,
            RelayError::InvalidProof => Disposition::Skip,
            RelayError::EncodingError => Disposition::Skip,
            RelayError::ExpiredEvidence => Disposition::Discard,
            RelayError::RuntimeSpecChanged => Disposition::Fatal,
            RelayError::ExhaustedRetries => Disposition::Degraded,
        }
    }

    pub fn severity(&self) -> (v: Severity)
        ensures
            v == self.spec_severity(),
    {
        match self.disposition() {
            Disposition::Fatal => Severity::Fatal,
            Disposition::Degraded => Severity::Warning,
            _ => Severity::Low,
        }
    }

    pub fn exit_status(&self) -> (code: u8)
        ensures
            code == self.spec_exit_status(),
            (code != 0) == self.spec_is_fatal(),
    {
        if self.is_fatal() {
            FATAL_EXIT_STATUS
        } else {
            0
        }
    }

    pub fn is_fatal(&self) -> (fatal: bool)
        ensures
            fatal == self.spec_is_fatal(),
            fatal == (self.spec_disposition() == Disposition::Fatal),
    {
        match self {
            RelayError::RuntimeSpecChanged => true,
            _ => false,
        }
    }
}

/// Exactly one condition is fatal; every other one leaves the loops
/// running.
pub proof fn lemma_only_spec_change_is_fatal(err: RelayError)
    ensures
        err.spec_is_fatal() <==> err == RelayError::RuntimeSpecChanged,
        err.spec_is_fatal() <==> err.spec_disposition() == Disposition::Fatal,
        err.spec_is_fatal() <==> err.spec_severity() == Severity::Fatal,
        err.spec_is_fatal() <==> err.spec_exit_status() != 0,
{
}

} // verus!
