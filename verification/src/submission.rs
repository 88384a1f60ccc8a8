//! What a pipeline submits, and the record it keeps of each submission.

use vstd::prelude::*;

verus! {

/// Names one equivocation: who voted twice, in which round, under which
/// authority set.
#[derive(Clone, Copy, Debug, PartialEq, Eq, Structural)]
pub struct ReportId {
    /// Position of the offending validator in its authority set.
    pub validator: u64,
    /// The voting round of the two conflicting votes.
    pub round: u64,
    /// The authority set the validator belonged to.
    pub authority_set: u64,
}

/// Names one logical proof that a pipeline relays.
#[derive(Clone, Copy, Debug, PartialEq, Eq, Structural)]
pub enum ProofId {
    /// The finality proof of the source header at this height.
    Finality { height: u64 },
    /// The evidence of this equivocation.
    Equivocation(ReportId),
}

/// How a submission ended, or that it has not ended yet.
#[derive(Clone, Copy, Debug, PartialEq, Eq, Structural)]
pub enum Outcome {
    Pending,
    Confirmed,
    Rejected,
    Dropped,
}

/// One transaction that carries a proof to the target chain.
#[derive(Clone, Debug, PartialEq, Eq)]
pub struct SubmissionAttempt {
    /// The proof that the transaction carries.
    pub proof: ProofId,
    /// The encoded call, as the call builder produced it.
    pub payload: Vec<u8>,
    /// When the transaction was handed over, in milliseconds.
    pub submitted_at: u64,
    /// How many submissions of the same proof failed before this one.
    pub retry_count: u32,
    pub outcome: Outcome,
}

impl SubmissionAttempt {
    /// The attempt has been handed over and has not ended.
    pub open spec fn spec_in_flight(&self) -> bool {
        self.outcome == Outcome::Pending
    }

    /// A fresh attempt, not yet settled.
    pub fn new(proof: ProofId, payload: Vec<u8>, submitted_at: u64, retry_count: u32) -> (a: SubmissionAttempt)
        ensures
            a == (SubmissionAttempt { proof, payload, submitted_at, retry_count, outcome: Outcome::Pending }),
            a.spec_in_flight(),
    {
        SubmissionAttempt { proof, payload, submitted_at, retry_count, outcome: Outcome::Pending }
    }

    pub fn in_flight(&self) -> (b: bool)
        ensures
            b == self.spec_in_flight(),
    {
        match self.outcome {
            Outcome::Pending => true,
            _ => false,
        }
    }

    /// The attempt with its outcome recorded. The first outcome stands: an
    /// attempt that has ended is not changed.
    pub open spec fn spec_settle(self, outcome: Outcome) -> SubmissionAttempt {
        if self.outcome == Outcome::Pending {
            SubmissionAttempt { outcome, ..self }
        } else {
            self
        }
    }

    pub fn settle(self, outcome: Outcome) -> (a: SubmissionAttempt)
        ensures
            a == self.spec_settle(outcome),
    {
        match self.outcome {
            Outcome::Pending => SubmissionAttempt {
                proof: self.proof,
                payload: self.payload,
                submitted_at: self.submitted_at,
                retry_count: self.retry_count,
                outcome,
            },
            _ => self,
        }
    }
}

impl ReportId {
    pub fn same(&self, other: &ReportId) -> (b: bool)
        ensures
            b == (*self == *other),
    {
        self.validator == other.validator && self.round == other.round
            && self.authority_set == other.authority_set
    }
}

impl ProofId {
    pub fn same(&self, other: &ProofId) -> (b: bool)
        ensures
            b == (*self == *other),
    {
        match (self, other) {
            (ProofId::Finality { height: a }, ProofId::Finality { height: b }) => *a == *b,
            (ProofId::Equivocation(a), ProofId::Equivocation(b)) => a.same(b),
            _ => false,
        }
    }
}

} // verus!
