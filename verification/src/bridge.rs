//! The bridge that carries finalized Wococo headers to the Rococo bridge
//! hub: which chains it joins, and which runtime calls carry its proofs.

use vstd::prelude::*;
use crate::guard::{GuardStep, RelayGuard};
use crate::submission::ProofId;

verus! {

/// A chain that takes part in the bridge.
#[derive(Clone, Copy, Debug, PartialEq, Eq, Structural)]
pub enum Chain {
    Wococo,
    BridgeHubRococo,
}

/// The protocol by which the source chain finalizes its blocks.
#[derive(Clone, Copy, Debug, PartialEq, Eq, Structural)]
pub enum FinalityEngine {
    Grandpa,
}

/// A module of a runtime that takes calls of the relay.
#[derive(Clone, Copy, Debug, PartialEq, Eq, Structural)]
pub enum Pallet {
    /// The light client of Wococo on the bridge hub.
    BridgeWococoGrandpa,
    /// The finality module of Wococo itself.
    Grandpa,
}

/// A call of such a module.
#[derive(Clone, Copy, Debug, PartialEq, Eq, Structural)]
pub enum CallKind {
    SubmitFinalityProof,
    ReportEquivocation,
}

/// Names the runtime call into which the call builder encodes a proof.
#[derive(Clone, Copy, Debug, PartialEq, Eq, Structural)]
pub struct RuntimeCall {
    /// The chain whose runtime defines the call.
    pub runtime: Chain,
    pub pallet: Pallet,
    pub call: CallKind,
}

/// Description of the Wococo -> Rococo finalized headers bridge.
#[derive(Clone, Copy, Debug, PartialEq, Eq, Structural)]
pub struct WococoFinalityToBridgeHubRococo;

/// The call that carries a finality proof.
pub open spec fn spec_submit_finality_proof_call() -> RuntimeCall {
    RuntimeCall {
        runtime: Chain::BridgeHubRococo,
        pallet: Pallet::BridgeWococoGrandpa,
        call: CallKind::SubmitFinalityProof,
    }
}

/// The call that carries the evidence of an equivocation.
pub open spec fn spec_report_equivocation_call() -> RuntimeCall {
    RuntimeCall { runtime: Chain::Wococo, pallet: Pallet::Grandpa, call: CallKind::ReportEquivocation }
}

/// The call that carries the proof `id`: by the kind of the proof alone.
pub open spec fn spec_call_for(id: ProofId) -> RuntimeCall {
    match id {
        ProofId::Finality { height: _ } => spec_submit_finality_proof_call(),
        ProofId::Equivocation(_) => spec_report_equivocation_call(),
    }
}

impl WococoFinalityToBridgeHubRococo {
    /// The chain whose finality is relayed.
    pub fn source_chain() -> (c: Chain)
        ensures
            c == Chain::Wococo,
    {
        Chain::Wococo
    }

    /// The chain that verifies the proofs.
    pub fn target_chain() -> (c: Chain)
        ensures
            c == Chain::BridgeHubRococo,
    {
        Chain::BridgeHubRococo
    }

    pub fn finality_engine() -> (e: FinalityEngine)
        ensures
            e == FinalityEngine::Grandpa,
    {
        FinalityEngine::Grandpa
    }

    pub fn submit_finality_proof_call() -> (c: RuntimeCall)
        ensures
            c == spec_submit_finality_proof_call(),
    {
        RuntimeCall {
            runtime: Chain::BridgeHubRococo,
            pallet: Pallet::BridgeWococoGrandpa,
            call: CallKind::SubmitFinalityProof,
        }
    }

    pub fn report_equivocation_call() -> (c: RuntimeCall)
        ensures
            c == spec_report_equivocation_call(),
    {
        RuntimeCall { runtime: Chain::Wococo, pallet: Pallet::Grandpa, call: CallKind::ReportEquivocation }
    }

    /// The runtime call into which the proof `id` is encoded.
    pub fn call_for(id: &ProofId) -> (c: RuntimeCall)
        ensures
            c == spec_call_for(*id),
    {
        match id {
            ProofId::Finality { height: _ } => Self::submit_finality_proof_call(),
            ProofId::Equivocation(_) => Self::report_equivocation_call(),
        }
    }

    /// Starts the guards of the relay: with the version guard enabled, the
    /// guard asks for the runtime version of the target, which it will
    /// record and watch; otherwise there is no guard and nothing to do.
    pub fn start_relay_guards(enable_version_guard: bool) -> (r: GuardStep)
        ensures
            r == RelayGuard::spec_start(enable_version_guard),
    {
        RelayGuard::start(enable_version_guard)
    }
}

/// `Wococo` to BridgeHub `Rococo` bridge definition.
#[derive(Clone, Copy, Debug, PartialEq, Eq, Structural)]
pub struct WococoToBridgeHubRococoCliBridge {}

impl WococoToBridgeHubRococoCliBridge {
    pub fn source() -> (c: Chain)
        ensures
            c == Chain::Wococo,
    {
        WococoFinalityToBridgeHubRococo::source_chain()
    }

    pub fn target() -> (c: Chain)
        ensures
            c == Chain::BridgeHubRococo,
    {
        WococoFinalityToBridgeHubRococo::target_chain()
    }

    /// The pipeline that relays the headers of this bridge.
    pub fn finality() -> (p: WococoFinalityToBridgeHubRococo)
        ensures
            p == WococoFinalityToBridgeHubRococo,
    {
        WococoFinalityToBridgeHubRococo
    }

    /// The pipeline that relays the equivocations of this bridge: the
    /// same description serves both.
    pub fn equivocation() -> (p: WococoFinalityToBridgeHubRococo)
        ensures
            p == WococoFinalityToBridgeHubRococo,
    {
        WococoFinalityToBridgeHubRococo
    }
}

} // verus!
