use relay_pipeline::bridge::{
    CallKind, Chain, FinalityEngine, Pallet, RuntimeCall, WococoFinalityToBridgeHubRococo,
    WococoToBridgeHubRococoCliBridge,
};
use relay_pipeline::error::RelayError;
use relay_pipeline::guard::{GuardAction, GuardStep, RelayGuard};
use relay_pipeline::submission::{ProofId, ReportId};
use relay_pipeline::types::RelayConfig;

fn config() -> RelayConfig {
    RelayConfig {
        enable_version_guard: true,
        polling_interval_ms: 6_000,
        max_retries: 3,
        backoff_base_ms: 100,
        backoff_ceiling_ms: 1_000,
        max_set_transitions: 0,
        reporting_window: 100,
    }
}

#[test]
fn a_disabled_guard_does_nothing() {
    let cfg = config();
    let s = RelayGuard::start(false);
    assert_eq!(s, GuardStep { guard: RelayGuard::Disabled, action: GuardAction::Nothing, notice: None });
    let s = s.guard.observe(100, &cfg);
    assert_eq!(s, GuardStep { guard: RelayGuard::Disabled, action: GuardAction::Nothing, notice: None });
    let s = s.guard.observe(101, &cfg);
    assert_eq!(s.action, GuardAction::Nothing);
    assert!(!s.guard.is_tripped());
    assert_eq!(s.guard.read_failed(&cfg).action, GuardAction::Nothing);
}

#[test]
fn an_enabled_guard_records_the_first_reading() {
    let cfg = config();
    let s = RelayGuard::start(true);
    assert_eq!(s, GuardStep { guard: RelayGuard::Starting, action: GuardAction::ReadVersion, notice: None });
    let s = s.guard.observe(100, &cfg);
    assert_eq!(
        s,
        GuardStep {
            guard: RelayGuard::Watching { recorded: 100 },
            action: GuardAction::ReadVersionAfter(6_000),
            notice: None
        }
    );
}

#[test]
fn an_unchanged_version_keeps_the_guard_watching() {
    let cfg = config();
    let mut g = RelayGuard::Watching { recorded: 100 };
    for _ in 0..5 {
        let s = g.observe(100, &cfg);
        assert_eq!(s.action, GuardAction::ReadVersionAfter(6_000));
        assert_eq!(s.notice, None);
        g = s.guard;
    }
    assert_eq!(g, RelayGuard::Watching { recorded: 100 });
}

#[test]
fn any_change_of_the_version_trips_the_guard() {
    let cfg = config();
    for v in [0, 99, 101, u32::MAX] {
        let s = RelayGuard::Watching { recorded: 100 }.observe(v, &cfg);
        assert_eq!(s.guard, RelayGuard::Tripped { recorded: 100, observed: v });
        assert_eq!(s.action, GuardAction::Abort);
        assert_eq!(s.notice, Some(RelayError::RuntimeSpecChanged));
        assert!(s.guard.is_tripped());
    }
}

#[test]
fn a_tripped_guard_stays_tripped() {
    let cfg = config();
    let g = RelayGuard::Tripped { recorded: 100, observed: 101 };
    let s = g.observe(100, &cfg);
    assert_eq!(s.guard, g);
    assert_eq!(s.action, GuardAction::Abort);
    let s = g.read_failed(&cfg);
    assert_eq!(s.guard, g);
    assert_eq!(s.action, GuardAction::Abort);
}

#[test]
fn a_failed_first_reading_fails_the_start() {
    let cfg = config();
    let s = RelayGuard::start(true).guard.read_failed(&cfg);
    assert_eq!(s.guard, RelayGuard::Starting);
    assert_eq!(s.action, GuardAction::FailStart);
    assert_eq!(s.notice, Some(RelayError::TransientNetworkError));
}

#[test]
fn a_failed_later_reading_is_tried_again() {
    let cfg = config();
    let s = RelayGuard::Watching { recorded: 100 }.read_failed(&cfg);
    assert_eq!(s.guard, RelayGuard::Watching { recorded: 100 });
    assert_eq!(s.action, GuardAction::ReadVersionAfter(6_000));
    assert_eq!(s.notice, Some(RelayError::TransientNetworkError));
}

#[test]
fn start_relay_guards_follows_the_switch() {
    assert_eq!(WococoFinalityToBridgeHubRococo::start_relay_guards(true), RelayGuard::start(true));
    assert_eq!(WococoFinalityToBridgeHubRococo::start_relay_guards(false), RelayGuard::start(false));
    assert_eq!(WococoFinalityToBridgeHubRococo::start_relay_guards(true).action, GuardAction::ReadVersion);
    assert_eq!(WococoFinalityToBridgeHubRococo::start_relay_guards(false).guard, RelayGuard::Disabled);
}

#[test]
fn the_bridge_joins_wococo_and_the_rococo_bridge_hub() {
    assert_eq!(WococoFinalityToBridgeHubRococo::source_chain(), Chain::Wococo);
    assert_eq!(WococoFinalityToBridgeHubRococo::target_chain(), Chain::BridgeHubRococo);
    assert_eq!(WococoFinalityToBridgeHubRococo::finality_engine(), FinalityEngine::Grandpa);
    assert_eq!(WococoToBridgeHubRococoCliBridge::source(), WococoFinalityToBridgeHubRococo::source_chain());
    assert_eq!(WococoToBridgeHubRococoCliBridge::target(), WococoFinalityToBridgeHubRococo::target_chain());
    assert_eq!(WococoToBridgeHubRococoCliBridge::finality(), WococoFinalityToBridgeHubRococo);
    assert_eq!(WococoToBridgeHubRococoCliBridge::equivocation(), WococoFinalityToBridgeHubRococo);
    let _bridge = WococoToBridgeHubRococoCliBridge {};
}

#[test]
fn each_kind_of_proof_has_its_runtime_call() {
    let submit = RuntimeCall {
        runtime: Chain::BridgeHubRococo,
        pallet: Pallet::BridgeWococoGrandpa,
        call: CallKind::SubmitFinalityProof,
    };
    let report = RuntimeCall { runtime: Chain::Wococo, pallet: Pallet::Grandpa, call: CallKind::ReportEquivocation };
    assert_eq!(WococoFinalityToBridgeHubRococo::submit_finality_proof_call(), submit);
    assert_eq!(WococoFinalityToBridgeHubRococo::report_equivocation_call(), report);
    assert_eq!(WococoFinalityToBridgeHubRococo::call_for(&ProofId::Finality { height: 1 }), submit);
    assert_eq!(
        WococoFinalityToBridgeHubRococo::call_for(&ProofId::Equivocation(ReportId {
            validator: 1,
            round: 2,
            authority_set: 3
        })),
        report
    );
}
