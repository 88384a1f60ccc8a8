use relay_pipeline::equivocation::{EquivocationReport, ReportDecision};
use relay_pipeline::error::RelayError;
use relay_pipeline::finality::{FinalityPipeline, FinalityStep};
use relay_pipeline::guard::{GuardAction, RelayGuard};
use relay_pipeline::pipeline::{Action, Event, Phase};
use relay_pipeline::relay::Relay;
use relay_pipeline::submission::{Outcome, ProofId, ReportId};
use relay_pipeline::types::{FinalizedHeader, RelayConfig, SourceHeader, TargetChainState};

fn config() -> RelayConfig {
    RelayConfig {
        enable_version_guard: true,
        polling_interval_ms: 6_000,
        max_retries: 3,
        backoff_base_ms: 100,
        backoff_ceiling_ms: 1_000,
        max_set_transitions: 0,
        reporting_window: 100,
    }
}

fn header(height: u64, set: u64) -> FinalizedHeader {
    let mut hash = [0u8; 32];
    hash[..8].copy_from_slice(&height.to_be_bytes());
    FinalizedHeader { height, hash, authority_set: set }
}

fn source(height: u64, set: u64, boundary: bool) -> SourceHeader {
    SourceHeader { header: header(height, set), has_justification: true, changes_authority_set: boundary }
}

/// A target chain that accepts what it is sent, and a script of how each
/// submission ends.
struct World {
    target: TargetChainState,
    headers: Vec<SourceHeader>,
    /// For each submission in turn, the event that answers it.
    script: Vec<Event>,
    submitted: Vec<u64>,
    notices: Vec<RelayError>,
    slept: Vec<u64>,
}

/// Drives the pipeline until it has come to rest `rounds` times or has halted.
fn run(world: &mut World, pipeline: FinalityPipeline, cfg: &RelayConfig, rounds: usize) -> FinalityPipeline {
    let mut rests = 0;
    let mut now = 0;
    let mut step: FinalityStep = pipeline.on_event(Event::Wake, cfg, now);
    loop {
        now += 1;
        if let Some(n) = step.notice {
            world.notices.push(n);
        }
        let p = step.next;
        step = match step.action {
            Action::Select => p.sync_step(&world.target, &world.headers, cfg, now),
            Action::Build(ProofId::Finality { height }) => {
                assert!(height > world.target.last_accepted.height);
                p.on_event(Event::Built(height.to_be_bytes().to_vec()), cfg, now)
            }
            Action::Build(_) => panic!("the finality pipeline builds finality proofs only"),
            Action::Submit => {
                let attempt = p.machine.attempt.clone().unwrap();
                assert_eq!(attempt.outcome, Outcome::Pending);
                match attempt.proof {
                    ProofId::Finality { height } => world.submitted.push(height),
                    _ => panic!("not a finality proof"),
                }
                p.on_event(Event::Dispatched, cfg, now)
            }
            Action::AwaitConfirmation => {
                let answer = if world.script.is_empty() { Event::Confirmed } else { world.script.remove(0) };
                if answer == Event::Confirmed {
                    world.target = world.target.advance(&p.selected.unwrap());
                }
                p.on_event(answer, cfg, now)
            }
            Action::Sleep(ms) => {
                world.slept.push(ms);
                if p.machine.phase == Phase::Idle {
                    rests += 1;
                    if rests == rounds {
                        return p;
                    }
                }
                p.on_event(Event::Wake, cfg, now)
            }
            Action::Halt => return p,
            Action::Nothing => panic!("the driver sent an event out of place"),
        };
    }
}

fn world(last_accepted: u64, set: u64, headers: Vec<SourceHeader>, script: Vec<Event>) -> World {
    World {
        target: TargetChainState { last_accepted: header(last_accepted, set), authority_set_id: set },
        headers,
        script,
        submitted: Vec::new(),
        notices: Vec::new(),
        slept: Vec::new(),
    }
}

#[test]
fn scenario_skip_to_the_newest_header() {
    let cfg = config();
    let mut w = world(9, 1, vec![source(10, 1, false), source(11, 1, false), source(12, 1, false)], vec![]);
    let p = run(&mut w, FinalityPipeline::new(), &cfg, 1);
    assert_eq!(w.submitted, vec![12]);
    assert_eq!(w.target.last_accepted, header(12, 1));
    assert_eq!(p.expected.unwrap().last_accepted.height, 12);
    assert_eq!(p.machine.attempt.as_ref().unwrap().outcome, Outcome::Confirmed);
    assert_eq!(w.notices, vec![]);
    // with the target at 12 there is nothing left to submit
    let p = run(&mut w, p, &cfg, 3);
    assert_eq!(w.submitted, vec![12]);
    assert_eq!(p.machine.phase, Phase::Idle);
    assert_eq!(w.target.last_accepted.height, 12);
}

#[test]
fn scenario_boundary_header_first() {
    let cfg = config();
    let headers = vec![
        source(15, 3, true),
        source(16, 4, false),
        source(17, 4, false),
        source(18, 4, false),
        source(19, 4, false),
        source(20, 4, false),
    ];
    let mut w = world(14, 3, headers, vec![]);
    let p = run(&mut w, FinalityPipeline::new(), &cfg, 1);
    assert_eq!(w.submitted, vec![15]);
    assert_eq!(w.target.last_accepted.height, 15);
    assert_eq!(w.target.authority_set_id, 4);
    let p = run(&mut w, p, &cfg, 1);
    assert_eq!(w.submitted, vec![15, 20]);
    assert_eq!(w.target.last_accepted.height, 20);
    assert_eq!(p.expected.unwrap().last_accepted.height, 20);
    let _ = run(&mut w, p, &cfg, 2);
    assert_eq!(w.submitted, vec![15, 20]);
}

#[test]
fn scenario_two_transient_failures_then_success() {
    let cfg = config();
    let script = vec![
        Event::Failed(RelayError::TransientNetworkError),
        Event::Failed(RelayError::TransientNetworkError),
        Event::Confirmed,
    ];
    let mut w = world(9, 1, vec![source(10, 1, false), source(11, 1, false), source(12, 1, false)], script);
    let p = run(&mut w, FinalityPipeline::new(), &cfg, 1);
    assert_eq!(w.submitted, vec![12, 12, 12]);
    assert_eq!(w.notices, vec![RelayError::TransientNetworkError, RelayError::TransientNetworkError]);
    assert!(w.notices.iter().all(|n| !n.is_fatal()));
    assert_eq!(w.slept, vec![100, 200, 6_000]);
    let attempt = p.machine.attempt.clone().unwrap();
    assert_eq!(attempt.outcome, Outcome::Confirmed);
    assert_eq!(attempt.retry_count, 2);
    assert_eq!(p.machine.phase, Phase::Idle);
    assert!(!p.machine.is_halted());
    assert_eq!(w.target.last_accepted.height, 12);
}

#[test]
fn scenario_retries_run_out() {
    let mut cfg = config();
    cfg.max_retries = 2;
    let script = vec![Event::TimedOut, Event::Dropped, Event::Failed(RelayError::TransientNetworkError)];
    let mut w = world(9, 1, vec![source(12, 1, false)], script);
    let p = run(&mut w, FinalityPipeline::new(), &cfg, 1);
    assert_eq!(w.submitted, vec![12, 12, 12]);
    assert_eq!(
        w.notices,
        vec![RelayError::TransientNetworkError, RelayError::TransientNetworkError, RelayError::ExhaustedRetries]
    );
    assert_eq!(p.machine.phase, Phase::Idle);
    assert_eq!(w.target.last_accepted.height, 9);
    // the pipeline goes on at the next step
    let p = run(&mut w, p, &cfg, 1);
    assert_eq!(w.submitted, vec![12, 12, 12, 12]);
    assert_eq!(w.target.last_accepted.height, 12);
    assert!(!p.machine.is_halted());
}

#[test]
fn scenario_stale_submission_counts_as_done() {
    let cfg = config();
    let mut w = world(9, 1, vec![source(12, 1, false)], vec![Event::Failed(RelayError::StaleSubmission)]);
    let p = run(&mut w, FinalityPipeline::new(), &cfg, 1);
    assert_eq!(w.submitted, vec![12]);
    assert_eq!(w.notices, vec![RelayError::StaleSubmission]);
    assert_eq!(p.machine.phase, Phase::Idle);
    assert_eq!(p.expected.unwrap().last_accepted.height, 12);
}

#[test]
fn scenario_invalid_proof_is_skipped_and_the_loop_goes_on() {
    let cfg = config();
    let mut w = world(9, 1, vec![source(12, 1, false)], vec![Event::Failed(RelayError::InvalidProof)]);
    let p = run(&mut w, FinalityPipeline::new(), &cfg, 1);
    assert_eq!(w.notices, vec![RelayError::InvalidProof]);
    assert_eq!(p.expected.unwrap().last_accepted.height, 9);
    assert!(!p.machine.is_halted());
}

#[test]
fn scenario_same_justification_twice() {
    let cfg = config();
    let h = source(12, 1, false);
    let t = TargetChainState { last_accepted: header(9, 1), authority_set_id: 1 };
    let once = t.advance(&h);
    let twice = t.advance(&h).advance(&h);
    assert_eq!(once, twice);
    assert_eq!(once.last_accepted.height, 12);
    // the pipeline never offers it a second time either
    let mut w = world(9, 1, vec![h], vec![]);
    let _ = run(&mut w, FinalityPipeline::new(), &cfg, 4);
    assert_eq!(w.submitted, vec![12]);
}

#[test]
fn scenario_runtime_spec_change_halts_both_pipelines() {
    let cfg = config();
    let r = Relay::new(&cfg);
    assert_eq!(r.action, GuardAction::ReadVersion);
    let r = r.next.observe_version(100, &cfg, 0);
    assert_eq!(r.action, GuardAction::ReadVersionAfter(6_000));
    assert_eq!(r.next.guard, RelayGuard::Watching { recorded: 100 });
    assert_eq!(r.fatal, None);

    // both pipelines are at work
    let mut relay = r.next;
    let target = TargetChainState { last_accepted: header(9, 1), authority_set_id: 1 };
    let f = relay.finality.on_event(Event::Wake, &cfg, 1).next;
    let f = f.sync_step(&target, &vec![source(12, 1, false)], &cfg, 2).next;
    let f = f.on_event(Event::Built(vec![1]), &cfg, 3).next;
    let f = f.on_event(Event::Dispatched, &cfg, 4).next;
    assert_eq!(f.machine.phase, Phase::AwaitingConfirmation);
    relay.finality = f;
    let e = relay.equivocation.on_event(Event::Wake, &cfg, 1).next;
    let report = EquivocationReport {
        id: ReportId { validator: 1, round: 2, authority_set: 1 },
        origin_height: 10,
        first_vote: vec![1],
        second_vote: vec![2],
    };
    let e = e.offer(&report, 12, &cfg, 2);
    assert_eq!(e.decision, ReportDecision::Relay);
    relay.equivocation = e.next;
    assert!(!relay.is_halted());

    // the version stays: nothing happens
    let r = relay.observe_version(100, &cfg, 5);
    assert_eq!(r.action, GuardAction::ReadVersionAfter(6_000));
    assert_eq!(r.next.finality.machine.phase, Phase::AwaitingConfirmation);
    assert_eq!(r.next.equivocation.machine.phase, Phase::Building);

    // the version changes: at the next reading, one interval later, all stops
    let r = r.next.observe_version(101, &cfg, 6_005);
    assert_eq!(r.action, GuardAction::Abort);
    assert_eq!(r.fatal, Some(RelayError::RuntimeSpecChanged));
    assert!(r.fatal.unwrap().is_fatal());
    assert_ne!(r.fatal.unwrap().exit_status(), 0);
    assert_eq!(r.next.guard, RelayGuard::Tripped { recorded: 100, observed: 101 });
    assert!(r.next.is_halted());
    assert_eq!(r.next.finality.machine.phase, Phase::Halted);
    assert_eq!(r.next.equivocation.machine.phase, Phase::Halted);
    assert!(!r.next.finality.machine.in_flight());
    assert_eq!(r.next.finality.machine.attempt.as_ref().unwrap().outcome, Outcome::Dropped);

    // and stays stopped
    let f = r.next.finality.clone().on_event(Event::Wake, &cfg, 7_000);
    assert_eq!(f.action, Action::Halt);
    let r = r.next.observe_version(100, &cfg, 12_000);
    assert_eq!(r.action, GuardAction::Abort);
    assert!(r.next.is_halted());
}

#[test]
fn scenario_disabled_guard_lets_a_version_change_pass() {
    let mut cfg = config();
    cfg.enable_version_guard = false;
    let r = Relay::new(&cfg);
    assert_eq!(r.action, GuardAction::Nothing);
    let r = r.next.observe_version(100, &cfg, 0);
    let r = r.next.observe_version(101, &cfg, 0);
    assert_eq!(r.action, GuardAction::Nothing);
    assert_eq!(r.fatal, None);
    assert!(!r.next.is_halted());
}

#[test]
fn scenario_failed_version_reading_stops_nothing() {
    let cfg = config();
    let r = Relay::new(&cfg).next.observe_version(100, &cfg, 0);
    let r = r.next.version_read_failed(&cfg, 1);
    assert_eq!(r.action, GuardAction::ReadVersionAfter(6_000));
    assert_eq!(r.fatal, None);
    assert!(!r.next.is_halted());
    let r = Relay::new(&cfg).next.version_read_failed(&cfg, 1);
    assert_eq!(r.action, GuardAction::FailStart);
    assert!(!r.next.is_halted());
}

#[test]
fn sync_step_outside_selecting_does_nothing() {
    let cfg = config();
    let target = TargetChainState { last_accepted: header(9, 1), authority_set_id: 1 };
    let p = FinalityPipeline::new();
    let r = p.clone().sync_step(&target, &vec![source(12, 1, false)], &cfg, 0);
    assert_eq!(r.action, Action::Nothing);
    assert_eq!(r.next, p);
}

#[test]
fn finality_pipeline_takes_no_selection_from_elsewhere() {
    let cfg = config();
    let p = FinalityPipeline::new().on_event(Event::Wake, &cfg, 0).next;
    let r = p.clone().on_event(Event::Selected(Some(ProofId::Finality { height: 1 })), &cfg, 0);
    assert_eq!(r.action, Action::Nothing);
    assert_eq!(r.next, p);
}
