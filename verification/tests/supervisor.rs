use kleinhirn::configuration::{Program, WorkerConfig, WorkerKind};
use kleinhirn::health::{health_check, State};
use kleinhirn::pid::Pid;
use kleinhirn::process_control::Message;
use kleinhirn::supervisor::{Action, ControlFailure, Outcome, Supervisor};
use kleinhirn::time::{Span, Timestamp};
use kleinhirn::worker_set::{Phase, WorkerSet};
use kleinhirn::workers::Stage;

fn at(millis: u64) -> Timestamp {
    Timestamp::from_millis(millis)
}

fn supervisor(count: usize, ack_timeout: Option<Span>) -> Supervisor {
    Supervisor::new(WorkerSet::new(WorkerConfig {
        count,
        ack_timeout,
        kind: WorkerKind::Program(Program {
            cmdline: vec!["/bin/true".to_string()],
            ..Default::default()
        }),
    }))
}

fn launched(id: &str, pid: u32) -> Outcome {
    Outcome::Controller(Message::Launched { id: id.to_string(), pid })
}

fn ack(id: &str) -> Outcome {
    Outcome::Controller(Message::Ack { id: id.to_string() })
}

/// One worker from request to ready.
fn bring_up(mut sup: Supervisor, id: &str, pid: u32) -> Supervisor {
    assert_eq!(sup.next_action(), Action::Spawn);
    sup = sup.handle(Outcome::Spawned(id.to_string()), at(0));
    assert_eq!(sup.next_action(), Action::Select);
    sup = sup.handle(launched(id, pid), at(0));
    assert_eq!(sup.next_action(), Action::Select);
    sup.handle(ack(id), at(0))
}

#[test]
fn loop_starts_workers_until_running() {
    let mut sup = supervisor(2, None);
    // each round asks for a worker while one is missing, and then takes one event
    assert_eq!(sup.next_action(), Action::Spawn);
    sup = sup.handle(Outcome::Spawned("a".to_string()), at(0));
    assert_eq!(sup.next_action(), Action::Select);
    sup = sup.handle(launched("a", 1), at(0));
    assert_eq!(sup.next_action(), Action::Spawn);
    sup = sup.handle(Outcome::Spawned("b".to_string()), at(1));
    assert_eq!(sup.next_action(), Action::Select);
    sup = sup.handle(ack("a"), at(1));
    assert_eq!(sup.machine().phase(), Phase::Startup);
    // both are on record: nothing to ask for
    assert_eq!(sup.next_action(), Action::Select);
    sup = sup.handle(launched("b", 2), at(1));
    assert_eq!(sup.next_action(), Action::Select);
    sup = sup.handle(ack("b"), at(2));
    assert_eq!(sup.machine().phase(), Phase::Running);
    assert_eq!(sup.next_action(), Action::Select);
    assert_eq!(health_check(sup.machine()), State::Healthy);
}

#[test]
fn spawn_result_comes_before_controller_events() {
    let sup = supervisor(1, None);
    assert_eq!(sup.next_action(), Action::Spawn);
    // what the controller says is not taken while the answer to the request is out
    let sup = sup.handle(launched("a", 1), at(0));
    assert_eq!(sup, supervisor(1, None));
    let sup = sup.handle(ack("a"), at(0));
    assert_eq!(sup, supervisor(1, None));
    let sup = sup.handle(Outcome::Reaped(Pid::from_raw(1)), at(0));
    assert_eq!(sup, supervisor(1, None));
    let sup = sup.handle(Outcome::Ticked(at(5)), at(5));
    assert_eq!(sup, supervisor(1, None));
    assert_eq!(sup.next_action(), Action::Spawn);
    // the id that comes back is on record once, before anything else
    let sup = sup.handle(Outcome::Spawned("a".to_string()), at(3));
    assert_eq!(sup.machine().workers().len(), 1);
    assert_eq!(
        sup.machine().workers().get(&"a".to_string()).unwrap().requested,
        Some(at(3))
    );
    assert_eq!(sup.next_action(), Action::Select);
    // a second answer is none that the loop waits for
    let again = sup.handle(Outcome::Spawned("b".to_string()), at(4));
    assert_eq!(again.machine().workers().len(), 1);
    assert_eq!(again.next_action(), Action::Select);
    let sup = again.handle(launched("a", 1), at(5));
    assert_eq!(
        sup.machine().workers().get(&"a".to_string()).unwrap().launched,
        Some(at(5))
    );
}

#[test]
fn spawn_failure_faults_and_the_loop_reaps() {
    let mut sup = supervisor(1, None);
    assert_eq!(sup.next_action(), Action::Spawn);
    sup = sup.handle(Outcome::SpawnFailed, at(0));
    assert_eq!(sup.machine().phase(), Phase::Faulted);
    // the round goes on to its wait
    assert_eq!(sup.next_action(), Action::Select);
    sup = sup.handle(Outcome::ReapFailed, at(1));
    assert_eq!(sup.next_action(), Action::ReapOnly { announce: true });
    sup = sup.handle(Outcome::Reaped(Pid::from_raw(5)), at(2));
    assert_eq!(sup.next_action(), Action::ReapOnly { announce: false });
    sup = sup.handle(Outcome::ReapFailed, at(3));
    assert_eq!(sup.next_action(), Action::ReapOnly { announce: false });
    assert_eq!(sup.machine().phase(), Phase::Faulted);
    assert_eq!(health_check(sup.machine()), State::Unhealthy("faulted".to_string()));
}

#[test]
fn preloader_death_switches_to_reap_only() {
    let mut sup = bring_up(supervisor(1, None), "a", 1);
    assert_eq!(sup.machine().phase(), Phase::Running);
    sup = sup.handle(Outcome::ControllerFailed(ControlFailure::PreloaderDied), at(1));
    assert_eq!(sup.machine().phase(), Phase::Faulted);
    assert_eq!(sup.next_action(), Action::ReapOnly { announce: true });
    // while only reaping, nothing reaches the worker set
    let before = sup.machine().describe();
    sup = sup.handle(Outcome::Reaped(Pid::from_raw(1)), at(2));
    assert_eq!(sup.machine().describe(), before);
    assert_eq!(sup.machine().workers().len(), 1);
    sup = sup.handle(ack("a"), at(3));
    sup = sup.handle(Outcome::Ticked(at(3)), at(3));
    sup = sup.handle(Outcome::Spawned("x".to_string()), at(3));
    assert_eq!(sup.machine().describe(), before);
    assert_eq!(sup.next_action(), Action::ReapOnly { announce: false });
}

#[test]
fn other_controller_failures_are_passed_over() {
    let mut sup = bring_up(supervisor(1, None), "a", 1);
    sup = sup.handle(Outcome::ControllerFailed(ControlFailure::Other), at(1));
    assert_eq!(sup.machine().phase(), Phase::Running);
    sup = sup.handle(Outcome::ReapFailed, at(1));
    assert_eq!(sup.machine().phase(), Phase::Running);
    sup = sup.handle(Outcome::TickerEnded, at(1));
    assert_eq!(sup.machine().phase(), Phase::Running);
    assert_eq!(sup.next_action(), Action::Select);
}

#[test]
fn reaped_worker_is_replaced() {
    let mut sup = bring_up(supervisor(1, None), "a", 1);
    sup = sup.handle(Outcome::Reaped(Pid::from_raw(1)), at(1));
    assert_eq!(sup.machine().phase(), Phase::Underprovisioned);
    assert_eq!(sup.next_action(), Action::Spawn);
    sup = bring_up(sup, "b", 2);
    assert_eq!(sup.machine().phase(), Phase::Running);
    // a pid that is no worker's
    sup = sup.handle(Outcome::Reaped(Pid::from_raw(77)), at(2));
    assert_eq!(sup.machine().phase(), Phase::Running);
}

#[test]
fn launch_error_faults() {
    let mut sup = supervisor(2, None);
    sup = sup.handle(Outcome::Spawned("a".to_string()), at(0));
    sup = sup.handle(
        Outcome::Controller(Message::LaunchError {
            id: "a".to_string(),
            pid: None,
            error: "no".to_string(),
        }),
        at(0),
    );
    assert_eq!(sup.machine().phase(), Phase::Faulted);
}

#[test]
fn tick_enforces_the_ack_timeout() {
    let mut sup = supervisor(1, Some(Span::from_millis(1_000)));
    sup = sup.handle(Outcome::Spawned("x".to_string()), at(0));
    sup = sup.handle(launched("x", 1), at(0));
    // the time of the tick counts, not the time at which it is handled
    sup = sup.handle(Outcome::Ticked(at(500)), at(9_999));
    assert_eq!(sup.machine().phase(), Phase::Startup);
    sup = sup.handle(Outcome::Ticked(at(1_001)), at(0));
    assert_eq!(sup.machine().phase(), Phase::Faulted);
}

#[test]
fn wire_pids_reach_the_index_as_signed() {
    let mut sup = supervisor(1, None);
    sup = sup.handle(Outcome::Spawned("a".to_string()), at(0));
    sup = sup.handle(launched("a", u32::MAX), at(0));
    assert_eq!(sup.machine().workers().id_of(Pid::from_raw(-1)), Some("a".to_string()));
}

#[test]
fn expects_follows_the_action() {
    let sup = supervisor(1, None);
    assert!(sup.expects(&Outcome::Spawned("a".to_string())));
    assert!(sup.expects(&Outcome::SpawnFailed));
    assert!(!sup.expects(&Outcome::ReapFailed));
    assert!(!sup.expects(&Outcome::Ticked(at(0))));
    let sup = sup.handle(Outcome::Spawned("a".to_string()), at(0));
    assert!(!sup.expects(&Outcome::SpawnFailed));
    assert!(sup.expects(&Outcome::ReapFailed));
    assert!(sup.expects(&Outcome::TickerEnded));
    assert!(sup.expects(&ack("a")));
    let sup = sup.handle(Outcome::ControllerFailed(ControlFailure::PreloaderDied), at(0));
    assert!(sup.expects(&Outcome::Reaped(Pid::from_raw(3))));
    assert!(sup.expects(&Outcome::ReapFailed));
    assert!(!sup.expects(&ack("a")));
    assert!(!sup.expects(&Outcome::Ticked(at(0))));
}

#[test]
fn the_loop_keeps_the_fleet_within_its_budget() {
    // whatever comes back, no more workers are on record than are wanted, and a
    // running fleet waits for none
    let outcome = |k: usize, round: usize| -> Outcome {
        match k {
            0 => Outcome::Spawned(format!("w{}", round)),
            1 => Outcome::SpawnFailed,
            2 => launched(&format!("w{}", round.saturating_sub(1)), round as u32),
            3 => ack(&format!("w{}", round.saturating_sub(1))),
            4 => Outcome::Reaped(Pid::from_raw(round as i32 - 1)),
            5 => Outcome::Ticked(at(round as u64)),
            _ => Outcome::ReapFailed,
        }
    };
    for code in 0..7usize.pow(5) {
        let mut sup = supervisor(2, None);
        for round in 0..5 {
            sup = sup.handle(outcome(code / 7usize.pow(round as u32) % 7, round), at(round as u64));
            let workers = sup.machine().workers();
            assert!(workers.len() <= 2);
            if sup.machine().phase() == Phase::Running {
                assert_eq!(workers.count(Stage::Acked), workers.len());
            }
        }
    }
}

#[test]
fn an_unready_worker_faults_the_fleet_within_a_period_of_its_deadline() {
    let limit = Span::from_millis(1_000);
    let mut sup = supervisor(2, Some(limit));
    let period = sup.machine().config().ack_ticker().unwrap();
    sup = sup.handle(Outcome::Spawned("a".to_string()), at(0));
    sup = sup.handle(launched("a", 1), at(130));
    sup = sup.handle(Outcome::Spawned("b".to_string()), at(140));
    let mut tick = at(0);
    let mut faulted_at = None;
    for _ in 0..10 {
        tick = tick.plus(period);
        assert_eq!(sup.next_action(), Action::Select);
        sup = sup.handle(Outcome::Ticked(tick), tick);
        if sup.machine().phase() == Phase::Faulted {
            faulted_at = Some(tick);
            break;
        }
    }
    let faulted_at = faulted_at.unwrap();
    let deadline = at(130).plus(limit);
    assert!(faulted_at.nanos > deadline.nanos);
    assert!(faulted_at.nanos <= deadline.plus(period).nanos);
    assert_eq!(faulted_at, at(1_500));
    assert_eq!(sup.next_action(), Action::ReapOnly { announce: true });
}
