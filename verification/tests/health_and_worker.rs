use kleinhirn::configuration::{Program, WorkerConfig, WorkerKind};
use kleinhirn::health::{health_check, State};
use kleinhirn::pid::Pid;
use kleinhirn::time::Timestamp;
use kleinhirn::worker::{Ack, Dead, Failed, Reaped, Starting, Up};
use kleinhirn::worker_set::{WorkerAcked, WorkerRequested, WorkerSet};

#[test]
fn health_names_the_phase() {
    let machine = WorkerSet::new(WorkerConfig {
        count: 1,
        ack_timeout: None,
        kind: WorkerKind::Program(Program::default()),
    });
    let state = health_check(&machine);
    assert_eq!(state, State::Unhealthy("still starting up".to_string()));
    assert!(!state.is_healthy());
    let now = Timestamp::from_millis(0);
    let machine = machine
        .on_worker_requested(WorkerRequested::new("a".to_string()), now)
        .on_worker_acked(WorkerAcked::new("a".to_string()), now);
    assert_eq!(health_check(&machine), State::Healthy);
    assert!(health_check(&machine).is_healthy());
}

#[test]
fn a_worker_starts_then_is_up_then_dead() {
    let up = Starting {}.on_ack(Ack { id: "a".to_string() });
    assert_eq!(up, Up {});
    assert_eq!(up.on_reaped(Reaped { pid: Pid::from_raw(1) }), Dead {});
    let failed = Failed { id: "a".to_string(), message: "no".to_string() };
    assert_eq!(Starting {}.on_failed(failed), Dead {});
}

#[test]
fn probe_answers() {
    let ok = State::Healthy.response();
    assert_eq!(ok.status, 200);
    assert_eq!(ok.body, "ok\n");
    let bad = State::Unhealthy("faulted".to_string()).response();
    assert_eq!(bad.status, 417);
    assert_eq!(bad.body, "unhealthy: faulted\n");
}
