use kleinhirn::pid::Pid;
use kleinhirn::reaper::{reap, ReapStep, WaitError, WaitStatus};

#[test]
fn terminated_children_are_handed_on() {
    let pid = Pid::from_raw(41);
    assert_eq!(reap(Ok(WaitStatus::Exited(pid, 0))), ReapStep::Reaped(pid));
    assert_eq!(reap(Ok(WaitStatus::Exited(pid, 3))), ReapStep::Reaped(pid));
    assert_eq!(reap(Ok(WaitStatus::Signaled(pid, 9, false))), ReapStep::Reaped(pid));
    assert_eq!(reap(Ok(WaitStatus::Signaled(pid, 11, true))), ReapStep::Reaped(pid));
}

#[test]
fn nothing_to_reap_waits_for_the_signal() {
    assert_eq!(reap(Ok(WaitStatus::StillAlive)), ReapStep::Drain);
    assert_eq!(reap(Err(WaitError::NoChildren)), ReapStep::Drain);
}

#[test]
fn other_changes_are_looked_past() {
    let pid = Pid::from_raw(41);
    assert_eq!(reap(Ok(WaitStatus::Stopped(pid))), ReapStep::Again);
    assert_eq!(reap(Ok(WaitStatus::Continued(pid))), ReapStep::Again);
    assert_eq!(reap(Ok(WaitStatus::Traced(pid))), ReapStep::Again);
}

#[test]
fn other_errors_come_back() {
    assert_eq!(reap(Err(WaitError::Os(4))), ReapStep::Failed(4));
    assert_eq!(reap(Err(WaitError::Os(22))), ReapStep::Failed(22));
}
