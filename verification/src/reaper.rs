//! What to make of one look for terminated children.
//!
//! The reaper asks the operating system, without waiting, for any child that has changed
//! state, and goes by what came back: hand the pid on, wait for the next signal, look
//! again, or give up with the error.

use vstd::prelude::*;

use crate::pid::Pid;

verus! {

/// What the operating system said of a child.
#[derive(Clone, Copy, Debug, PartialEq, Eq)]
pub enum WaitStatus {
    /// The process exited by itself, with this code.
    Exited(Pid, i32),
    /// The process was killed by this signal; the flag says whether it dumped core.
    Signaled(Pid, i32, bool),
    /// The process was stopped.
    Stopped(Pid),
    /// The process was resumed.
    Continued(Pid),
    /// The process is traced and has stopped for its tracer.
    Traced(Pid),
    /// There are children, and none has changed state.
    StillAlive,
}

/// Why the look failed.
#[derive(Clone, Copy, Debug, PartialEq, Eq)]
pub enum WaitError {
    /// There are no children at all.
    NoChildren,
    /// Any other error, by its number.
    Os(i32),
}

/// What the reaper does next.
#[derive(Clone, Copy, Debug, PartialEq, Eq)]
pub enum ReapStep {
    /// Hand this pid on: the process is gone.
    Reaped(Pid),
    /// Nothing to reap now: wait until the signal pipe has something, empty it, and look
    /// again.
    Drain,
    /// A change that ends no process: note it and look again.
    Again,
    /// Give the error back; the reaper can be asked again.
    Failed(i32),
}

/// What the reaper does after a look.
pub open spec fn reap_step(looked: Result<WaitStatus, WaitError>) -> ReapStep {
    match looked {
        Ok(WaitStatus::Exited(pid, _)) => ReapStep::Reaped(pid),
        Ok(WaitStatus::Signaled(pid, _, _)) => ReapStep::Reaped(pid),
        Ok(WaitStatus::StillAlive) => ReapStep::Drain,
        Err(WaitError::NoChildren) => ReapStep::Drain,
        Ok(WaitStatus::Stopped(_)) => ReapStep::Again,
        Ok(WaitStatus::Continued(_)) => ReapStep::Again,
        Ok(WaitStatus::Traced(_)) => ReapStep::Again,
        Err(WaitError::Os(errno)) => ReapStep::Failed(errno),
    }
}

/// Says what the reaper does after a look.
pub fn reap(looked: Result<WaitStatus, WaitError>) -> (next: ReapStep)
    ensures
        next == reap_step(looked),
{
    match looked {
        Ok(WaitStatus::Exited(pid, _)) => ReapStep::Reaped(pid),
        Ok(WaitStatus::Signaled(pid, _, _)) => ReapStep::Reaped(pid),
        Ok(WaitStatus::StillAlive) => ReapStep::Drain,
        Err(WaitError::NoChildren) => ReapStep::Drain,
        Ok(WaitStatus::Stopped(_)) => ReapStep::Again,
        Ok(WaitStatus::Continued(_)) => ReapStep::Again,
        Ok(WaitStatus::Traced(_)) => ReapStep::Again,
        Err(WaitError::Os(errno)) => ReapStep::Failed(errno),
    }
}

} // verus!
