//! The life of a single worker, seen by itself.

use vstd::prelude::*;

use crate::pid::Pid;

verus! {

/// The worker was asked for and has not said that it is ready.
#[derive(Clone, Debug, PartialEq)]
pub struct Starting {}

/// The worker is ready.
#[derive(Clone, Debug, PartialEq)]
pub struct Up {}

/// The worker is gone.
#[derive(Clone, Debug, PartialEq)]
pub struct Dead {}

/// A worker, by how far it is.
#[derive(Clone, Debug, PartialEq)]
pub enum Worker {
    Starting(Starting),
    Up(Up),
    Dead(Dead),
}

/// The worker said that it is ready.
#[derive(Clone, Debug, PartialEq)]
pub struct Ack {
    pub id: String,
}

/// The worker could not be started.
#[derive(Clone, Debug, PartialEq)]
pub struct Failed {
    pub id: String,
    pub message: String,
}

/// The worker's process was reaped.
#[derive(Clone, Debug, PartialEq)]
pub struct Reaped {
    pub pid: Pid,
}

impl Starting {
    /// A worker that could not be started is gone.
    pub fn on_failed(self, _f: Failed) -> (next: Dead)
        ensures
            next == (Dead {  }),
    {
        Dead {  }
    }

    /// A worker that says that it is ready is up.
    pub fn on_ack(self, _a: Ack) -> (next: Up)
        ensures
            next == (Up {  }),
    {
        Up {  }
    }
}

impl Up {
    /// A worker whose process was reaped is gone.
    pub fn on_reaped(self, _r: Reaped) -> (next: Dead)
        ensures
            next == (Dead {  }),
    {
        Dead {  }
    }
}

} // verus!
