//! Process ids as the fleet records them.

use vstd::prelude::*;

verus! {

/// The operating system's id of a process.
#[derive(Clone, Copy, Debug, PartialEq, Eq, Hash, Structural)]
pub struct Pid {
    pub raw: i32,
}

impl View for Pid {
    type V = int;

    open spec fn view(&self) -> int {
        self.raw as int
    }
}

/// The signed reading of 32 bits given as an unsigned number.
pub open spec fn wire_pid(pid: u32) -> int {
    if pid <= 0x7fff_ffff {
        pid as int
    } else {
        pid as int - 0x1_0000_0000
    }
}

impl Pid {
    /// The id with this number.
    pub fn from_raw(raw: i32) -> (pid: Pid)
        ensures
            pid.raw == raw,
    {
        Pid { raw }
    }

    /// The number of the id.
    pub fn as_raw(self) -> (raw: i32)
        ensures
            raw == self.raw,
    {
        self.raw
    }

    /// The id that a peer reported as an unsigned number: the same 32 bits, read as signed.
    pub fn from_wire(pid: u32) -> (p: Pid)
        ensures
            p@ == wire_pid(pid),
    {
        if pid <= 0x7fff_ffff {
            Pid { raw: pid as i32 }
        } else {
            let wide: i64 = pid as i64 - 0x1_0000_0000;
            Pid { raw: wide as i32 }
        }
    }
}

} // verus!
