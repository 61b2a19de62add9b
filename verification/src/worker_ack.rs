//! The control channel between a worker and the supervisor: its frames, its one message,
//! and the worker's end of it as the supervisor holds it.

use vstd::prelude::*;

use crate::text::signed_decimal;
use crate::text::signed_decimal_string;

verus! {

/// The byte that ends a frame.
pub const FRAME_END: u8 = 10;

/// The worker's end of the control channel, which the supervisor holds until the worker
/// runs and has to close exactly once.
#[derive(PartialEq, Debug, Eq)]
pub struct WorkerControlFD(i32, bool);

impl WorkerControlFD {
    /// The number of the file descriptor.
    pub closed spec fn number(&self) -> i32 {
        self.0
    }

    /// Whether the supervisor's copy is still open.
    pub closed spec fn is_open(&self) -> bool {
        self.1
    }

    /// Takes charge of an open file descriptor.
    pub fn new(fd: i32) -> (held: WorkerControlFD)
        ensures
            held.number() == fd,
            held.is_open(),
    {
        Self(fd, true)
    }

    /// The number of the file descriptor, for the worker to find it by.
    pub fn fd(&self) -> (fd: i32)
        ensures
            fd == self.number(),
    {
        self.0
    }

    /// Gives the supervisor's copy up. The first call hands back the file descriptor, for
    /// the caller to close; every later call hands back nothing.
    pub fn close(&mut self) -> (fd: Option<i32>)
        ensures
            fd == if old(self).is_open() {
                Some(old(self).number())
            } else {
                None
            },
            !final(self).is_open(),
            final(self).number() == old(self).number(),
    {
        if self.1 {
            self.1 = false;
            Some(self.0)
        } else {
            None
        }
    }

    /// The number in decimal, as it goes into the worker's environment.
    pub fn to_string(&self) -> (text: String)
        ensures
            text@ == signed_decimal(self.number() as int),
    {
        signed_decimal_string(self.0)
    }
}

/// The vocabulary of messages that any kind of process can send to the supervisor. This is
/// a strict subset of the preloader message vocabulary.
#[derive(PartialEq, Debug, Clone)]
pub enum WorkerControlMessage {
    /// A worker process with the given ID has finished initializing and is now able to do
    /// work. The `id` field must correspond to the worker ID string given to the worker.
    Ack { id: String },
}

/// What a read of one line off a control channel gave.
#[derive(PartialEq, Debug, Clone)]
pub enum Received {
    /// Nothing was read: the peer has closed its end, which means that it is gone.
    PeerClosed,
    /// A frame, as it was read.
    Line(String),
}

impl Received {
    /// The frame, where there is one.
    pub open spec fn line(&self) -> Option<Seq<char>> {
        match self {
            Received::PeerClosed => None,
            Received::Line(line) => Some(line@),
        }
    }
}

/// Tells a closed channel from a frame: `count` is the number of bytes that the read gave,
/// and `line` is what it read.
pub fn received(count: usize, line: String) -> (read: Received)
    ensures
        read.line() == if count == 0 {
            None
        } else {
            Some(line@)
        },
{
    if count == 0 {
        Received::PeerClosed
    } else {
        Received::Line(line)
    }
}

/// Frames a message for the wire: the encoded message and the byte that ends the frame.
pub fn frame(payload: Vec<u8>) -> (framed: Vec<u8>)
    ensures
        framed@ == payload@.push(FRAME_END),
{
    let mut framed = payload;
    framed.push(FRAME_END);
    framed
}

/// One frame is one line: where the encoded message holds no frame end, the frame holds
/// one, and it is its last byte.
pub proof fn law_frame_is_one_line(payload: Seq<u8>)
    requires
        !payload.contains(FRAME_END),
    ensures
        payload.push(FRAME_END).index_of(FRAME_END) == payload.len(),
        payload.push(FRAME_END).last() == FRAME_END,
{
    let framed = payload.push(FRAME_END);
    assert(framed[payload.len() as int] == FRAME_END);
    let first = framed.index_of(FRAME_END);
    if first < payload.len() {
        assert(payload[first] == FRAME_END);
    }
}

} // verus!
