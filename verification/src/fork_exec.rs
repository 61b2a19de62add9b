//! The controller that starts each worker as a program of its own.
//!
//! The controller decides what to run and what to tell the supervisor; starting the process
//! and reading the worker's channel are the caller's part.

use std::collections::VecDeque;
use vstd::prelude::*;

use crate::configuration::Program;
use crate::configuration::ProgramText;
use crate::process_control::generate_id;
use crate::process_control::is_worker_id;
use crate::process_control::Message;
use crate::text::clone_optional;
use crate::text::clone_pairs;
use crate::text::join;
use crate::text::joined;
use crate::text::optional;
use crate::text::pairs;
use crate::text::signed_decimal;
use crate::text::views;
use crate::worker_ack::Received;
use crate::worker_ack::WorkerControlFD;
use crate::worker_ack::WorkerControlMessage;

verus! {

/// The environment variable name used to pass the worker ID to a subprocess in the
/// fork/exec method.
pub const WORKER_ID_ENV: &'static str = "KLEINHIRN_WORKER_ID";

/// The environment variable name used to pass the worker's control channel FD number.
pub const WORKER_CONTROL_CHANNEL_ENV: &'static str = "KLEINHIRN_STATUS_FD";

/// The environment variable name used to pass the service name.
pub const NAME_ENV: &'static str = "KLEINHIRN_NAME";

/// The environment variable name used to pass the version of the service.
pub const VERSION_ENV: &'static str = "KLEINHIRN_VERSION";

/// The worker has closed the control channel before it said that it is ready.
#[derive(Debug, PartialEq, Eq, Clone, Copy)]
pub struct WorkerDied;

impl WorkerDied {
    /// What to tell the operator.
    pub fn message(&self) -> (text: String)
        ensures
            text@ == "worker process has died or closed the control channel"@,
    {
        String::from_str("worker process has died or closed the control channel")
    }
}

/// Why no worker could be started.
#[derive(Debug, PartialEq, Eq, Clone, Copy)]
pub enum SpawnError {
    /// There is nothing to run: the configured command line is empty.
    EmptyCommandLine,
}

impl SpawnError {
    /// What to tell the operator.
    pub fn message(&self) -> (text: String)
        ensures
            text@ == "no commandline given"@,
    {
        String::from_str("no commandline given")
    }
}

/// Why a worker that was started did not count as ready.
#[derive(Debug, PartialEq, Eq, Clone)]
pub enum AckError {
    /// The worker is gone.
    Died(WorkerDied),
    /// What the worker sent is no message of the control protocol.
    Undecodable,
    /// The worker sent the id of another worker.
    Mismatch { expected: String, acked: String },
}

/// What came off the control channel of a new worker: nothing, a frame that is no message,
/// or a message.
#[derive(Debug, PartialEq, Clone)]
pub enum AckFrame {
    Closed,
    Undecodable,
    Message(WorkerControlMessage),
}

/// The process to start for a worker.
#[derive(Debug, PartialEq, Eq)]
pub struct Command {
    /// The program to run.
    pub program: String,
    /// Its arguments.
    pub args: Vec<String>,
    /// What to add to its environment, in this order: of two with one name the later
    /// counts.
    pub env: Vec<(String, String)>,
    /// The directory to start it in; the supervisor's own where none is given.
    pub cwd: Option<String>,
}

/// A command as plain text.
pub struct CommandText {
    pub program: Seq<char>,
    pub args: Seq<Seq<char>>,
    pub env: Seq<(Seq<char>, Seq<char>)>,
    pub cwd: Option<Seq<char>>,
}

impl View for Command {
    type V = CommandText;

    open spec fn view(&self) -> CommandText {
        CommandText {
            program: self.program@,
            args: views(self.args@),
            env: pairs(self.env@),
            cwd: optional(self.cwd),
        }
    }
}

/// What the supervisor adds to the environment of the worker `id`: the id, the command line
/// as one text, and the number of the control channel where the worker has one.
pub open spec fn injected_env(id: Seq<char>, cmdline: Seq<Seq<char>>, control_fd: Option<i32>) -> Seq<
    (Seq<char>, Seq<char>),
> {
    let always = seq![(WORKER_ID_ENV@, id), (NAME_ENV@, joined(cmdline, " "@))];
    match control_fd {
        Some(fd) => always.push((WORKER_CONTROL_CHANNEL_ENV@, signed_decimal(fd as int))),
        None => always,
    }
}

/// The process to start for the worker `id` of `program`: the first word of the command
/// line, with the others as arguments, in the configured directory, and with the configured
/// environment followed by what the supervisor adds.
pub open spec fn command_for(program: ProgramText, id: Seq<char>, control_fd: Option<i32>) -> CommandText
    recommends
        program.cmdline.len() > 0,
{
    CommandText {
        program: program.cmdline[0],
        args: program.cmdline.skip(1),
        env: program.env + injected_env(id, program.cmdline, control_fd),
        cwd: program.cwd,
    }
}

/// What the controller tells the supervisor once the worker `id` runs as `pid`: that it was
/// launched and, where workers do not say so themselves, that it is ready.
pub open spec fn launch_report(program: ProgramText, id: String, pid: u32) -> Seq<Message> {
    if program.ack_workers {
        seq![Message::Launched { id, pid }]
    } else {
        seq![Message::Launched { id, pid }, Message::Ack { id }]
    }
}

/// What a new worker's channel gave, told from what the decoder made of the frame: `None`
/// where the frame is no message of the control protocol.
pub open spec fn ack_frame_of(read: Received, decoded: Option<WorkerControlMessage>) -> AckFrame {
    match read {
        Received::PeerClosed => AckFrame::Closed,
        Received::Line(_) => match decoded {
            Some(message) => AckFrame::Message(message),
            None => AckFrame::Undecodable,
        },
    }
}

/// Whether the frame says that the worker `id` is ready, and what is wrong with it
/// otherwise.
pub open spec fn ack_verdict(id: String, frame: AckFrame) -> Result<(), AckError> {
    match frame {
        AckFrame::Closed => Err(AckError::Died(WorkerDied)),
        AckFrame::Undecodable => Err(AckError::Undecodable),
        AckFrame::Message(WorkerControlMessage::Ack { id: acked }) => if acked@ == id@ {
            Ok(())
        } else {
            Err(AckError::Mismatch { expected: id, acked })
        },
    }
}

/// The controller for workers that are programs of their own.
#[derive(Debug)]
pub struct ForkExec {
    program: Program,
    outbound: VecDeque<Message>,
}

impl ForkExec {
    /// The program that every worker runs.
    pub closed spec fn program(&self) -> ProgramText {
        self.program@
    }

    /// What the controller has to tell the supervisor, the oldest first.
    pub closed spec fn outbound(&self) -> Seq<Message> {
        self.outbound@
    }

    /// A controller for `p`, with nothing to tell yet.
    pub fn for_program(p: &Program) -> (controller: ForkExec)
        ensures
            controller.program() == p@,
            controller.outbound() == Seq::<Message>::empty(),
    {
        ForkExec { program: p.clone(), outbound: VecDeque::new() }
    }

    /// Whether a worker needs a control channel to say that it is ready.
    pub fn ack_workers(&self) -> (needed: bool)
        ensures
            needed == self.program().ack_workers,
    {
        self.program.ack_workers
    }

    /// Whether there is a command to run at all.
    pub fn can_spawn(&self) -> (ok: bool)
        ensures
            ok == (self.program().cmdline.len() > 0),
    {
        self.program.cmdline.len() > 0
    }

    /// The process to start for the worker `id`, and an error where the configured command
    /// line is empty. `control_fd` is the worker's end of its control channel, where it has
    /// one.
    pub fn command(&self, id: &String, control_fd: Option<&WorkerControlFD>) -> (command: Result<
        Command,
        SpawnError,
    >)
        ensures
            command.is_ok() == (self.program().cmdline.len() > 0),
            command matches Err(error) ==> error == SpawnError::EmptyCommandLine,
            command matches Ok(command) ==> command@ == command_for(
                self.program(),
                id@,
                match control_fd {
                    Some(held) => Some(held.number()),
                    None => None,
                },
            ),
    {
        let cmdline = &self.program.cmdline;
        if cmdline.len() == 0 {
            return Err(SpawnError::EmptyCommandLine);
        }
        let mut args: Vec<String> = Vec::new();
        let mut at: usize = 1;
        while at < cmdline.len()
            invariant
                1 <= at <= cmdline@.len(),
                args@ == cmdline@.subrange(1, at as int),
            decreases cmdline@.len() - at,
        {
            args.push(cmdline[at].clone());
            at += 1;
        }
        assert(views(args@) =~= views(cmdline@).skip(1));
        let mut env = clone_pairs(&self.program.env);
        let ghost configured = pairs(env@);
        env.push((String::from_str(WORKER_ID_ENV), id.clone()));
        env.push((String::from_str(NAME_ENV), join(cmdline, " ")));
        match control_fd {
            Some(held) => {
                env.push((String::from_str(WORKER_CONTROL_CHANNEL_ENV), held.to_string()));
            },
            None => {},
        }
        assert(pairs(env@) =~= configured + injected_env(
            id@,
            views(cmdline@),
            match control_fd {
                Some(held) => Some(held.number()),
                None => None,
            },
        ));
        Ok(
            Command {
                program: cmdline[0].clone(),
                args,
                env,
                cwd: clone_optional(&self.program.cwd),
            },
        )
    }

    /// Picks the id of the next worker and says what to start for it. Where the configured
    /// command line is empty no worker can be started: that is an error, and the controller
    /// has nothing to tell the supervisor of it. Otherwise the id is a fresh random one, and
    /// the command is that of `command` for it.
    pub fn spawn_process(&self, control_fd: Option<&WorkerControlFD>) -> (spawn: Result<
        (String, Command),
        SpawnError,
    >)
        ensures
            spawn.is_ok() == (self.program().cmdline.len() > 0),
            spawn matches Err(error) ==> error == SpawnError::EmptyCommandLine,
            spawn matches Ok(spawn) ==> is_worker_id(spawn.0@) && spawn.1@ == command_for(
                self.program(),
                spawn.0@,
                match control_fd {
                    Some(held) => Some(held.number()),
                    None => None,
                },
            ),
    {
        if !self.can_spawn() {
            return Err(SpawnError::EmptyCommandLine);
        }
        let id = generate_id();
        match self.command(&id, control_fd) {
            Ok(command) => Ok((id, command)),
            Err(error) => Err(error),
        }
    }

    /// The worker `id` runs as `pid`: that goes to the supervisor and, where workers do not
    /// say so themselves, that the worker is ready.
    pub fn launched(&mut self, id: &String, pid: u32)
        ensures
            final(self).outbound() == old(self).outbound() + launch_report(
                old(self).program(),
                *id,
                pid,
            ),
            final(self).program() == old(self).program(),
    {
        self.outbound.push_back(Message::Launched { id: id.clone(), pid });
        if !self.program.ack_workers {
            self.outbound.push_back(Message::Ack { id: id.clone() });
        }
    }

    /// Takes what came off the control channel of the worker `id` after it was started.
    /// Where it is the worker's own word that it is ready, that goes to the supervisor;
    /// everything else is an error and tells the supervisor nothing.
    pub fn receive_control_channel_ack(&mut self, id: &String, frame: AckFrame) -> (result: Result<
        (),
        AckError,
    >)
        ensures
            result == ack_verdict(*id, frame),
            final(self).outbound() == if result.is_ok() {
                old(self).outbound().push(Message::Ack { id: *id })
            } else {
                old(self).outbound()
            },
            final(self).program() == old(self).program(),
    {
        match frame {
            AckFrame::Closed => Err(AckError::Died(WorkerDied)),
            AckFrame::Undecodable => Err(AckError::Undecodable),
            AckFrame::Message(WorkerControlMessage::Ack { id: acked }) => {
                if acked == *id {
                    self.outbound.push_back(Message::Ack { id: id.clone() });
                    Ok(())
                } else {
                    Err(AckError::Mismatch { expected: id.clone(), acked })
                }
            },
        }
    }

    /// The next thing to tell the supervisor, if there is one.
    pub fn next_message(&mut self) -> (message: Option<Message>)
        ensures
            message == if old(self).outbound().len() > 0 {
                Some(old(self).outbound()[0])
            } else {
                None
            },
            final(self).outbound() == if old(self).outbound().len() > 0 {
                old(self).outbound().skip(1)
            } else {
                old(self).outbound()
            },
            final(self).program() == old(self).program(),
    {
        let message = self.outbound.pop_front();
        assert(message.is_some() ==> self.outbound@ =~= old(self).outbound@.skip(1));
        message
    }
}

/// Tells what a new worker's channel gave. `decoded` is what the decoder made of the frame:
/// `None` where it is no message of the control protocol.
pub fn ack_frame(read: &Received, decoded: Option<WorkerControlMessage>) -> (frame: AckFrame)
    ensures
        frame == ack_frame_of(*read, decoded),
{
    match read {
        Received::PeerClosed => AckFrame::Closed,
        Received::Line(_) => match decoded {
            Some(message) => AckFrame::Message(message),
            None => AckFrame::Undecodable,
        },
    }
}

} // verus!
