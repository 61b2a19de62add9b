//! The controller that has one long-lived process load the code and fork the workers.
//!
//! The controller decides what the preloader's messages mean and what to send to it;
//! starting the preloader and moving bytes over its control channel are the caller's part.

use vstd::prelude::*;
use vstd::string::*;

use crate::fork_exec::Command;
use crate::fork_exec::CommandText;
use crate::preloader::machine::after_message;
use crate::preloader::machine::PreloaderState;
use crate::preloader::machine::Starting;
use crate::process_control::generate_id;
use crate::process_control::is_worker_id;
use crate::process_control::Message;
use crate::supervisor::ControlFailure;
use crate::text::signed_decimal;
use crate::worker_ack::Received;
use crate::worker_ack::WorkerControlFD;
use crate::worker_ack::WorkerControlMessage;

pub mod machine;

verus! {

/// Everything that can come over the preloader's control channel.
#[derive(PartialEq, Debug, Clone)]
pub enum PreloaderMessage {
    /// Messages that pertain to worker control.
    WorkerControl(WorkerControlMessage),
    /// Messages from the preloader specifically.
    Preloader(PreloaderSpecificMessage),
}

/// What only a preloader says.
#[derive(PartialEq, Debug, Clone)]
#[allow(inconsistent_fields)]
pub enum PreloaderSpecificMessage {
    /// The preloader is loading a file
    Loading {
        /// Path of the file being loaded
        file: String,
    },
    /// The preloader is done loading all files and standing by to spawn new processes.
    Ready,
    /// The preloader encountered an error with the command that was sent.
    Error { message: String, error: Option<String> },
    /// A problem occurred spawning a worker.
    Failed { id: String, message: String },
    /// A worker process has been launched and is initializing.
    Launched { id: String, pid: u32 },
    /// Some message that the preloader or worker wants us to log.
    Log { level: LogLevel, msg: String, kv: Vec<(String, String)> },
}

/// How much a log line of the preloader matters.
#[derive(PartialEq, Debug, Clone, Copy)]
pub enum LogLevel {
    Debug,
    Info,
}

/// What the supervisor asks of the preloader.
#[derive(PartialEq, Debug, Clone)]
pub enum PreloaderRequest {
    /// Fork a worker, and report on it under this id.
    Spawn { id: String },
}

/// The preloader has closed the control channel: it is gone.
#[derive(Debug, PartialEq, Eq, Clone, Copy)]
pub struct PreloaderDied;

impl PreloaderDied {
    /// What to tell the operator.
    pub fn message(&self) -> (text: String)
        ensures
            text@ == "preloader process has died"@,
    {
        String::from_str("preloader process has died")
    }
}

/// The preloader could not fork a worker.
#[derive(Debug, PartialEq, Eq, Clone)]
pub struct PreloaderLaunchFailure {
    pub message: String,
}

impl PreloaderLaunchFailure {
    /// What to tell the operator.
    pub fn message(&self) -> (text: String)
        ensures
            text@ == launch_failure_text(self.message@),
    {
        String::from_str("preloader failed to launch a child worker: ").concat(
            self.message.as_str(),
        )
    }
}

/// The preloader did not get ready.
#[derive(Debug, PartialEq, Eq, Clone, Copy)]
pub struct PreloaderFailed;

/// A log line that the preloader or one of its workers wants written.
#[derive(PartialEq, Debug, Clone)]
pub struct LogRecord {
    pub level: LogLevel,
    pub msg: String,
    pub kv: Vec<(String, String)>,
}

/// A message, told by whether it is for the log or for the controller.
#[derive(PartialEq, Debug, Clone)]
pub enum Translated {
    /// A line for the log, and nothing else.
    Log(LogRecord),
    /// Any other message.
    Message(PreloaderMessage),
}

/// Why the control channel gave no message.
#[derive(PartialEq, Debug, Clone)]
pub enum ChannelError {
    /// The preloader has closed its end.
    Died(PreloaderDied),
    /// The frame is no message of the protocol.
    Undecodable,
}

/// What a read of the control channel comes to.
#[derive(PartialEq, Debug, Clone)]
pub enum PreloaderRead {
    /// A line to log; the read is to be done again.
    Log(LogRecord),
    /// A message.
    Message(PreloaderMessage),
    /// No message.
    Failed(ChannelError),
}

/// Why the controller has no event for the supervisor.
#[derive(PartialEq, Debug, Clone)]
pub enum ControlError {
    /// The channel gave no message.
    Channel(ChannelError),
    /// The preloader said something that it should not say while workers run.
    Unexpected(PreloaderMessage),
}

/// Whether a message is for the log.
pub open spec fn translated(msg: PreloaderMessage) -> Translated {
    match msg {
        PreloaderMessage::Preloader(PreloaderSpecificMessage::Log { level, msg, kv }) => {
            Translated::Log(LogRecord { level, msg, kv })
        },
        _ => Translated::Message(msg),
    }
}

/// What a read comes to: a closed channel means that the preloader is gone, a frame that
/// does not decode is an error, a log line is for the log, and everything else is a
/// message. `decoded` is what the decoder made of the frame.
pub open spec fn read_of(read: Received, decoded: Option<PreloaderMessage>) -> PreloaderRead {
    match read {
        Received::PeerClosed => PreloaderRead::Failed(ChannelError::Died(PreloaderDied)),
        Received::Line(_) => match decoded {
            None => PreloaderRead::Failed(ChannelError::Undecodable),
            Some(msg) => match translated(msg) {
                Translated::Log(record) => PreloaderRead::Log(record),
                Translated::Message(msg) => PreloaderRead::Message(msg),
            },
        },
    }
}

/// What the operator is told of a worker that could not be forked.
pub open spec fn launch_failure_text(message: Seq<char>) -> Seq<char> {
    "preloader failed to launch a child worker: "@ + message
}

/// Whether `event` is what a message of the preloader tells the supervisor while workers
/// run: a launch, a worker that is ready, or a worker that could not be forked, with the
/// reason as text. Anything else that the preloader says is an error.
pub open spec fn is_event_of(msg: PreloaderMessage, event: Result<Message, ControlError>) -> bool {
    match msg {
        PreloaderMessage::Preloader(PreloaderSpecificMessage::Launched { id, pid }) => event
            == Ok::<Message, ControlError>(Message::Launched { id, pid }),
        PreloaderMessage::WorkerControl(WorkerControlMessage::Ack { id }) => event == Ok::<
            Message,
            ControlError,
        >(Message::Ack { id }),
        PreloaderMessage::Preloader(PreloaderSpecificMessage::Failed { id, message }) => {
            &&& event matches Ok(Message::LaunchError { id: failed, pid, error })
            &&& failed == id
            &&& pid.is_none()
            &&& error@ == launch_failure_text(message@)
        },
        _ => event == Err::<Message, ControlError>(ControlError::Unexpected(msg)),
    }
}

/// Whether initialization is over, and how: not while the preloader is starting or loading,
/// well once it is ready, and badly once it has failed.
pub open spec fn initialized(state: PreloaderState) -> Option<Result<(), PreloaderFailed>> {
    match state {
        PreloaderState::Starting(_) => None,
        PreloaderState::Loading(_) => None,
        PreloaderState::Ready(_) => Some(Ok(())),
        PreloaderState::Failed(_) => Some(Err(PreloaderFailed)),
    }
}

/// The command line that starts the preloader of a bundled ruby application.
pub open spec fn ruby_command(
    gemfile: Seq<char>,
    load: Seq<char>,
    start_expression: Seq<char>,
    status_fd: i32,
) -> CommandText {
    CommandText {
        program: "bundle"@,
        args: seq![
            "exec"@,
            "--gemfile"@,
            gemfile,
            "--keep-file-descriptors"@,
            "--"@,
            "kleinhirn_loader"@,
            "--status-fd"@,
            signed_decimal(status_fd as int),
            "-e"@,
            start_expression,
            "-r"@,
            load,
        ],
        env: Seq::empty(),
        cwd: None,
    }
}

/// Tells a log line from every other message.
pub fn translate_message(msg: PreloaderMessage) -> (out: Translated)
    ensures
        out == translated(msg),
{
    match msg {
        PreloaderMessage::Preloader(PreloaderSpecificMessage::Log { level, msg, kv }) => {
            Translated::Log(LogRecord { level, msg, kv })
        },
        other => Translated::Message(other),
    }
}

/// Says what a read of the control channel comes to. `decoded` is what the decoder made of
/// the frame: `None` where it is no message of the protocol.
pub fn next_preloader_message(read: &Received, decoded: Option<PreloaderMessage>) -> (out:
    PreloaderRead)
    ensures
        out == read_of(*read, decoded),
{
    match read {
        Received::PeerClosed => PreloaderRead::Failed(ChannelError::Died(PreloaderDied)),
        Received::Line(_) => match decoded {
            None => PreloaderRead::Failed(ChannelError::Undecodable),
            Some(msg) => match translate_message(msg) {
                Translated::Log(record) => PreloaderRead::Log(record),
                Translated::Message(msg) => PreloaderRead::Message(msg),
            },
        },
    }
}

impl ControlError {
    /// What the failure means for the fleet: a preloader that is gone is a miserable
    /// condition, and after anything else the loop goes on.
    pub fn failure(&self) -> (failure: ControlFailure)
        ensures
            failure == if *self == ControlError::Channel(ChannelError::Died(PreloaderDied)) {
                ControlFailure::PreloaderDied
            } else {
                ControlFailure::Other
            },
    {
        match self {
            ControlError::Channel(ChannelError::Died(_)) => ControlFailure::PreloaderDied,
            ControlError::Channel(ChannelError::Undecodable) => ControlFailure::Other,
            ControlError::Unexpected(_) => ControlFailure::Other,
        }
    }
}

/// The preloading controller: the preloader's pid, and how far it is with loading.
#[derive(Debug, PartialEq)]
pub struct Preloader {
    pid: u32,
    state: PreloaderState,
}

impl Preloader {
    /// The pid of the preloader.
    pub closed spec fn spec_pid(&self) -> u32 {
        self.pid
    }

    /// How far the preloader is.
    pub closed spec fn state(&self) -> PreloaderState {
        self.state
    }

    /// The command that starts the preloader of a bundled ruby application. `their_fd` is
    /// the preloader's end of the control channel.
    pub fn for_ruby(
        gemfile: &String,
        load: &String,
        start_expression: &String,
        their_fd: &WorkerControlFD,
    ) -> (command: Command)
        ensures
            command@ == ruby_command(gemfile@, load@, start_expression@, their_fd.number()),
    {
        let mut args: Vec<String> = Vec::new();
        args.push(String::from_str("exec"));
        args.push(String::from_str("--gemfile"));
        args.push(gemfile.clone());
        args.push(String::from_str("--keep-file-descriptors"));
        args.push(String::from_str("--"));
        args.push(String::from_str("kleinhirn_loader"));
        args.push(String::from_str("--status-fd"));
        args.push(their_fd.to_string());
        args.push(String::from_str("-e"));
        args.push(start_expression.clone());
        args.push(String::from_str("-r"));
        args.push(load.clone());
        let command = Command {
            program: String::from_str("bundle"),
            args,
            env: Vec::new(),
            cwd: None,
        };
        assert(command@.args =~= ruby_command(
            gemfile@,
            load@,
            start_expression@,
            their_fd.number(),
        ).args);
        assert(command@.env =~= Seq::empty());
        command
    }

    /// The controller of a preloader that was started as process `pid` and has not said
    /// anything yet.
    pub fn started(pid: u32) -> (controller: Preloader)
        ensures
            controller.spec_pid() == pid,
            controller.state() == PreloaderState::Starting(Starting {  }),
    {
        Preloader { pid, state: PreloaderState::starting() }
    }

    /// The pid of the preloader.
    pub fn pid(&self) -> (pid: u32)
        ensures
            pid == self.spec_pid(),
    {
        self.pid
    }

    /// Takes a message while the preloader loads the code, and says whether initialization
    /// is over with it.
    pub fn initialize(&mut self, msg: PreloaderMessage) -> (done: Option<Result<(), PreloaderFailed>>)
        ensures
            final(self).state() == after_message(old(self).state(), msg),
            final(self).spec_pid() == old(self).spec_pid(),
            done == initialized(final(self).state()),
    {
        let state = self.state.clone_state();
        self.state = state.on_preloader_message(msg);
        match &self.state {
            PreloaderState::Starting(_) => None,
            PreloaderState::Loading(_) => None,
            PreloaderState::Ready(_) => Some(Ok(())),
            PreloaderState::Failed(_) => Some(Err(PreloaderFailed)),
        }
    }

    /// Picks the id of the next worker and says what to ask of the preloader for it. The id
    /// is a fresh random one.
    pub fn spawn_process(&self) -> (spawn: (String, PreloaderRequest))
        ensures
            is_worker_id(spawn.0@),
            spawn.1 == (PreloaderRequest::Spawn { id: spawn.0 }),
    {
        let id = generate_id();
        let request = PreloaderRequest::Spawn { id: id.clone() };
        (id, request)
    }

    /// Says what a message of the preloader tells the supervisor while workers run.
    pub fn next_message(&self, msg: PreloaderMessage) -> (event: Result<Message, ControlError>)
        ensures
            is_event_of(msg, event),
    {
        match msg {
            PreloaderMessage::Preloader(PreloaderSpecificMessage::Launched { id, pid }) => Ok(
                Message::Launched { id, pid },
            ),
            PreloaderMessage::WorkerControl(WorkerControlMessage::Ack { id }) => Ok(
                Message::Ack { id },
            ),
            PreloaderMessage::Preloader(PreloaderSpecificMessage::Failed { id, message }) => {
                let error = PreloaderLaunchFailure { message }.message();
                Ok(Message::LaunchError { id, pid: None, error })
            },
            other => Err(ControlError::Unexpected(other)),
        }
    }
}

} // verus!
