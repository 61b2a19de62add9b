//! What the supervisor is told to run, and how.

use vstd::prelude::*;
use vstd::string::*;

use crate::text::clone_optional;
use crate::text::clone_pairs;
use crate::text::clone_strings;
use crate::text::optional;
use crate::text::pairs;
use crate::text::views;
use crate::time::Span;

verus! {

/// How the supervisor writes its log.
#[derive(Debug, PartialEq, Eq, Clone)]
pub struct LoggingConfig {
    pub format: LogFormat,
    pub output: LogOutput,
    pub level: LogLevel,
}

impl Default for LoggingConfig {
    fn default() -> (config: LoggingConfig)
        ensures
            config.format == (LogFormat::Logfmt { print_prefix: true }),
            config.output == LogOutput::Stderr,
            config.level == LogLevel::Info,
    {
        LoggingConfig {
            format: LogFormat::Logfmt { print_prefix: true },
            output: LogOutput::Stderr,
            level: LogLevel::Info,
        }
    }
}

/// The least severity that is logged.
#[derive(Debug, PartialEq, Eq, Clone, Copy)]
pub enum LogLevel {
    Critical,
    Error,
    Warning,
    Info,
    Debug,
    Trace,
}

impl Default for LogLevel {
    fn default() -> (level: LogLevel)
        ensures
            level == LogLevel::Info,
    {
        LogLevel::Info
    }
}

/// The shape of a log line.
#[derive(Debug, PartialEq, Eq, Clone)]
pub enum LogFormat {
    Json,
    Logfmt { print_prefix: bool },
}

impl Default for LogFormat {
    fn default() -> (format: LogFormat)
        ensures
            format == (LogFormat::Logfmt { print_prefix: true }),
    {
        LogFormat::Logfmt { print_prefix: true }
    }
}

/// Where log lines go.
#[derive(Debug, PartialEq, Eq, Clone)]
pub enum LogOutput {
    Stderr,
    Stdout,
}

impl Default for LogOutput {
    fn default() -> (output: LogOutput)
        ensures
            output == LogOutput::Stderr,
    {
        LogOutput::Stderr
    }
}

/// The supervised service as a whole.
#[derive(Debug, PartialEq, Eq, Clone)]
pub struct SupervisorConfig {
    /// Name of the supervised service; it goes into every log line.
    pub name: String,
    /// UNIX domain socket on which to listen for commands.
    pub socket: Option<String>,
}

/// The fleet to keep alive.
#[derive(Debug, PartialEq, Eq)]
pub struct WorkerConfig {
    /// How many ready workers are wanted.
    pub count: usize,
    /// How workers are started.
    pub kind: WorkerKind,
    /// How long a launched worker may take to say that it is ready; `None` for as long as it
    /// likes.
    pub ack_timeout: Option<Span>,
}

impl Clone for WorkerConfig {
    fn clone(&self) -> (copy: WorkerConfig)
        ensures
            copy.count == self.count,
            copy.kind@ == self.kind@,
            copy.ack_timeout == self.ack_timeout,
    {
        WorkerConfig {
            count: self.count,
            kind: self.kind.clone(),
            ack_timeout: self.ack_timeout,
        }
    }
}

/// The period at which to look for workers that take too long to get ready: half of the
/// timeout, and the shortest span that the clock can tell where half of the timeout is
/// shorter than that.
pub open spec fn tick_period(timeout: Span) -> Span {
    if timeout.nanos >= 2 {
        Span { nanos: timeout.nanos / 2 }
    } else {
        Span { nanos: 1 }
    }
}

impl WorkerConfig {
    /// The period at which to read the clock for the ack timeout, and `None`, for never,
    /// where there is no timeout. The period is never zero. It is half of the timeout, so
    /// that a worker is found out no later than half a timeout after its time is up; of a
    /// timeout under two nanoseconds no positive half exists, and the period is one
    /// nanosecond.
    pub fn ack_ticker(&self) -> (period: Option<Span>)
        ensures
            period == match self.ack_timeout {
                Some(timeout) => Some(tick_period(timeout)),
                None => None,
            },
            period matches Some(p) ==> p.nanos > 0,
            period matches Some(p) ==> self.ack_timeout->0.nanos >= 2 ==> 2 * p.nanos
                <= self.ack_timeout->0.nanos,
    {
        match self.ack_timeout {
            Some(timeout) => if timeout.nanos >= 2 {
                Some(timeout.half())
            } else {
                Some(Span::from_nanos(1))
            },
            None => None,
        }
    }
}

/// The number of workers where none is configured.
pub fn default_count() -> (count: usize)
    ensures
        count == 1,
{
    1
}

/// The path of the health endpoint where none is configured.
pub fn default_health_endpoint() -> (endpoint: String)
    ensures
        endpoint@ == "/healthz"@,
{
    String::from_str("/healthz")
}

/// A program that is forked and exec'ed once per worker, without variable substitution or
/// shell expansion.
#[derive(Debug, PartialEq, Eq)]
pub struct Program {
    /// The command and its arguments.
    pub cmdline: Vec<String>,
    /// Variables to add to each worker's environment; of two with one name the later counts.
    pub env: Vec<(String, String)>,
    /// The directory to start each worker in; the supervisor's own where none is given.
    pub cwd: Option<String>,
    /// Whether workers say over a control channel when they are ready.
    pub ack_workers: bool,
}

/// A program as plain text.
pub struct ProgramText {
    pub cmdline: Seq<Seq<char>>,
    pub env: Seq<(Seq<char>, Seq<char>)>,
    pub cwd: Option<Seq<char>>,
    pub ack_workers: bool,
}

impl View for Program {
    type V = ProgramText;

    open spec fn view(&self) -> ProgramText {
        ProgramText {
            cmdline: views(self.cmdline@),
            env: pairs(self.env@),
            cwd: optional(self.cwd),
            ack_workers: self.ack_workers,
        }
    }
}

impl Clone for Program {
    fn clone(&self) -> (copy: Program)
        ensures
            copy@ == self@,
    {
        Program {
            cmdline: clone_strings(&self.cmdline),
            env: clone_pairs(&self.env),
            cwd: clone_optional(&self.cwd),
            ack_workers: self.ack_workers,
        }
    }
}

impl Default for Program {
    fn default() -> (program: Program)
        ensures
            program.cmdline@.len() == 0,
            program.env@.len() == 0,
            program.cwd.is_none(),
            !program.ack_workers,
    {
        Program { cmdline: Vec::new(), env: Vec::new(), cwd: None, ack_workers: false }
    }
}

/// A bundled ruby application whose code is loaded once, in a preloader that forks the
/// workers.
#[derive(Debug, PartialEq, Eq)]
pub struct Ruby {
    /// The Gemfile of the bundle.
    pub gemfile: String,
    /// A ruby file that can be `load`ed.
    pub load: String,
    /// A ruby expression that each worker runs in order to start.
    pub start_expression: String,
}

impl Clone for Ruby {
    fn clone(&self) -> (copy: Ruby)
        ensures
            copy == *self,
    {
        Ruby {
            gemfile: self.gemfile.clone(),
            load: self.load.clone(),
            start_expression: self.start_expression.clone(),
        }
    }
}

/// The ways to start workers.
#[derive(Debug, PartialEq, Eq)]
pub enum WorkerKind {
    Program(Program),
    Ruby(Ruby),
}

/// A way to start workers, as plain text.
pub enum WorkerKindText {
    Program(ProgramText),
    Ruby(Ruby),
}

impl View for WorkerKind {
    type V = WorkerKindText;

    open spec fn view(&self) -> WorkerKindText {
        match self {
            WorkerKind::Program(program) => WorkerKindText::Program(program@),
            WorkerKind::Ruby(ruby) => WorkerKindText::Ruby(*ruby),
        }
    }
}

impl Clone for WorkerKind {
    fn clone(&self) -> (copy: WorkerKind)
        ensures
            copy@ == self@,
    {
        match self {
            WorkerKind::Program(program) => WorkerKind::Program(program.clone()),
            WorkerKind::Ruby(ruby) => WorkerKind::Ruby(ruby.clone()),
        }
    }
}

} // verus!
