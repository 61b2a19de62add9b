//! The worker-set state machine: a fleet's phase and its workers, and what each event makes
//! of them.
//!
//! Every transition takes the machine by value together with one event and gives the next
//! machine. No transition can fail: on every phase, every event has an outcome.

use vstd::prelude::*;

use crate::configuration::WorkerConfig;
use crate::pid::Pid;
use crate::time::Timestamp;
use crate::text::decimal;
use crate::text::decimal_string;
use crate::workers::ack;
use crate::workers::acked_count;
use crate::workers::any_overdue;
use crate::workers::by_pid;
use crate::workers::count_at;
use crate::workers::launch;
use crate::workers::lemma_ack_keeps_acked;
use crate::workers::live_count;
use crate::workers::reap;
use crate::workers::register;
use crate::workers::well_indexed;
use crate::workers::ById;
use crate::workers::Stage;
use crate::workers::Workers;

verus! {

/// Something that the supervisor has to do for the fleet.
#[derive(Debug, PartialEq, Clone)]
pub enum Todo {
    /// Tell the process to stop.
    KillProcess(Pid),
    /// Start another worker.
    LaunchProcess,
}

/// A process was reaped.
#[derive(Clone, Debug, PartialEq)]
pub struct WorkerDeath(pub Pid);

impl WorkerDeath {
    /// The death of the process `pid`.
    pub fn new(pid: Pid) -> (event: WorkerDeath)
        ensures
            event.0 == pid,
    {
        WorkerDeath(pid)
    }
}

/// The supervisor asked the controller for a worker, which got this id.
#[derive(Clone, Debug, PartialEq)]
pub struct WorkerRequested {
    id: String,
}

impl WorkerRequested {
    /// The id of the worker that was asked for.
    pub closed spec fn id(&self) -> Seq<char> {
        self.id@
    }

    /// The request for the worker `id`.
    pub fn new(id: String) -> (event: WorkerRequested)
        ensures
            event.id() == id@,
    {
        Self { id }
    }
}

/// The controller reported that a worker runs, and under which pid.
#[derive(Clone, Debug, PartialEq)]
pub struct WorkerLaunched {
    id: String,
    pid: Pid,
}

impl WorkerLaunched {
    /// The id of the worker that runs.
    pub closed spec fn id(&self) -> Seq<char> {
        self.id@
    }

    /// The process it runs as.
    pub closed spec fn pid(&self) -> Pid {
        self.pid
    }

    /// The launch of the worker `id` as process `pid`.
    pub fn new(id: String, pid: Pid) -> (event: WorkerLaunched)
        ensures
            event.id() == id@,
            event.pid() == pid,
    {
        Self { id, pid }
    }
}

/// A worker said that it is ready.
#[derive(Clone, Debug, PartialEq)]
pub struct WorkerAcked {
    id: String,
}

impl WorkerAcked {
    /// The id of the worker that is ready.
    pub closed spec fn id(&self) -> Seq<char> {
        self.id@
    }

    /// The word of the worker `id` that it is ready.
    pub fn new(id: String) -> (event: WorkerAcked)
        ensures
            event.id() == id@,
    {
        Self { id }
    }
}

/// A worker could not be started; the id is there where the controller had given it one.
#[derive(Clone, Debug, PartialEq)]
pub struct WorkerLaunchFailure {
    id: Option<String>,
}

impl WorkerLaunchFailure {
    /// The id of the worker that failed to start, if it had one.
    pub closed spec fn id(&self) -> Option<Seq<char>> {
        match self.id {
            Some(id) => Some(id@),
            None => None,
        }
    }

    /// The failure to start a worker, with its id where it had one.
    pub fn new(id: Option<String>) -> (event: WorkerLaunchFailure)
        ensures
            event.id() == match id {
                Some(id) => Some(id@),
                None => None,
            },
    {
        Self { id }
    }
}

/// The fleet is to be wound down.
#[derive(Clone, Debug, PartialEq)]
pub struct Terminate();

/// A condition that the fleet cannot recover from.
#[derive(Clone, Debug, PartialEq, Copy)]
pub enum MiserableCondition {
    /// The process that forks the workers is gone.
    PreloaderDied,
}

/// The clock was read.
#[derive(Clone, Copy, Debug, PartialEq)]
pub struct Tick(pub Timestamp);

impl Tick {
    /// A reading of the clock.
    pub fn new(now: Timestamp) -> (event: Tick)
        ensures
            event.0 == now,
    {
        Tick(now)
    }
}

/// The health of the fleet as a whole.
#[derive(Clone, Copy, Debug, PartialEq, Eq)]
pub enum Phase {
    /// The first workers are on their way.
    Startup,
    /// As many workers as wanted are ready.
    Running,
    /// A worker was lost and has to be replaced.
    Underprovisioned,
    /// Something went wrong that the machine does not recover from.
    Faulted,
}

/// The machine as a value: its phase, its workers, and the configuration it was made with.
pub struct Fleet {
    pub phase: Phase,
    pub workers: ById,
    pub config: WorkerConfig,
}

/// An event as a value. Those that leave a time on a worker's record carry the time.
pub enum Happening {
    Requested { id: Seq<char>, at: Timestamp },
    Launched { id: Seq<char>, pid: Pid, at: Timestamp },
    Acked { id: Seq<char>, at: Timestamp },
    Death { pid: Pid },
    LaunchFailure { worker: Option<Seq<char>> },
    Miserable { condition: MiserableCondition },
    Tick { now: Timestamp },
}

/// The machine that a supervisor starts with: in startup, without workers.
pub open spec fn initial(config: WorkerConfig) -> Fleet {
    Fleet { phase: Phase::Startup, workers: Map::empty(), config }
}

/// Whether a launched worker has kept the fleet waiting for longer than the configured
/// timeout by `now`. Never, where no timeout is configured.
pub open spec fn timed_out(fleet: Fleet, now: Timestamp) -> bool {
    match fleet.config.ack_timeout {
        Some(limit) => any_overdue(fleet.workers, now, limit),
        None => false,
    }
}

/// The phase after a readiness report on a fleet that is not yet, or no longer, complete:
/// running once as many workers as wanted are ready, and the phase it was in until then.
pub open spec fn promoted(phase: Phase, workers: ById, config: WorkerConfig) -> Phase {
    if acked_count(workers) >= config.count {
        Phase::Running
    } else {
        phase
    }
}

/// What an event makes of a fleet that is starting up or underprovisioned.
pub open spec fn step_provisioning(fleet: Fleet, event: Happening) -> Fleet {
    match event {
        Happening::Requested { id, at } => Fleet {
            workers: register(fleet.workers, id, at),
            ..fleet
        },
        Happening::Launched { id, pid, at } => Fleet {
            workers: launch(fleet.workers, id, pid, at),
            ..fleet
        },
        Happening::Acked { id, at } => Fleet {
            phase: promoted(fleet.phase, ack(fleet.workers, id, at), fleet.config),
            workers: ack(fleet.workers, id, at),
            ..fleet
        },
        Happening::Death { pid } => if by_pid(fleet.workers).contains_key(pid) {
            Fleet { phase: Phase::Faulted, workers: reap(fleet.workers, pid), ..fleet }
        } else {
            fleet
        },
        Happening::LaunchFailure { .. } => Fleet { phase: Phase::Faulted, ..fleet },
        Happening::Miserable { .. } => Fleet { phase: Phase::Faulted, ..fleet },
        Happening::Tick { now } => if timed_out(fleet, now) {
            Fleet { phase: Phase::Faulted, ..fleet }
        } else {
            fleet
        },
    }
}

/// What an event makes of a running fleet.
pub open spec fn step_running(fleet: Fleet, event: Happening) -> Fleet {
    match event {
        Happening::Acked { id, at } => Fleet { workers: ack(fleet.workers, id, at), ..fleet },
        Happening::Death { pid } => if by_pid(fleet.workers).contains_key(pid) {
            Fleet { phase: Phase::Underprovisioned, workers: reap(fleet.workers, pid), ..fleet }
        } else {
            fleet
        },
        Happening::LaunchFailure { .. } => Fleet { phase: Phase::Faulted, ..fleet },
        Happening::Miserable { .. } => Fleet { phase: Phase::Faulted, ..fleet },
        Happening::Requested { .. } => fleet,
        Happening::Launched { .. } => fleet,
        Happening::Tick { .. } => fleet,
    }
}

/// The transition function: what `event` makes of `fleet`.
pub open spec fn step(fleet: Fleet, event: Happening) -> Fleet {
    match fleet.phase {
        Phase::Startup => step_provisioning(fleet, event),
        Phase::Underprovisioned => step_provisioning(fleet, event),
        Phase::Running => step_running(fleet, event),
        Phase::Faulted => fleet,
    }
}

/// What a run of events makes of `fleet`, the first event first.
pub open spec fn run(fleet: Fleet, events: Seq<Happening>) -> Fleet
    decreases events.len(),
{
    if events.len() == 0 {
        fleet
    } else {
        run(step(fleet, events.first()), events.skip(1))
    }
}

/// What the supervisor has to do next for `fleet`: start a worker while the fleet is
/// starting up or underprovisioned and fewer workers than wanted are on record and were not
/// told to stop; nothing otherwise.
pub open spec fn action_required(fleet: Fleet) -> Option<Todo> {
    match fleet.phase {
        Phase::Startup | Phase::Underprovisioned => if live_count(fleet.workers)
            < fleet.config.count {
            Some(Todo::LaunchProcess)
        } else {
            None
        },
        Phase::Running => None,
        Phase::Faulted => None,
    }
}

/// What holds of every machine: its index is well formed, and while it is running at least
/// as many workers as wanted are ready.
pub open spec fn sound(fleet: Fleet) -> bool {
    &&& well_indexed(fleet.workers)
    &&& fleet.phase == Phase::Running ==> acked_count(fleet.workers) >= fleet.config.count
}

/// An event as the machine takes it: what happened and, where a time goes on record, when.
#[derive(Clone, Debug, PartialEq)]
pub enum Event {
    Requested(WorkerRequested, Timestamp),
    Launched(WorkerLaunched, Timestamp),
    Acked(WorkerAcked, Timestamp),
    Death(WorkerDeath),
    LaunchFailure(WorkerLaunchFailure),
    Miserable(MiserableCondition),
    Tick(Tick),
}

impl View for Event {
    type V = Happening;

    open spec fn view(&self) -> Happening {
        match self {
            Event::Requested(r, at) => Happening::Requested { id: r.id(), at: *at },
            Event::Launched(r, at) => Happening::Launched { id: r.id(), pid: r.pid(), at: *at },
            Event::Acked(s, at) => Happening::Acked { id: s.id(), at: *at },
            Event::Death(d) => Happening::Death { pid: d.0 },
            Event::LaunchFailure(t) => Happening::LaunchFailure { worker: t.id() },
            Event::Miserable(s) => Happening::Miserable { condition: *s },
            Event::Tick(t) => Happening::Tick { now: t.0 },
        }
    }
}

/// The events of a list, each as a value.
pub open spec fn happenings(events: Seq<Event>) -> Seq<Happening> {
    Seq::new(events.len(), |i: int| events[i]@)
}

/// The processes to stop when the fleet is wound down: the tasks of a list, each by the
/// process that it names.
pub open spec fn targets(todos: Seq<Todo>) -> Seq<Pid>
    recommends
        forall|i: int| 0 <= i < todos.len() ==> todos[i] is KillProcess,
{
    Seq::new(todos.len(), |i: int| todos[i]->KillProcess_0)
}

/// The name of a phase.
pub open spec fn phase_name(phase: Phase) -> Seq<char> {
    match phase {
        Phase::Startup => "Startup"@,
        Phase::Running => "Running"@,
        Phase::Underprovisioned => "Underprovisioned"@,
        Phase::Faulted => "Faulted"@,
    }
}

/// The machine in one line: its phase, how many workers are ready, how many are launched
/// and not ready, how many are asked for and not launched, and how many are wanted.
pub open spec fn description(fleet: Fleet) -> Seq<char> {
    "WorkerSet::"@ + phase_name(fleet.phase) + "(acked:"@ + decimal(
        count_at(fleet.workers, Stage::Acked),
    ) + ", launched:"@ + decimal(count_at(fleet.workers, Stage::Launched)) + ", requested:"@
        + decimal(count_at(fleet.workers, Stage::Requested)) + ")/"@ + decimal(
        fleet.config.count as nat,
    )
}

/// What every phase of the machine carries: the workers and the configuration.
#[derive(Debug, PartialEq)]
pub struct State {
    workers: Workers,
    config: WorkerConfig,
}

impl State {
    /// The machine that holds this state in the given phase.
    pub closed spec fn in_phase(&self, phase: Phase) -> Fleet {
        Fleet { phase, workers: self.workers@, config: self.config }
    }

    /// Records that `id` is ready, and says whether as many workers as wanted are ready
    /// then.
    fn handle_ack(self, id: &String, now: Timestamp) -> (out: (State, bool))
        ensures
            out.0.workers@ == ack(self.workers@, id@, now),
            out.0.config == self.config,
            out.1 == (acked_count(out.0.workers@) >= self.config.count),
            well_indexed(self.workers@),
    {
        let workers = self.workers.acked(id, now);
        let done = workers.count(Stage::Acked) >= self.config.count;
        (State { workers, config: self.config }, done)
    }

    /// A copy with the same workers on record and the same configuration.
    fn duplicate(&self) -> (copy: State)
        ensures
            copy.workers@ == self.workers@,
            copy.config.count == self.config.count,
            copy.config.kind@ == self.config.kind@,
            copy.config.ack_timeout == self.config.ack_timeout,
    {
        State { workers: self.workers.clone(), config: self.config.clone() }
    }

    /// Whether fewer workers than wanted are on record and were not told to stop.
    fn wants_worker(&self) -> (wanted: bool)
        ensures
            wanted == (live_count(self.workers@) < self.config.count),
    {
        self.workers.count(Stage::Live) < self.config.count
    }

    /// Whether a launched worker has kept the fleet waiting for too long by `now`.
    fn timed_out(&self, now: Timestamp) -> (late: bool)
        ensures
            late == timed_out(self.in_phase(Phase::Startup), now),
    {
        match self.config.ack_timeout {
            Some(limit) => self.workers.any_overdue(now, limit),
            None => false,
        }
    }
}

/// The fleet while its first workers are on their way.
#[derive(Debug, PartialEq)]
pub struct Startup {
    state: State,
}

/// The fleet while as many workers as wanted are ready.
#[derive(Debug, PartialEq)]
pub struct Running {
    state: State,
}

/// The fleet after it lost a worker, until the replacement is ready.
#[derive(Debug, PartialEq)]
pub struct Underprovisioned {
    state: State,
}

/// The fleet after something went wrong; the state is kept as it was then.
#[derive(Debug, PartialEq)]
pub struct Faulted {
    state: State,
}

/// The worker-set state machine.
#[derive(Debug, PartialEq)]
pub enum WorkerSet {
    Startup(Startup),
    Running(Running),
    Underprovisioned(Underprovisioned),
    Faulted(Faulted),
}

impl View for Startup {
    type V = Fleet;

    closed spec fn view(&self) -> Fleet {
        self.state.in_phase(Phase::Startup)
    }
}

impl View for Running {
    type V = Fleet;

    closed spec fn view(&self) -> Fleet {
        self.state.in_phase(Phase::Running)
    }
}

impl View for Underprovisioned {
    type V = Fleet;

    closed spec fn view(&self) -> Fleet {
        self.state.in_phase(Phase::Underprovisioned)
    }
}

impl View for Faulted {
    type V = Fleet;

    closed spec fn view(&self) -> Fleet {
        self.state.in_phase(Phase::Faulted)
    }
}

impl View for WorkerSet {
    type V = Fleet;

    open spec fn view(&self) -> Fleet {
        match self {
            WorkerSet::Startup(startup) => startup@,
            WorkerSet::Running(running) => running@,
            WorkerSet::Underprovisioned(underprovisioned) => underprovisioned@,
            WorkerSet::Faulted(faulted) => faulted@,
        }
    }
}

impl Startup {
    /// A starting fleet is in the startup phase.
    pub broadcast proof fn lemma_phase(self)
        ensures
            #[trigger] self@.phase == Phase::Startup,
    {
    }

    fn on_worker_requested(self, r: WorkerRequested, now: Timestamp) -> (next: Startup)
        ensures
            next@ == step(self@, Happening::Requested { id: r.id(), at: now }),
    {
        let state = self.state;
        let workers = state.workers.register_worker(r.id, now);
        Startup { state: State { workers, config: state.config } }
    }

    fn on_worker_launched(self, r: WorkerLaunched, now: Timestamp) -> (next: Startup)
        ensures
            next@ == step(self@, Happening::Launched { id: r.id(), pid: r.pid(), at: now }),
    {
        let state = self.state;
        let workers = state.workers.launched(&r.id, r.pid, now);
        Startup { state: State { workers, config: state.config } }
    }

    fn on_worker_acked(self, s: WorkerAcked, now: Timestamp) -> (next: WorkerSet)
        ensures
            next@ == step(self@, Happening::Acked { id: s.id(), at: now }),
    {
        let (state, done) = self.state.handle_ack(&s.id, now);
        if done {
            WorkerSet::Running(Running { state })
        } else {
            WorkerSet::Startup(Startup { state })
        }
    }

    fn on_worker_launch_failure(self, t: WorkerLaunchFailure) -> (next: Faulted)
        ensures
            next@ == step(self@, Happening::LaunchFailure { worker: t.id() }),
    {
        Faulted { state: self.state }
    }

    fn on_worker_death(self, d: WorkerDeath) -> (next: WorkerSet)
        ensures
            next@ == step(self@, Happening::Death { pid: d.0 }),
    {
        let state = self.state;
        let (workers, gone) = state.workers.delete_by_pid(d.0);
        let state = State { workers, config: state.config };
        if gone.is_some() {
            WorkerSet::Faulted(Faulted { state })
        } else {
            WorkerSet::Startup(Startup { state })
        }
    }

    fn on_miserable_condition(self, s: MiserableCondition) -> (next: Faulted)
        ensures
            next@ == step(self@, Happening::Miserable { condition: s }),
    {
        Faulted { state: self.state }
    }

    fn on_tick(self, t: Tick) -> (next: WorkerSet)
        ensures
            next@ == step(self@, Happening::Tick { now: t.0 }),
    {
        if self.state.timed_out(t.0) {
            WorkerSet::Faulted(Faulted { state: self.state })
        } else {
            WorkerSet::Startup(self)
        }
    }

    fn required_action(&self) -> (todo: Option<Todo>)
        ensures
            todo == action_required(self@),
    {
        if self.state.wants_worker() {
            Some(Todo::LaunchProcess)
        } else {
            None
        }
    }

    fn working(&self) -> (working: bool)
        ensures
            working,
    {
        true
    }
}

impl Running {
    #[verifier::type_invariant]
    spec fn enough_ready(&self) -> bool {
        acked_count(self.state.workers@) >= self.state.config.count
    }

    /// A running fleet is in the running phase.
    pub broadcast proof fn lemma_phase(self)
        ensures
            #[trigger] self@.phase == Phase::Running,
    {
    }

    fn on_worker_death(self, d: WorkerDeath) -> (next: WorkerSet)
        ensures
            next@ == step(self@, Happening::Death { pid: d.0 }),
    {
        proof {
            use_type_invariant(&self);
        }
        let state = self.state;
        let (workers, gone) = state.workers.delete_by_pid(d.0);
        let state = State { workers, config: state.config };
        if gone.is_some() {
            WorkerSet::Underprovisioned(Underprovisioned { state })
        } else {
            WorkerSet::Running(Running { state })
        }
    }

    fn on_worker_acked(self, s: WorkerAcked, now: Timestamp) -> (next: Running)
        ensures
            next@ == step(self@, Happening::Acked { id: s.id(), at: now }),
    {
        proof {
            use_type_invariant(&self);
        }
        let ghost before = self.state.workers@;
        let (state, _done) = self.state.handle_ack(&s.id, now);
        proof {
            lemma_ack_keeps_acked(before, s.id@, now);
        }
        Running { state }
    }

    fn on_worker_launch_failure(self, t: WorkerLaunchFailure) -> (next: Faulted)
        ensures
            next@ == step(self@, Happening::LaunchFailure { worker: t.id() }),
    {
        Faulted { state: self.state }
    }

    fn on_miserable_condition(self, s: MiserableCondition) -> (next: Faulted)
        ensures
            next@ == step(self@, Happening::Miserable { condition: s }),
    {
        Faulted { state: self.state }
    }

    fn working(&self) -> (working: bool)
        ensures
            working,
    {
        true
    }
}

impl Underprovisioned {
    /// An underprovisioned fleet is in the underprovisioned phase.
    pub broadcast proof fn lemma_phase(self)
        ensures
            #[trigger] self@.phase == Phase::Underprovisioned,
    {
    }

    fn on_worker_requested(self, r: WorkerRequested, now: Timestamp) -> (next: Underprovisioned)
        ensures
            next@ == step(self@, Happening::Requested { id: r.id(), at: now }),
    {
        let state = self.state;
        let workers = state.workers.register_worker(r.id, now);
        Underprovisioned { state: State { workers, config: state.config } }
    }

    fn on_worker_launched(self, r: WorkerLaunched, now: Timestamp) -> (next: Underprovisioned)
        ensures
            next@ == step(self@, Happening::Launched { id: r.id(), pid: r.pid(), at: now }),
    {
        let state = self.state;
        let workers = state.workers.launched(&r.id, r.pid, now);
        Underprovisioned { state: State { workers, config: state.config } }
    }

    fn on_worker_acked(self, s: WorkerAcked, now: Timestamp) -> (next: WorkerSet)
        ensures
            next@ == step(self@, Happening::Acked { id: s.id(), at: now }),
    {
        let (state, done) = self.state.handle_ack(&s.id, now);
        if done {
            WorkerSet::Running(Running { state })
        } else {
            WorkerSet::Underprovisioned(Underprovisioned { state })
        }
    }

    fn on_worker_launch_failure(self, t: WorkerLaunchFailure) -> (next: Faulted)
        ensures
            next@ == step(self@, Happening::LaunchFailure { worker: t.id() }),
    {
        Faulted { state: self.state }
    }

    fn on_worker_death(self, d: WorkerDeath) -> (next: WorkerSet)
        ensures
            next@ == step(self@, Happening::Death { pid: d.0 }),
    {
        let state = self.state;
        let (workers, gone) = state.workers.delete_by_pid(d.0);
        let state = State { workers, config: state.config };
        if gone.is_some() {
            WorkerSet::Faulted(Faulted { state })
        } else {
            WorkerSet::Underprovisioned(Underprovisioned { state })
        }
    }

    fn on_miserable_condition(self, s: MiserableCondition) -> (next: Faulted)
        ensures
            next@ == step(self@, Happening::Miserable { condition: s }),
    {
        Faulted { state: self.state }
    }

    fn on_tick(self, t: Tick) -> (next: WorkerSet)
        ensures
            next@ == step(self@, Happening::Tick { now: t.0 }),
    {
        if self.state.timed_out(t.0) {
            WorkerSet::Faulted(Faulted { state: self.state })
        } else {
            WorkerSet::Underprovisioned(self)
        }
    }

    fn required_action(&self) -> (todo: Option<Todo>)
        ensures
            todo == action_required(self@),
    {
        if self.state.wants_worker() {
            Some(Todo::LaunchProcess)
        } else {
            None
        }
    }

    fn working(&self) -> (working: bool)
        ensures
            working,
    {
        true
    }
}

impl Faulted {
    /// A faulted fleet is in the faulted phase.
    pub broadcast proof fn lemma_phase(self)
        ensures
            #[trigger] self@.phase == Phase::Faulted,
    {
    }
}

impl WorkerSet {
    /// The machine for a fleet that is yet to be started.
    pub fn new(config: WorkerConfig) -> (set: WorkerSet)
        ensures
            set@ == initial(config),
    {
        let state = State { config, workers: Workers::new() };
        WorkerSet::Startup(Startup { state })
    }

    /// The supervisor asked for a worker at `now`. A fleet that is starting up or
    /// underprovisioned files it; a running or faulted one stays as it is.
    pub fn on_worker_requested(self, r: WorkerRequested, now: Timestamp) -> (next: WorkerSet)
        ensures
            next@ == step(self@, Happening::Requested { id: r.id(), at: now }),
    {
        match self {
            WorkerSet::Startup(startup) => WorkerSet::Startup(startup.on_worker_requested(r, now)),
            WorkerSet::Underprovisioned(underprovisioned) => WorkerSet::Underprovisioned(
                underprovisioned.on_worker_requested(r, now),
            ),
            WorkerSet::Running(running) => WorkerSet::Running(running),
            WorkerSet::Faulted(faulted) => WorkerSet::Faulted(faulted),
        }
    }

    /// The controller reported at `now` that a worker runs. A fleet that is starting up or
    /// underprovisioned records it for the worker of that id, if there is one; a running or
    /// faulted one stays as it is.
    pub fn on_worker_launched(self, r: WorkerLaunched, now: Timestamp) -> (next: WorkerSet)
        ensures
            next@ == step(self@, Happening::Launched { id: r.id(), pid: r.pid(), at: now }),
    {
        match self {
            WorkerSet::Startup(startup) => WorkerSet::Startup(startup.on_worker_launched(r, now)),
            WorkerSet::Underprovisioned(underprovisioned) => WorkerSet::Underprovisioned(
                underprovisioned.on_worker_launched(r, now),
            ),
            WorkerSet::Running(running) => WorkerSet::Running(running),
            WorkerSet::Faulted(faulted) => WorkerSet::Faulted(faulted),
        }
    }

    /// A worker said at `now` that it is ready. Unless the fleet is faulted, the time goes
    /// on record for the worker of that id, if there is one and it has not said so before,
    /// and the fleet is running once as many workers as wanted are ready.
    pub fn on_worker_acked(self, s: WorkerAcked, now: Timestamp) -> (next: WorkerSet)
        ensures
            next@ == step(self@, Happening::Acked { id: s.id(), at: now }),
    {
        match self {
            WorkerSet::Startup(startup) => startup.on_worker_acked(s, now),
            WorkerSet::Underprovisioned(underprovisioned) => underprovisioned.on_worker_acked(
                s,
                now,
            ),
            WorkerSet::Running(running) => WorkerSet::Running(running.on_worker_acked(s, now)),
            WorkerSet::Faulted(faulted) => WorkerSet::Faulted(faulted),
        }
    }

    /// A process was reaped. Where it was no worker of this fleet nothing changes. Otherwise
    /// the worker is taken off the record; a running fleet is underprovisioned then, and one
    /// that was starting up or underprovisioned is faulted.
    pub fn on_worker_death(self, d: WorkerDeath) -> (next: WorkerSet)
        ensures
            next@ == step(self@, Happening::Death { pid: d.0 }),
    {
        match self {
            WorkerSet::Startup(startup) => startup.on_worker_death(d),
            WorkerSet::Underprovisioned(underprovisioned) => underprovisioned.on_worker_death(d),
            WorkerSet::Running(running) => running.on_worker_death(d),
            WorkerSet::Faulted(faulted) => WorkerSet::Faulted(faulted),
        }
    }

    /// A worker could not be started: the fleet is faulted.
    pub fn on_worker_launch_failure(self, t: WorkerLaunchFailure) -> (next: WorkerSet)
        ensures
            next@ == step(self@, Happening::LaunchFailure { worker: t.id() }),
    {
        match self {
            WorkerSet::Startup(startup) => WorkerSet::Faulted(startup.on_worker_launch_failure(t)),
            WorkerSet::Underprovisioned(underprovisioned) => WorkerSet::Faulted(
                underprovisioned.on_worker_launch_failure(t),
            ),
            WorkerSet::Running(running) => WorkerSet::Faulted(running.on_worker_launch_failure(t)),
            WorkerSet::Faulted(faulted) => WorkerSet::Faulted(faulted),
        }
    }

    /// Something happened that the fleet cannot recover from: it is faulted.
    pub fn on_miserable_condition(self, s: MiserableCondition) -> (next: WorkerSet)
        ensures
            next@ == step(self@, Happening::Miserable { condition: s }),
    {
        match self {
            WorkerSet::Startup(startup) => WorkerSet::Faulted(startup.on_miserable_condition(s)),
            WorkerSet::Underprovisioned(underprovisioned) => WorkerSet::Faulted(
                underprovisioned.on_miserable_condition(s),
            ),
            WorkerSet::Running(running) => WorkerSet::Faulted(running.on_miserable_condition(s)),
            WorkerSet::Faulted(faulted) => WorkerSet::Faulted(faulted),
        }
    }

    /// The clock was read. A fleet that is starting up or underprovisioned is faulted if a
    /// timeout is configured and some worker was launched longer ago than that without
    /// having said that it is ready; otherwise, and in every other phase, nothing changes.
    pub fn on_tick(self, t: Tick) -> (next: WorkerSet)
        ensures
            next@ == step(self@, Happening::Tick { now: t.0 }),
    {
        match self {
            WorkerSet::Startup(startup) => startup.on_tick(t),
            WorkerSet::Underprovisioned(underprovisioned) => underprovisioned.on_tick(t),
            WorkerSet::Running(running) => WorkerSet::Running(running),
            WorkerSet::Faulted(faulted) => WorkerSet::Faulted(faulted),
        }
    }

    /// What the supervisor has to do next for the fleet.
    pub fn required_action(&self) -> (todo: Option<Todo>)
        ensures
            todo == action_required(self@),
    {
        match self {
            WorkerSet::Startup(startup) => startup.required_action(),
            WorkerSet::Underprovisioned(underprovisioned) => underprovisioned.required_action(),
            WorkerSet::Running(_) => None,
            WorkerSet::Faulted(_) => None,
        }
    }

    /// Whether the fleet is still being looked after: in every phase but the faulted one.
    pub fn working(&self) -> (working: bool)
        ensures
            working == (self@.phase != Phase::Faulted),
    {
        match self {
            WorkerSet::Startup(startup) => startup.working(),
            WorkerSet::Underprovisioned(underprovisioned) => underprovisioned.working(),
            WorkerSet::Running(running) => running.working(),
            WorkerSet::Faulted(_) => false,
        }
    }

    /// Takes an event, whichever it is.
    pub fn apply(self, event: Event) -> (next: WorkerSet)
        ensures
            next@ == step(self@, event@),
    {
        match event {
            Event::Requested(r, at) => self.on_worker_requested(r, at),
            Event::Launched(r, at) => self.on_worker_launched(r, at),
            Event::Acked(s, at) => self.on_worker_acked(s, at),
            Event::Death(d) => self.on_worker_death(d),
            Event::LaunchFailure(t) => self.on_worker_launch_failure(t),
            Event::Miserable(s) => self.on_miserable_condition(s),
            Event::Tick(t) => self.on_tick(t),
        }
    }

    /// Takes a run of events, the first event first. Whatever the events are and in
    /// whatever order they come, there is a next machine.
    pub fn apply_all(self, events: Vec<Event>) -> (next: WorkerSet)
        ensures
            next@ == run(self@, happenings(events@)),
    {
        let mut machine = self;
        let mut rest = events;
        while rest.len() > 0
            invariant
                run(self@, happenings(events@)) == run(machine@, happenings(rest@)),
            decreases rest@.len(),
        {
            let ghost before = rest@;
            let event = rest.remove(0);
            proof {
                assert(happenings(before).skip(1) =~= happenings(rest@));
            }
            machine = machine.apply(event);
        }
        machine
    }

    /// The configuration that the machine was made with.
    pub fn config(&self) -> (config: &WorkerConfig)
        ensures
            *config == self@.config,
    {
        match self {
            WorkerSet::Startup(startup) => &startup.state.config,
            WorkerSet::Underprovisioned(underprovisioned) => &underprovisioned.state.config,
            WorkerSet::Running(running) => &running.state.config,
            WorkerSet::Faulted(faulted) => &faulted.state.config,
        }
    }

    /// The workers on record.
    pub fn workers(&self) -> (workers: &Workers)
        ensures
            workers@ == self@.workers,
    {
        match self {
            WorkerSet::Startup(startup) => &startup.state.workers,
            WorkerSet::Underprovisioned(underprovisioned) => &underprovisioned.state.workers,
            WorkerSet::Running(running) => &running.state.workers,
            WorkerSet::Faulted(faulted) => &faulted.state.workers,
        }
    }

    /// The tasks that wind the fleet down: one to stop each process that a worker runs as.
    pub fn kill_all_workers(&self) -> (todos: Vec<Todo>)
        ensures
            forall|i: int| 0 <= i < todos@.len() ==> todos@[i] is KillProcess,
            targets(todos@).no_duplicates(),
            targets(todos@).to_set() == by_pid(self@.workers).dom(),
    {
        let pids = self.workers().pids();
        let mut todos: Vec<Todo> = Vec::new();
        let mut at: usize = 0;
        while at < pids.len()
            invariant
                at <= pids@.len(),
                todos@.len() == at,
                forall|i: int| 0 <= i < at ==> todos@[i] == Todo::KillProcess(pids@[i]),
            decreases pids@.len() - at,
        {
            todos.push(Todo::KillProcess(pids[at]));
            at += 1;
        }
        assert(targets(todos@) =~= pids@);
        todos
    }

    /// The fleet is to be wound down: every process that a worker runs as is to be
    /// stopped. The machine itself stays as it is.
    pub fn on_terminate(&self, _t: Terminate) -> (todos: Vec<Todo>)
        ensures
            forall|i: int| 0 <= i < todos@.len() ==> todos@[i] is KillProcess,
            targets(todos@).no_duplicates(),
            targets(todos@).to_set() == by_pid(self@.workers).dom(),
    {
        self.kill_all_workers()
    }

    /// The machine in one line, for the log.
    pub fn describe(&self) -> (text: String)
        ensures
            text@ == description(self@),
    {
        let workers = self.workers();
        let name = match self.phase() {
            Phase::Startup => "Startup",
            Phase::Running => "Running",
            Phase::Underprovisioned => "Underprovisioned",
            Phase::Faulted => "Faulted",
        };
        let mut text = String::from_str("WorkerSet::");
        text.append(name);
        text.append("(acked:");
        text.append(decimal_string(workers.count(Stage::Acked) as u64).as_str());
        text.append(", launched:");
        text.append(decimal_string(workers.count(Stage::Launched) as u64).as_str());
        text.append(", requested:");
        text.append(decimal_string(workers.count(Stage::Requested) as u64).as_str());
        text.append(")/");
        text.append(decimal_string(self.config().count as u64).as_str());
        text
    }

    /// The phase that the fleet is in.
    pub fn phase(&self) -> (phase: Phase)
        ensures
            phase == self@.phase,
    {
        match self {
            WorkerSet::Startup(_) => Phase::Startup,
            WorkerSet::Underprovisioned(_) => Phase::Underprovisioned,
            WorkerSet::Running(_) => Phase::Running,
            WorkerSet::Faulted(_) => Phase::Faulted,
        }
    }

    /// States what holds of every machine. Running it does nothing.
    pub fn attest(&self)
        ensures
            sound(self@),
    {
        match self {
            WorkerSet::Startup(startup) => startup.state.workers.attest(),
            WorkerSet::Underprovisioned(underprovisioned) => {
                underprovisioned.state.workers.attest()
            },
            WorkerSet::Running(running) => {
                proof {
                    use_type_invariant(running);
                }
                running.state.workers.attest()
            },
            WorkerSet::Faulted(faulted) => faulted.state.workers.attest(),
        }
    }
}

impl Clone for WorkerSet {
    /// A copy in the same phase, with the same workers on record and the same
    /// configuration.
    fn clone(&self) -> (copy: WorkerSet)
        ensures
            copy@.phase == self@.phase,
            copy@.workers == self@.workers,
            copy@.config.count == self@.config.count,
            copy@.config.kind@ == self@.config.kind@,
            copy@.config.ack_timeout == self@.config.ack_timeout,
    {
        match self {
            WorkerSet::Startup(startup) => WorkerSet::Startup(
                Startup { state: startup.state.duplicate() },
            ),
            WorkerSet::Underprovisioned(underprovisioned) => WorkerSet::Underprovisioned(
                Underprovisioned { state: underprovisioned.state.duplicate() },
            ),
            WorkerSet::Running(running) => {
                proof {
                    use_type_invariant(running);
                }
                WorkerSet::Running(Running { state: running.state.duplicate() })
            },
            WorkerSet::Faulted(faulted) => WorkerSet::Faulted(
                Faulted { state: faulted.state.duplicate() },
            ),
        }
    }
}

} // verus!
