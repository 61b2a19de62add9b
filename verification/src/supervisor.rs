//! The supervisor's loop as a machine of its own: it says what to wait for, and takes what
//! came back.
//!
//! One round of the loop: while the fleet is faulted, reap and nothing else. Otherwise start
//! a worker if the fleet asks for one, and then wait for whichever comes first of a reaped
//! process, a message of the controller and a reading of the clock.

use vstd::prelude::*;

use crate::pid::wire_pid;
use crate::pid::Pid;
use crate::process_control::Message;
use crate::time::Timestamp;
use crate::configuration::WorkerConfig;
use crate::laws::law_overdue_worker_faults;
use crate::laws::law_run_sound;
use crate::laws::law_step_sound;
use crate::laws::law_tick_falls_due;
use crate::time::Span;
use crate::workers::ids_at;
use crate::workers::lemma_ack_well_indexed;
use crate::workers::lemma_launch_well_indexed;
use crate::workers::Stage;
use crate::worker_set::action_required;
use crate::worker_set::initial;
use crate::worker_set::run;
use crate::worker_set::sound;
use crate::worker_set::step;
use crate::worker_set::Fleet;
use crate::worker_set::Happening;
use crate::worker_set::MiserableCondition;
use crate::worker_set::Phase;
use crate::worker_set::Tick;
use crate::worker_set::Todo;
use crate::worker_set::WorkerAcked;
use crate::worker_set::WorkerDeath;
use crate::worker_set::WorkerLaunchFailure;
use crate::worker_set::WorkerLaunched;
use crate::worker_set::WorkerRequested;
use crate::worker_set::WorkerSet;

verus! {

/// What the loop has to do before it comes back.
#[derive(Clone, Copy, Debug, PartialEq, Eq)]
pub enum Action {
    /// Wait for the next reaped process, and for nothing else. `announce` is set the first
    /// time: that is when to say that the fleet is faulted.
    ReapOnly { announce: bool },
    /// Ask the controller for a worker.
    Spawn,
    /// Wait for whichever comes first: a reaped process, a message of the controller, or a
    /// reading of the clock.
    Select,
}

/// Why the controller gave no message.
#[derive(Clone, Copy, Debug, PartialEq, Eq)]
pub enum ControlFailure {
    /// The preloader closed the control channel: it is gone.
    PreloaderDied,
    /// Anything else; the loop goes on.
    Other,
}

/// What came back from what the loop did.
#[derive(Clone, Debug, PartialEq)]
pub enum Outcome {
    /// The reaper gave a pid.
    Reaped(Pid),
    /// The reaper failed.
    ReapFailed,
    /// The controller took the request and gave the worker this id.
    Spawned(String),
    /// The controller could not start a worker.
    SpawnFailed,
    /// The controller gave a message.
    Controller(Message),
    /// The controller failed to give one.
    ControllerFailed(ControlFailure),
    /// The ticker gave a reading of the clock.
    Ticked(Timestamp),
    /// The ticker has come to its end.
    TickerEnded,
}

/// The loop as a value.
pub struct Loop {
    /// The worker set.
    pub fleet: Fleet,
    /// Whether this round is past the point where a worker is started.
    pub decided: bool,
    /// Whether the loop has said that the fleet is faulted.
    pub warned: bool,
}

/// What the loop has to do next.
pub open spec fn action_due(l: Loop) -> Action {
    if l.decided {
        Action::Select
    } else if l.fleet.phase == Phase::Faulted {
        Action::ReapOnly { announce: !l.warned }
    } else if action_required(l.fleet) == Some(Todo::LaunchProcess) {
        Action::Spawn
    } else {
        Action::Select
    }
}

/// Whether `outcome` can come back from `action`.
pub open spec fn answers(outcome: Outcome, action: Action) -> bool {
    match action {
        Action::ReapOnly { .. } => outcome is Reaped || outcome is ReapFailed,
        Action::Spawn => outcome is Spawned || outcome is SpawnFailed,
        Action::Select => !(outcome is Spawned || outcome is SpawnFailed),
    }
}

/// The event that an outcome is for the worker set, if it is one. `now` is the time that
/// goes on record with it.
pub open spec fn happening(outcome: Outcome, now: Timestamp) -> Option<Happening> {
    match outcome {
        Outcome::Reaped(pid) => Some(Happening::Death { pid }),
        Outcome::ReapFailed => None,
        Outcome::Spawned(id) => Some(Happening::Requested { id: id@, at: now }),
        Outcome::SpawnFailed => Some(Happening::LaunchFailure { worker: None }),
        Outcome::Controller(Message::Launched { id, pid }) => Some(
            Happening::Launched { id: id@, pid: Pid { raw: wire_pid(pid) as i32 }, at: now },
        ),
        Outcome::Controller(Message::Ack { id }) => Some(Happening::Acked { id: id@, at: now }),
        Outcome::Controller(Message::LaunchError { id, .. }) => Some(
            Happening::LaunchFailure { worker: Some(id@) },
        ),
        Outcome::ControllerFailed(ControlFailure::PreloaderDied) => Some(
            Happening::Miserable { condition: MiserableCondition::PreloaderDied },
        ),
        Outcome::ControllerFailed(ControlFailure::Other) => None,
        Outcome::Ticked(now) => Some(Happening::Tick { now }),
        Outcome::TickerEnded => None,
    }
}

/// The worker set after `outcome`.
pub open spec fn absorbed(fleet: Fleet, outcome: Outcome, now: Timestamp) -> Fleet {
    match happening(outcome, now) {
        Some(event) => step(fleet, event),
        None => fleet,
    }
}

/// The loop after `outcome` came back at `now`. An outcome that cannot come back from what
/// the loop was told to do changes nothing. While only reaping, the worker set stays as it
/// is. Otherwise the outcome reaches the worker set as the event it stands for; after the
/// request for a worker the loop waits for events, and after an event the round is over.
pub open spec fn react(l: Loop, outcome: Outcome, now: Timestamp) -> Loop {
    if !answers(outcome, action_due(l)) {
        l
    } else {
        match action_due(l) {
            Action::ReapOnly { .. } => Loop { warned: true, ..l },
            Action::Spawn => Loop { fleet: absorbed(l.fleet, outcome, now), decided: true, ..l },
            Action::Select => Loop { fleet: absorbed(l.fleet, outcome, now), decided: false, ..l },
        }
    }
}

/// The events that reach the worker set with `outcome`: the one that it stands for, and
/// none where it stands for none, is not waited for, or comes while the loop only reaps.
pub open spec fn taken(l: Loop, outcome: Outcome, now: Timestamp) -> Seq<Happening> {
    if answers(outcome, action_due(l)) && !(action_due(l) is ReapOnly) {
        match happening(outcome, now) {
            Some(event) => seq![event],
            None => Seq::empty(),
        }
    } else {
        Seq::empty()
    }
}

/// The loop after a run of outcomes, each with the time at which it came back, the first
/// one first.
pub open spec fn drive(l: Loop, outcomes: Seq<(Outcome, Timestamp)>) -> Loop
    decreases outcomes.len(),
{
    if outcomes.len() == 0 {
        l
    } else {
        drive(react(l, outcomes.first().0, outcomes.first().1), outcomes.skip(1))
    }
}

/// The events that reach the worker set over a run of outcomes, in their order.
pub open spec fn trace(l: Loop, outcomes: Seq<(Outcome, Timestamp)>) -> Seq<Happening>
    decreases outcomes.len(),
{
    if outcomes.len() == 0 {
        Seq::empty()
    } else {
        taken(l, outcomes.first().0, outcomes.first().1) + trace(
            react(l, outcomes.first().0, outcomes.first().1),
            outcomes.skip(1),
        )
    }
}

/// The supervisor's loop: the worker set, and where in a round the loop stands.
#[derive(Debug, PartialEq)]
pub struct Supervisor {
    machine: WorkerSet,
    decided: bool,
    warned: bool,
}

impl View for Supervisor {
    type V = Loop;

    closed spec fn view(&self) -> Loop {
        Loop { fleet: self.machine@, decided: self.decided, warned: self.warned }
    }
}

/// Hands an event of the reaper, the controller or the ticker to the worker set.
fn absorb(machine: WorkerSet, outcome: Outcome, now: Timestamp) -> (next: WorkerSet)
    ensures
        next@ == absorbed(machine@, outcome, now),
{
    match outcome {
        Outcome::Reaped(pid) => machine.on_worker_death(WorkerDeath::new(pid)),
        Outcome::ReapFailed => machine,
        Outcome::Spawned(id) => machine.on_worker_requested(WorkerRequested::new(id), now),
        Outcome::SpawnFailed => machine.on_worker_launch_failure(WorkerLaunchFailure::new(None)),
        Outcome::Controller(Message::Launched { id, pid }) => machine.on_worker_launched(
            WorkerLaunched::new(id, Pid::from_wire(pid)),
            now,
        ),
        Outcome::Controller(Message::Ack { id }) => machine.on_worker_acked(
            WorkerAcked::new(id),
            now,
        ),
        Outcome::Controller(Message::LaunchError { id, pid: _, error: _ }) => {
            machine.on_worker_launch_failure(WorkerLaunchFailure::new(Some(id)))
        },
        Outcome::ControllerFailed(ControlFailure::PreloaderDied) => machine.on_miserable_condition(
            MiserableCondition::PreloaderDied,
        ),
        Outcome::ControllerFailed(ControlFailure::Other) => machine,
        Outcome::Ticked(tick) => machine.on_tick(Tick::new(tick)),
        Outcome::TickerEnded => machine,
    }
}

impl Supervisor {
    /// The loop before its first round.
    pub fn new(machine: WorkerSet) -> (supervisor: Supervisor)
        ensures
            supervisor@ == (Loop { fleet: machine@, decided: false, warned: false }),
    {
        Supervisor { machine, decided: false, warned: false }
    }

    /// The worker set, for the health probe to read.
    pub fn machine(&self) -> (machine: &WorkerSet)
        ensures
            machine@ == self@.fleet,
    {
        &self.machine
    }

    /// What the loop has to do next.
    pub fn next_action(&self) -> (action: Action)
        ensures
            action == action_due(self@),
    {
        if self.decided {
            Action::Select
        } else if !self.machine.working() {
            Action::ReapOnly { announce: !self.warned }
        } else {
            match self.machine.required_action() {
                Some(Todo::LaunchProcess) => Action::Spawn,
                Some(Todo::KillProcess(_)) => Action::Select,
                None => Action::Select,
            }
        }
    }

    /// Whether `outcome` is one that the loop waits for.
    pub fn expects(&self, outcome: &Outcome) -> (expected: bool)
        ensures
            expected == answers(*outcome, action_due(self@)),
    {
        let spawn_result = match outcome {
            Outcome::Spawned(_) => true,
            Outcome::SpawnFailed => true,
            _ => false,
        };
        let reap_result = match outcome {
            Outcome::Reaped(_) => true,
            Outcome::ReapFailed => true,
            _ => false,
        };
        match self.next_action() {
            Action::ReapOnly { announce: _ } => reap_result,
            Action::Spawn => spawn_result,
            Action::Select => !spawn_result,
        }
    }

    /// Takes what came back at `now` from what the loop was told to do.
    pub fn handle(self, outcome: Outcome, now: Timestamp) -> (next: Supervisor)
        ensures
            next@ == react(self@, outcome, now),
    {
        if !self.expects(&outcome) {
            return self;
        }
        match self.next_action() {
            Action::ReapOnly { announce: _ } => Supervisor {
                machine: self.machine,
                decided: self.decided,
                warned: true,
            },
            Action::Spawn => Supervisor {
                machine: absorb(self.machine, outcome, now),
                decided: true,
                warned: self.warned,
            },
            Action::Select => Supervisor {
                machine: absorb(self.machine, outcome, now),
                decided: false,
                warned: self.warned,
            },
        }
    }
}

/// Spawn and request: while the loop waits for the controller's answer to a request for a
/// worker, an id that comes back reaches the worker set as exactly one request event for
/// that id. Nothing else that the controller says is taken before that: it leaves the loop
/// as it is. After the answer the loop waits for events.
pub proof fn law_spawn_then_request(l: Loop, id: String, other: Outcome, now: Timestamp)
    requires
        action_due(l) == Action::Spawn,
        other is Controller || other is ControllerFailed,
    ensures
        taken(l, Outcome::Spawned(id), now) == seq![Happening::Requested { id: id@, at: now }],
        react(l, Outcome::Spawned(id), now).fleet == step(
            l.fleet,
            Happening::Requested { id: id@, at: now },
        ),
        action_due(react(l, Outcome::Spawned(id), now)) == Action::Select,
        taken(l, other, now) == Seq::<Happening>::empty(),
        react(l, other, now) == l,
{
}

/// Reap-only mode: once the fleet is faulted and the round is over, whatever comes back
/// leaves the worker set as it is, and the loop goes on reaping.
pub proof fn law_faulted_reaps_only(l: Loop, outcome: Outcome, now: Timestamp)
    requires
        l.fleet.phase == Phase::Faulted,
        !l.decided,
    ensures
        action_due(l) is ReapOnly,
        react(l, outcome, now).fleet == l.fleet,
        action_due(react(l, outcome, now)) is ReapOnly,
{
}

/// The loop runs the machine: over any run of outcomes, the loop's worker set is the one
/// it started with after the events that reached it, in their order, and nothing else.
pub proof fn law_loop_runs_machine(l: Loop, outcomes: Seq<(Outcome, Timestamp)>)
    ensures
        drive(l, outcomes).fleet == run(l.fleet, trace(l, outcomes)),
    decreases outcomes.len(),
{
    if outcomes.len() > 0 {
        let first = outcomes.first();
        let next = react(l, first.0, first.1);
        let now_taken = taken(l, first.0, first.1);
        let later = trace(next, outcomes.skip(1));
        law_loop_runs_machine(next, outcomes.skip(1));
        if now_taken.len() == 0 {
            assert(now_taken + later =~= later);
        } else {
            assert((now_taken + later).first() == now_taken[0]);
            assert((now_taken + later).skip(1) =~= later);
        }
    }
}

/// The loop keeps the machine sound: whatever comes back, in whatever order, a worker set
/// that is sound stays so, and while it is running at least as many workers as wanted are
/// ready.
pub proof fn law_loop_keeps_sound(l: Loop, outcomes: Seq<(Outcome, Timestamp)>)
    requires
        sound(l.fleet),
    ensures
        sound(drive(l, outcomes).fleet),
        drive(l, outcomes).fleet.config == l.fleet.config,
{
    law_loop_runs_machine(l, outcomes);
    law_run_sound(l.fleet, trace(l, outcomes));
}

/// What the loop keeps of the fleet besides its soundness: no more workers are on record
/// than are wanted, and none was told to stop.
pub open spec fn within_budget(fleet: Fleet) -> bool {
    &&& sound(fleet)
    &&& fleet.workers.dom().len() <= fleet.config.count
    &&& forall|id: Seq<char>| #[trigger]
        fleet.workers.contains_key(id) ==> fleet.workers[id].killed is None
}

/// A loop starts within its budget: the fleet it starts with has no worker on record.
pub proof fn law_new_loop_within_budget(config: WorkerConfig)
    ensures
        within_budget(initial(config)),
{
}

/// The loop keeps the fleet within its budget: it asks for a worker only while fewer are
/// on record than are wanted, and nothing else puts a worker on record.
pub proof fn law_loop_keeps_budget(l: Loop, outcome: Outcome, now: Timestamp)
    requires
        within_budget(l.fleet),
    ensures
        within_budget(react(l, outcome, now).fleet),
{
    let fleet = l.fleet;
    let next = react(l, outcome, now).fleet;
    if next != fleet {
        let event = happening(outcome, now)->0;
        law_step_sound(fleet, event);
        match event {
            Happening::Requested { id, at } => {
                assert(ids_at(fleet.workers, Stage::Live) =~= fleet.workers.dom());
            },
            Happening::Launched { id, pid, at } => {
                lemma_launch_well_indexed(fleet.workers, id, pid, at);
            },
            Happening::Acked { id, at } => {
                lemma_ack_well_indexed(fleet.workers, id, at);
            },
            _ => {},
        }
    }
}

/// Over any run of outcomes the fleet stays within its budget.
pub proof fn law_drive_keeps_budget(l: Loop, outcomes: Seq<(Outcome, Timestamp)>)
    requires
        within_budget(l.fleet),
    ensures
        within_budget(drive(l, outcomes).fleet),
    decreases outcomes.len(),
{
    if outcomes.len() > 0 {
        law_loop_keeps_budget(l, outcomes.first().0, outcomes.first().1);
        law_drive_keeps_budget(
            react(l, outcomes.first().0, outcomes.first().1),
            outcomes.skip(1),
        );
    }
}

/// A running fleet under the loop waits for no worker: every worker on record is ready.
pub proof fn law_running_all_ready(fleet: Fleet)
    requires
        within_budget(fleet),
        fleet.phase == Phase::Running,
    ensures
        forall|id: Seq<char>| #[trigger]
            fleet.workers.contains_key(id) ==> fleet.workers[id].acked is Some,
{
    let ready = ids_at(fleet.workers, Stage::Acked);
    let all = fleet.workers.dom();
    vstd::set_lib::lemma_len_subset(ready, all);
    vstd::set_lib::lemma_subset_equality(ready, all);
    assert forall|id: Seq<char>| #[trigger] fleet.workers.contains_key(id) implies fleet.workers[id].acked is Some by {
        assert(ready.contains(id));
    }
}

/// Timeout bound: the loop reads the clock every `period`, beginning no later than the
/// deadline of a worker that was launched at `launched` and is not ready. While the loop
/// waits for events and the worker stays as it is, one of the readings comes after the
/// deadline and no more than a period after it: the one that the law gives, with its
/// number. That reading reaches the worker set as one tick, the fleet is faulted with it,
/// and from then on the loop only reaps. So a worker that never gets ready faults the
/// fleet no later than the timeout and one period after its launch.
pub proof fn law_timeout_bound(
    l: Loop,
    id: Seq<char>,
    limit: Span,
    period: Span,
    first_tick: Timestamp,
    handled: Timestamp,
) -> (due: (Timestamp, nat))
    requires
        within_budget(l.fleet),
        l.fleet.phase != Phase::Faulted,
        action_due(l) == Action::Select,
        l.fleet.config.ack_timeout == Some(limit),
        l.fleet.workers.contains_key(id),
        l.fleet.workers[id].launched is Some,
        l.fleet.workers[id].acked is None,
        period@ > 0,
        first_tick@ <= l.fleet.workers[id].launched->0@ + limit@,
        l.fleet.workers[id].launched->0@ + limit@ + period@ <= u128::MAX,
    ensures
        due.0@ == first_tick@ + due.1 * period@,
        l.fleet.workers[id].launched->0@ + limit@ < due.0@ <= l.fleet.workers[id].launched->0@
            + limit@ + period@,
        taken(l, Outcome::Ticked(due.0), handled) == seq![Happening::Tick { now: due.0 }],
        react(l, Outcome::Ticked(due.0), handled).fleet.phase == Phase::Faulted,
        action_due(react(l, Outcome::Ticked(due.0), handled)) is ReapOnly,
{
    let launched = l.fleet.workers[id].launched->0;
    let n = law_tick_falls_due(first_tick@, period@, launched@, limit@);
    let due = Timestamp { nanos: (first_tick@ + n * period@) as u128 };
    if l.fleet.phase == Phase::Running {
        law_running_all_ready(l.fleet);
    }
    law_overdue_worker_faults(l.fleet, id, limit, due);
    (due, n)
}

/// While the loop waits for the answer to a request for a worker, a worker that is
/// launched and not ready stays so: a failed request faults the fleet at once, and the id
/// of another worker leaves the record as it is and has the loop wait for events, where
/// the timeout bound holds.
pub proof fn law_spawn_keeps_deadline(l: Loop, id: Seq<char>, other: String, now: Timestamp)
    requires
        within_budget(l.fleet),
        action_due(l) == Action::Spawn,
        l.fleet.workers.contains_key(id),
        other@ != id,
    ensures
        react(l, Outcome::SpawnFailed, now).fleet.phase == Phase::Faulted,
        react(l, Outcome::Spawned(other), now).fleet.phase == l.fleet.phase,
        react(l, Outcome::Spawned(other), now).fleet.workers.contains_key(id),
        react(l, Outcome::Spawned(other), now).fleet.workers[id] == l.fleet.workers[id],
        react(l, Outcome::Spawned(other), now).fleet.config == l.fleet.config,
        action_due(react(l, Outcome::Spawned(other), now)) == Action::Select,
        within_budget(react(l, Outcome::Spawned(other), now).fleet),
{
    law_loop_keeps_budget(l, Outcome::Spawned(other), now);
}

} // verus!
