//! What holds of the worker-set machine on every input.

use vstd::prelude::*;

use crate::configuration::WorkerConfig;
use crate::pid::Pid;
use crate::time::Span;
use crate::time::Timestamp;
use crate::worker_set::initial;
use crate::worker_set::run;
use crate::worker_set::sound;
use crate::worker_set::step;
use crate::worker_set::Fleet;
use crate::worker_set::Happening;
use crate::worker_set::Phase;
use crate::workers::ack;
use crate::workers::acked_count;
use crate::workers::by_pid;
use crate::workers::chronological;
use crate::workers::in_order;
use crate::workers::is_overdue;
use crate::workers::lemma_ack_keeps_acked;
use crate::workers::lemma_ack_well_indexed;
use crate::workers::lemma_launch_well_indexed;
use crate::workers::lemma_reap_well_indexed;
use crate::workers::lemma_register_well_indexed;
use crate::workers::no_later_than;

verus! {

/// The machine that a supervisor starts with is sound.
pub proof fn law_initial_sound(config: WorkerConfig)
    ensures
        sound(initial(config)),
{
}

/// Counting invariant, one step: whatever happens to a sound machine, the next machine is
/// sound; so a machine that is running after the event has at least as many ready workers
/// as are wanted.
pub proof fn law_step_sound(fleet: Fleet, event: Happening)
    requires
        sound(fleet),
    ensures
        sound(step(fleet, event)),
        step(fleet, event).phase == Phase::Running ==> acked_count(step(fleet, event).workers)
            >= fleet.config.count,
        step(fleet, event).config == fleet.config,
{
    match event {
        Happening::Requested { id, at } => {
            lemma_register_well_indexed(fleet.workers, id, at);
        },
        Happening::Launched { id, pid, at } => {
            lemma_launch_well_indexed(fleet.workers, id, pid, at);
        },
        Happening::Acked { id, at } => {
            lemma_ack_well_indexed(fleet.workers, id, at);
            lemma_ack_keeps_acked(fleet.workers, id, at);
        },
        Happening::Death { pid } => {
            lemma_reap_well_indexed(fleet.workers, pid);
        },
        Happening::LaunchFailure { .. } => {},
        Happening::Miserable { .. } => {},
        Happening::Tick { .. } => {},
    }
}

/// Counting invariant, every run: whatever events reach a sound machine, in whatever
/// order, it is sound after them; while it is running, at least as many workers as are
/// wanted are ready.
pub proof fn law_run_sound(fleet: Fleet, events: Seq<Happening>)
    requires
        sound(fleet),
    ensures
        sound(run(fleet, events)),
        run(fleet, events).config == fleet.config,
        run(fleet, events).phase == Phase::Running ==> acked_count(run(fleet, events).workers)
            >= fleet.config.count,
    decreases events.len(),
{
    if events.len() > 0 {
        law_step_sound(fleet, events.first());
        law_run_sound(step(fleet, events.first()), events.skip(1));
    }
}

/// Counting invariant, from the start: whatever events reach a machine from its start, in
/// whatever order, while it is running at least as many workers as are wanted are ready.
pub proof fn law_counting(config: WorkerConfig, events: Seq<Happening>)
    ensures
        sound(run(initial(config), events)),
        run(initial(config), events).phase == Phase::Running ==> acked_count(
            run(initial(config), events).workers,
        ) >= config.count,
{
    law_initial_sound(config);
    law_run_sound(initial(config), events);
}

/// Promotion is kept: a running machine leaves that phase in two ways only. It is
/// underprovisioned after the death of one of its workers, and faulted after a miserable
/// condition or a failed launch. After every other event it is running.
pub proof fn law_running_exits(fleet: Fleet, event: Happening)
    requires
        fleet.phase == Phase::Running,
    ensures
        step(fleet, event).phase == match event {
            Happening::Death { pid } => if by_pid(fleet.workers).contains_key(pid) {
                Phase::Underprovisioned
            } else {
                Phase::Running
            },
            Happening::Miserable { .. } => Phase::Faulted,
            Happening::LaunchFailure { .. } => Phase::Faulted,
            _ => Phase::Running,
        },
{
}

/// Reap isolation: the death of a process that is no worker of the fleet changes nothing.
pub proof fn law_foreign_death_ignored(fleet: Fleet, pid: Pid)
    requires
        !by_pid(fleet.workers).contains_key(pid),
    ensures
        step(fleet, Happening::Death { pid }) == fleet,
{
}

/// Idempotent re-ack: a readiness report that follows one by the same worker changes
/// nothing, whenever it comes: the machine is as the first report left it, and the worker
/// keeps the time of the first.
pub proof fn law_repeated_ack(fleet: Fleet, id: Seq<char>, first: Timestamp, second: Timestamp)
    ensures
        step(step(fleet, Happening::Acked { id, at: first }), Happening::Acked { id, at: second })
            == step(fleet, Happening::Acked { id, at: first }),
{
    let once = ack(fleet.workers, id, first);
    assert(ack(once, id, second) =~= once);
}

/// Set once: the time at which a worker said that it is ready never changes while the
/// worker is on record. Only a new request for its id, which files a fresh record, or its
/// death takes it off.
pub proof fn law_ack_time_stays(fleet: Fleet, event: Happening, id: Seq<char>)
    requires
        fleet.workers.contains_key(id),
        fleet.workers[id].acked is Some,
        !(event matches Happening::Requested { id: again, .. } && again == id),
        step(fleet, event).workers.contains_key(id),
    ensures
        step(fleet, event).workers[id].acked == fleet.workers[id].acked,
{
}

/// Faulted is final: no event changes a faulted machine.
pub proof fn law_faulted_stays(fleet: Fleet, event: Happening)
    requires
        fleet.phase == Phase::Faulted,
    ensures
        step(fleet, event) == fleet,
{
}

/// Faulted is final: no run of events changes a faulted machine.
pub proof fn law_faulted_forever(fleet: Fleet, events: Seq<Happening>)
    requires
        fleet.phase == Phase::Faulted,
    ensures
        run(fleet, events) == fleet,
    decreases events.len(),
{
    if events.len() > 0 {
        law_faulted_forever(fleet, events.skip(1));
    }
}

/// Timeout: while the fleet is starting up or underprovisioned, a reading of the clock
/// that finds a worker launched longer ago than the configured timeout, and not ready,
/// faults the machine.
pub proof fn law_overdue_worker_faults(fleet: Fleet, id: Seq<char>, limit: Span, now: Timestamp)
    requires
        fleet.phase == Phase::Startup || fleet.phase == Phase::Underprovisioned,
        fleet.config.ack_timeout == Some(limit),
        is_overdue(fleet.workers, id, now, limit),
    ensures
        step(fleet, Happening::Tick { now }).phase == Phase::Faulted,
{
}

/// Timeout bound: where the clock is read every `period`, starting no later than a
/// worker's deadline, one of the readings falls after the deadline and no more than a
/// period after it. With `law_overdue_worker_faults`: a worker that is launched at
/// `launched` and never ready faults a fleet that is starting up or underprovisioned no
/// later than the timeout and one period after `launched`.
pub proof fn law_tick_falls_due(first_tick: int, period: int, launched: int, limit: int) -> (n: nat)
    requires
        period > 0,
        first_tick <= launched + limit,
    ensures
        launched + limit < first_tick + n * period <= launched + limit + period,
{
    let wait = launched + limit - first_tick;
    let n = (wait / period + 1) as nat;
    assert(wait - period < (wait / period) * period <= wait) by (nonlinear_arith)
        requires
            period > 0,
            wait >= 0,
    ;
    assert(n * period == (wait / period) * period + period) by (nonlinear_arith)
        requires
            n == wait / period + 1,
    ;
    n
}

/// Whether the event comes in the order in which a controller reports on one worker: the
/// launch before the worker is ready, and nothing of a worker that is ready but its being
/// ready.
pub open spec fn in_sequence(fleet: Fleet, event: Happening) -> bool {
    match event {
        Happening::Launched { id, .. } => fleet.workers.contains_key(id)
            ==> fleet.workers[id].acked is None,
        Happening::Acked { id, .. } => fleet.workers.contains_key(id)
            ==> fleet.workers[id].launched is Some,
        _ => true,
    }
}

/// The time that goes on record with an event, where one does.
pub open spec fn time_of(event: Happening) -> Option<Timestamp> {
    match event {
        Happening::Requested { at, .. } => Some(at),
        Happening::Launched { at, .. } => Some(at),
        Happening::Acked { at, .. } => Some(at),
        _ => None,
    }
}

/// Times in order: where the clock does not run backwards and the reports on each worker
/// come in sequence, every record keeps its times in order, the request before the launch
/// and the launch before the worker is ready.
pub proof fn law_times_in_order(fleet: Fleet, event: Happening, before: Timestamp, now: Timestamp)
    requires
        chronological(fleet.workers, before),
        before@ <= now@,
        time_of(event) matches Some(at) ==> at == now,
        in_sequence(fleet, event),
    ensures
        chronological(step(fleet, event).workers, now),
{
    let after = step(fleet, event).workers;
    assert forall|id: Seq<char>| #[trigger] after.contains_key(id) implies in_order(after[id])
        && no_later_than(after[id], now) by {
        if fleet.workers.contains_key(id) {
            assert(no_later_than(fleet.workers[id], before));
        }
        match event {
            Happening::Death { pid } => {
                if by_pid(fleet.workers).contains_key(pid) {
                    assert(fleet.workers.contains_key(id));
                }
            },
            _ => {},
        }
    }
}

} // verus!
