//! The index of the workers in a fleet: what is known of each, by id and by pid.

use vstd::prelude::*;
use vstd::set_lib::*;

use crate::pid::Pid;
use crate::time::Span;
use crate::time::Timestamp;

verus! {

/// What the index records of one worker. Its id is the key it is filed under.
#[derive(Clone, Copy, Debug, PartialEq, Eq)]
pub struct Lifecycle {
    /// The process, once a launch was reported.
    pub pid: Option<Pid>,
    /// When the supervisor asked for the worker.
    pub requested: Option<Timestamp>,
    /// When the launch was reported.
    pub launched: Option<Timestamp>,
    /// When the worker first said that it was ready.
    pub acked: Option<Timestamp>,
    /// When the worker was told to stop.
    pub killed: Option<Timestamp>,
}

/// The primary mapping: worker id to what is recorded of that worker.
pub type ById = Map<Seq<char>, Lifecycle>;

/// The record of a worker that was asked for at `now` and of which nothing else is known.
pub open spec fn requested_at(now: Timestamp) -> Lifecycle {
    Lifecycle { pid: None, requested: Some(now), launched: None, acked: None, killed: None }
}

/// Whether `id` is a worker on record that runs as `pid`.
pub open spec fn runs_as(by_id: ById, id: Seq<char>, pid: Pid) -> bool {
    by_id.contains_key(id) && by_id[id].pid == Some(pid)
}

/// The secondary mapping: pid to the id of the worker that runs under it.
pub open spec fn by_pid(by_id: ById) -> Map<Pid, Seq<char>> {
    Map::new(
        |pid: Pid| exists|id: Seq<char>| runs_as(by_id, id, pid),
        |pid: Pid| choose|id: Seq<char>| runs_as(by_id, id, pid),
    )
}

/// The two mappings agree: no pid is recorded for two workers.
pub open spec fn pids_distinct(by_id: ById) -> bool {
    forall|a: Seq<char>, b: Seq<char>, pid: Pid|
        #![trigger runs_as(by_id, a, pid), runs_as(by_id, b, pid)]
        runs_as(by_id, a, pid) && runs_as(by_id, b, pid) ==> a == b
}

/// What holds of every index: finitely many workers, and the two mappings in step.
pub open spec fn well_indexed(by_id: ById) -> bool {
    by_id.dom().finite() && pids_distinct(by_id)
}

/// The index after a request for `id` at `now`: a fresh record, in place of any earlier one.
pub open spec fn register(by_id: ById, id: Seq<char>, now: Timestamp) -> ById {
    by_id.insert(id, requested_at(now))
}

/// The index after the launch of `id` as `pid` was reported at `now`. An id that is not on
/// record changes nothing. Otherwise the worker gets the pid and the launch time, and a
/// worker that was filed under the same pid before loses it.
pub open spec fn launch(by_id: ById, id: Seq<char>, pid: Pid, now: Timestamp) -> ById {
    if by_id.contains_key(id) {
        Map::new(
            |k: Seq<char>| by_id.contains_key(k),
            |k: Seq<char>|
                if k == id {
                    Lifecycle { pid: Some(pid), launched: Some(now), ..by_id[k] }
                } else if by_id[k].pid == Some(pid) {
                    Lifecycle { pid: None, ..by_id[k] }
                } else {
                    by_id[k]
                },
        )
    } else {
        by_id
    }
}

/// The index after `id` said at `now` that it is ready. The time goes on record the first
/// time that a worker says so, and stays: a worker that is on record as ready changes
/// nothing, and neither does an id that is not on record.
pub open spec fn ack(by_id: ById, id: Seq<char>, now: Timestamp) -> ById {
    if by_id.contains_key(id) && by_id[id].acked is None {
        by_id.insert(id, Lifecycle { acked: Some(now), ..by_id[id] })
    } else {
        by_id
    }
}

/// The index after the process `pid` was reaped: without the worker that ran under it, and
/// unchanged where no worker did.
pub open spec fn reap(by_id: ById, pid: Pid) -> ById {
    if by_pid(by_id).contains_key(pid) {
        by_id.remove(by_pid(by_id)[pid])
    } else {
        by_id
    }
}

/// A stage of a worker's life, to pick workers by.
#[derive(Clone, Copy, Debug, PartialEq, Eq)]
pub enum Stage {
    /// Asked for, and neither launched nor ready.
    Requested,
    /// Launched, and not ready.
    Launched,
    /// Ready.
    Acked,
    /// Not told to stop.
    Live,
}

/// Whether a worker with the record `life` is at `stage`.
pub open spec fn is_at(life: Lifecycle, stage: Stage) -> bool {
    match stage {
        Stage::Requested => life.acked.is_none() && life.launched.is_none()
            && life.requested.is_some(),
        Stage::Launched => life.acked.is_none() && life.launched.is_some(),
        Stage::Acked => life.acked.is_some(),
        Stage::Live => life.killed.is_none(),
    }
}

/// The ids of the workers at `stage`.
pub open spec fn ids_at(by_id: ById, stage: Stage) -> Set<Seq<char>> {
    by_id.dom().filter(|id: Seq<char>| is_at(by_id[id], stage))
}

/// How many workers are at `stage`.
pub open spec fn count_at(by_id: ById, stage: Stage) -> nat {
    ids_at(by_id, stage).len()
}

/// How many workers have said that they are ready.
pub open spec fn acked_count(by_id: ById) -> nat {
    count_at(by_id, Stage::Acked)
}

/// How many workers were not told to stop.
pub open spec fn live_count(by_id: ById) -> nat {
    count_at(by_id, Stage::Live)
}

/// The times on a record follow each other: the request comes first, and a worker that
/// is ready was launched before.
pub open spec fn in_order(life: Lifecycle) -> bool {
    &&& life.requested is Some
    &&& life.launched matches Some(launched) ==> life.requested->0@ <= launched@
    &&& life.acked matches Some(acked) ==> life.launched is Some && life.launched->0@ <= acked@
}

/// No time on the record is later than `now`.
pub open spec fn no_later_than(life: Lifecycle, now: Timestamp) -> bool {
    &&& life.requested matches Some(requested) ==> requested@ <= now@
    &&& life.launched matches Some(launched) ==> launched@ <= now@
    &&& life.acked matches Some(acked) ==> acked@ <= now@
}

/// Every record is in order, and none holds a time that is later than `now`.
pub open spec fn chronological(by_id: ById, now: Timestamp) -> bool {
    forall|id: Seq<char>| #[trigger]
        by_id.contains_key(id) ==> in_order(by_id[id]) && no_later_than(by_id[id], now)
}

/// Whether `id` was launched more than `limit` before `now` and has not said that it is
/// ready.
pub open spec fn is_overdue(by_id: ById, id: Seq<char>, now: Timestamp, limit: Span) -> bool {
    &&& by_id.contains_key(id)
    &&& by_id[id].acked.is_none()
    &&& by_id[id].launched matches Some(launched)
    &&& now@ - launched@ > limit@
}

/// Whether some worker is overdue at `now`.
pub open spec fn any_overdue(by_id: ById, now: Timestamp, limit: Span) -> bool {
    exists|id: Seq<char>| is_overdue(by_id, id, now, limit)
}

/// The two mappings are in step: a worker with a pid is filed under that pid, and whoever is
/// filed under a pid is a worker on record that runs as it.
pub proof fn lemma_by_pid_in_step(by_id: ById)
    requires
        pids_distinct(by_id),
    ensures
        forall|id: Seq<char>, pid: Pid| #[trigger]
            runs_as(by_id, id, pid) ==> by_pid(by_id).contains_key(pid) && by_pid(by_id)[pid] == id,
        forall|pid: Pid| #[trigger]
            by_pid(by_id).contains_key(pid) ==> runs_as(by_id, by_pid(by_id)[pid], pid),
{
    assert forall|id: Seq<char>, pid: Pid| #[trigger] runs_as(by_id, id, pid) implies by_pid(
        by_id,
    ).contains_key(pid) && by_pid(by_id)[pid] == id by {
        let chosen = choose|other: Seq<char>| runs_as(by_id, other, pid);
        assert(runs_as(by_id, chosen, pid));
    }
}

/// A request keeps the index well formed.
pub proof fn lemma_register_well_indexed(by_id: ById, id: Seq<char>, now: Timestamp)
    requires
        well_indexed(by_id),
    ensures
        well_indexed(register(by_id, id, now)),
{
    let after = register(by_id, id, now);
    assert forall|a: Seq<char>, b: Seq<char>, pid: Pid|
        #![trigger runs_as(after, a, pid), runs_as(after, b, pid)]
        runs_as(after, a, pid) && runs_as(after, b, pid) implies a == b by {
        assert(runs_as(by_id, a, pid) && runs_as(by_id, b, pid));
    }
}

/// A launch report keeps the index well formed.
pub proof fn lemma_launch_well_indexed(by_id: ById, id: Seq<char>, pid: Pid, now: Timestamp)
    requires
        well_indexed(by_id),
    ensures
        well_indexed(launch(by_id, id, pid, now)),
        launch(by_id, id, pid, now).dom() == by_id.dom(),
{
    let after = launch(by_id, id, pid, now);
    assert(after.dom() =~= by_id.dom());
    assert forall|a: Seq<char>, b: Seq<char>, p: Pid|
        #![trigger runs_as(after, a, p), runs_as(after, b, p)]
        runs_as(after, a, p) && runs_as(after, b, p) implies a == b by {
        if by_id.contains_key(id) && a != b {
            if p == pid {
                assert(b == id);
            } else {
                if a != id && b != id {
                    assert(runs_as(by_id, a, p) && runs_as(by_id, b, p));
                }
            }
        } else if a != b {
            assert(runs_as(by_id, a, p) && runs_as(by_id, b, p));
        }
    }
}

/// A readiness report keeps the index well formed.
pub proof fn lemma_ack_well_indexed(by_id: ById, id: Seq<char>, now: Timestamp)
    requires
        well_indexed(by_id),
    ensures
        well_indexed(ack(by_id, id, now)),
        ack(by_id, id, now).dom() == by_id.dom(),
{
    let after = ack(by_id, id, now);
    assert(after.dom() =~= by_id.dom());
    assert forall|a: Seq<char>, b: Seq<char>, pid: Pid|
        #![trigger runs_as(after, a, pid), runs_as(after, b, pid)]
        runs_as(after, a, pid) && runs_as(after, b, pid) implies a == b by {
        assert(runs_as(by_id, a, pid) && runs_as(by_id, b, pid));
    }
}

/// A reaped process keeps the index well formed.
pub proof fn lemma_reap_well_indexed(by_id: ById, pid: Pid)
    requires
        well_indexed(by_id),
    ensures
        well_indexed(reap(by_id, pid)),
{
    let after = reap(by_id, pid);
    assert forall|a: Seq<char>, b: Seq<char>, p: Pid|
        #![trigger runs_as(after, a, p), runs_as(after, b, p)]
        runs_as(after, a, p) && runs_as(after, b, p) implies a == b by {
        assert(runs_as(by_id, a, p) && runs_as(by_id, b, p));
    }
}

/// A readiness report takes no worker out of the ready ones.
pub proof fn lemma_ack_keeps_acked(by_id: ById, id: Seq<char>, now: Timestamp)
    requires
        well_indexed(by_id),
    ensures
        acked_count(by_id) <= acked_count(ack(by_id, id, now)),
{
    let after = ack(by_id, id, now);
    assert(after.dom() =~= by_id.dom());
    after.dom().lemma_len_filter(|k: Seq<char>| is_at(after[k], Stage::Acked));
    lemma_len_subset(ids_at(by_id, Stage::Acked), ids_at(after, Stage::Acked));
}

/// One worker as the index holds it.
#[derive(Clone, Debug, PartialEq)]
struct Worker {
    id: String,
    life: Lifecycle,
}

/// The mapping that a list of workers stands for.
spec fn index_of(entries: Seq<Worker>) -> ById
    decreases entries.len(),
{
    if entries.len() == 0 {
        Map::empty()
    } else {
        index_of(entries.drop_last()).insert(entries.last().id@, entries.last().life)
    }
}

/// No id is on the list twice.
spec fn ids_distinct(entries: Seq<Worker>) -> bool {
    forall|i: int, j: int|
        0 <= i < j < entries.len() ==> (#[trigger] entries[i]).id@ != (#[trigger] entries[j]).id@
}

/// How many workers on the list meet `pred`.
spec fn count_where(entries: Seq<Worker>, pred: spec_fn(Lifecycle) -> bool) -> nat
    decreases entries.len(),
{
    if entries.len() == 0 {
        0
    } else {
        count_where(entries.drop_last(), pred) + if pred(entries.last().life) {
            1nat
        } else {
            0nat
        }
    }
}

/// The list and the mapping it stands for hold the same workers.
proof fn lemma_index_of(entries: Seq<Worker>)
    ensures
        index_of(entries).dom().finite(),
        forall|k: Seq<char>|
            index_of(entries).contains_key(k) <==> exists|i: int|
                0 <= i < entries.len() && (#[trigger] entries[i]).id@ == k,
        ids_distinct(entries) ==> forall|i: int|
            0 <= i < entries.len() ==> index_of(entries)[(#[trigger] entries[i]).id@]
                == entries[i].life,
    decreases entries.len(),
{
    if entries.len() > 0 {
        let front = entries.drop_last();
        let last = entries.last();
        lemma_index_of(front);
        assert forall|k: Seq<char>| index_of(entries).contains_key(k) implies exists|i: int|
            0 <= i < entries.len() && (#[trigger] entries[i]).id@ == k by {
            if k == last.id@ {
                assert(entries[entries.len() - 1].id@ == k);
            } else {
                let i = choose|i: int| 0 <= i < front.len() && (#[trigger] front[i]).id@ == k;
                assert(entries[i].id@ == k);
            }
        }
        assert forall|k: Seq<char>|
            (exists|i: int|
                0 <= i < entries.len() && (#[trigger] entries[i]).id@ == k) implies index_of(
            entries,
        ).contains_key(k) by {
            let i = choose|i: int| 0 <= i < entries.len() && (#[trigger] entries[i]).id@ == k;
            if i < front.len() {
                assert(front[i].id@ == k);
            }
        }
        if ids_distinct(entries) {
            assert(ids_distinct(front)) by {
                assert forall|i: int, j: int| 0 <= i < j < front.len() implies (
                #[trigger] front[i]).id@ != (#[trigger] front[j]).id@ by {
                    assert(entries[i].id@ != entries[j].id@);
                }
            }
            assert forall|i: int| 0 <= i < entries.len() implies index_of(entries)[(
            #[trigger] entries[i]).id@] == entries[i].life by {
                if i < front.len() {
                    assert(front[i].id@ == entries[i].id@);
                }
            }
        }
    }
}

/// Counting along the list gives the size of the set that the mapping yields.
proof fn lemma_count_where(entries: Seq<Worker>, pred: spec_fn(Lifecycle) -> bool)
    requires
        ids_distinct(entries),
    ensures
        count_where(entries, pred) == index_of(entries).dom().filter(
            |id: Seq<char>| pred(index_of(entries)[id]),
        ).len(),
    decreases entries.len(),
{
    let whole = index_of(entries);
    let chosen = whole.dom().filter(|id: Seq<char>| pred(whole[id]));
    if entries.len() == 0 {
        assert(chosen =~= Set::<Seq<char>>::empty());
    } else {
        let front = entries.drop_last();
        let last = entries.last();
        let before = index_of(front);
        let chosen_before = before.dom().filter(|id: Seq<char>| pred(before[id]));
        assert(ids_distinct(front)) by {
            assert forall|i: int, j: int| 0 <= i < j < front.len() implies (#[trigger] front[i]).id@
                != (#[trigger] front[j]).id@ by {
                assert(entries[i].id@ != entries[j].id@);
            }
        }
        lemma_count_where(front, pred);
        lemma_index_of(front);
        assert(!before.contains_key(last.id@)) by {
            if before.contains_key(last.id@) {
                let i = choose|i: int| 0 <= i < front.len() && (#[trigger] front[i]).id@ == last.id@;
                assert(entries[i].id@ != entries[entries.len() - 1].id@);
            }
        }
        before.dom().lemma_len_filter(|id: Seq<char>| pred(before[id]));
        if pred(last.life) {
            assert(chosen =~= chosen_before.insert(last.id@));
        } else {
            assert(chosen =~= chosen_before);
        }
    }
}

/// Replacing a worker by one of the same id replaces its record.
proof fn lemma_index_of_update(entries: Seq<Worker>, at: int, worker: Worker)
    requires
        ids_distinct(entries),
        0 <= at < entries.len(),
        entries[at].id@ == worker.id@,
    ensures
        ids_distinct(entries.update(at, worker)),
        index_of(entries.update(at, worker)) == index_of(entries).insert(worker.id@, worker.life),
{
    let after = entries.update(at, worker);
    assert(ids_distinct(after)) by {
        assert forall|i: int, j: int| 0 <= i < j < after.len() implies (#[trigger] after[i]).id@ != (
        #[trigger] after[j]).id@ by {
            assert(entries[i].id@ != entries[j].id@);
        }
    }
    lemma_index_of(entries);
    lemma_index_of(after);
    let left = index_of(after);
    let right = index_of(entries).insert(worker.id@, worker.life);
    assert forall|k: Seq<char>| left.contains_key(k) <==> right.contains_key(k) by {
        if left.contains_key(k) {
            let i = choose|i: int| 0 <= i < after.len() && (#[trigger] after[i]).id@ == k;
            assert(entries[i].id@ == k);
        }
        if right.contains_key(k) && k != worker.id@ {
            let i = choose|i: int| 0 <= i < entries.len() && (#[trigger] entries[i]).id@ == k;
            assert(after[i].id@ == k);
        }
        if k == worker.id@ {
            assert(after[at].id@ == k);
        }
    }
    assert forall|k: Seq<char>| left.contains_key(k) implies left[k] == right[k] by {
        let i = choose|i: int| 0 <= i < after.len() && (#[trigger] after[i]).id@ == k;
        assert(left[after[i].id@] == after[i].life);
        if i != at {
            if i < at {
                assert(entries[i].id@ != entries[at].id@);
            } else {
                assert(entries[at].id@ != entries[i].id@);
            }
        }
    }
}

/// Adding a worker under a new id adds its record.
proof fn lemma_index_of_push(entries: Seq<Worker>, worker: Worker)
    requires
        ids_distinct(entries),
        forall|i: int| 0 <= i < entries.len() ==> (#[trigger] entries[i]).id@ != worker.id@,
    ensures
        ids_distinct(entries.push(worker)),
        index_of(entries.push(worker)) == index_of(entries).insert(worker.id@, worker.life),
{
    let after = entries.push(worker);
    assert(after.drop_last() =~= entries);
    assert(ids_distinct(after)) by {
        assert forall|i: int, j: int| 0 <= i < j < after.len() implies (#[trigger] after[i]).id@ != (
        #[trigger] after[j]).id@ by {
            if j < entries.len() {
                assert(entries[i].id@ != entries[j].id@);
            } else {
                assert(entries[i].id@ != worker.id@);
            }
        }
    }
}

/// Taking a worker off the list takes its record out.
proof fn lemma_index_of_remove(entries: Seq<Worker>, at: int)
    requires
        ids_distinct(entries),
        0 <= at < entries.len(),
    ensures
        ids_distinct(entries.remove(at)),
        index_of(entries.remove(at)) == index_of(entries).remove(entries[at].id@),
{
    let after = entries.remove(at);
    assert(ids_distinct(after)) by {
        assert forall|i: int, j: int| 0 <= i < j < after.len() implies (#[trigger] after[i]).id@ != (
        #[trigger] after[j]).id@ by {
            let oi = if i < at { i } else { i + 1 };
            let oj = if j < at { j } else { j + 1 };
            assert(entries[oi].id@ != entries[oj].id@);
        }
    }
    lemma_index_of(entries);
    lemma_index_of(after);
    let left = index_of(after);
    let right = index_of(entries).remove(entries[at].id@);
    assert forall|k: Seq<char>| left.contains_key(k) <==> right.contains_key(k) by {
        if left.contains_key(k) {
            let i = choose|i: int| 0 <= i < after.len() && (#[trigger] after[i]).id@ == k;
            let oi = if i < at { i } else { i + 1 };
            assert(entries[oi].id@ == k);
            if oi < at {
                assert(entries[oi].id@ != entries[at].id@);
            } else {
                assert(entries[at].id@ != entries[oi].id@);
            }
        }
        if right.contains_key(k) {
            let i = choose|i: int| 0 <= i < entries.len() && (#[trigger] entries[i]).id@ == k;
            let ni = if i < at { i } else { i - 1 };
            assert(after[ni].id@ == k);
        }
    }
    assert forall|k: Seq<char>| left.contains_key(k) implies left[k] == right[k] by {
        let i = choose|i: int| 0 <= i < after.len() && (#[trigger] after[i]).id@ == k;
        let oi = if i < at { i } else { i + 1 };
        assert(index_of(entries)[entries[oi].id@] == entries[oi].life);
    }
}

/// The workers of a fleet, each filed under its id and, once launched, under its pid.
#[derive(Debug, PartialEq)]
pub struct Workers {
    entries: Vec<Worker>,
}

impl View for Workers {
    type V = ById;

    closed spec fn view(&self) -> ById {
        index_of(self.entries@)
    }
}

impl Workers {
    #[verifier::type_invariant]
    spec fn inv(&self) -> bool {
        ids_distinct(self.entries@) && pids_distinct(index_of(self.entries@))
    }

    /// An index without workers.
    pub fn new() -> (workers: Workers)
        ensures
            workers@ == Map::<Seq<char>, Lifecycle>::empty(),
            well_indexed(workers@),
    {
        let workers = Workers { entries: Vec::new() };
        proof {
            lemma_index_of(workers.entries@);
        }
        workers
    }

    /// States what holds of every index. Running it does nothing.
    pub fn attest(&self)
        ensures
            well_indexed(self@),
    {
        proof {
            use_type_invariant(self);
            lemma_index_of(self.entries@);
        }
    }

    /// Where on the list the worker `id` stands.
    fn position_of(&self, id: &String) -> (found: Option<usize>)
        ensures
            match found {
                Some(at) => at < self.entries@.len() && self.entries@[at as int].id@ == id@,
                None => forall|i: int|
                    0 <= i < self.entries@.len() ==> (#[trigger] self.entries@[i]).id@ != id@,
            },
            found.is_some() == self@.contains_key(id@),
    {
        let mut at: usize = 0;
        while at < self.entries.len()
            invariant
                at <= self.entries@.len(),
                forall|i: int| 0 <= i < at ==> (#[trigger] self.entries@[i]).id@ != id@,
            decreases self.entries@.len() - at,
        {
            if self.entries[at].id == *id {
                proof {
                    lemma_index_of(self.entries@);
                }
                return Some(at);
            }
            at += 1;
        }
        proof {
            lemma_index_of(self.entries@);
        }
        None
    }

    /// Where on the list the worker that runs as `pid` stands.
    fn holder_of(&self, pid: Pid) -> (found: Option<usize>)
        ensures
            match found {
                Some(at) => at < self.entries@.len() && self.entries@[at as int].life.pid == Some(
                    pid,
                ) && by_pid(self@).contains_key(pid) && by_pid(self@)[pid]
                    == self.entries@[at as int].id@,
                None => !by_pid(self@).contains_key(pid) && forall|i: int|
                    0 <= i < self.entries@.len() ==> (#[trigger] self.entries@[i]).life.pid
                        != Some(pid),
            },
    {
        let mut at: usize = 0;
        while at < self.entries.len()
            invariant
                at <= self.entries@.len(),
                forall|i: int| 0 <= i < at ==> (#[trigger] self.entries@[i]).life.pid != Some(pid),
            decreases self.entries@.len() - at,
        {
            let held = self.entries[at].life.pid;
            let same = match held {
                Some(p) => p.raw == pid.raw,
                None => false,
            };
            if same {
                proof {
                    use_type_invariant(self);
                    lemma_index_of(self.entries@);
                    lemma_by_pid_in_step(self@);
                    let id = self.entries@[at as int].id@;
                    assert(self@[id] == self.entries@[at as int].life);
                    assert(runs_as(self@, id, pid));
                }
                return Some(at);
            }
            at += 1;
        }
        proof {
            use_type_invariant(self);
            lemma_index_of(self.entries@);
            lemma_by_pid_in_step(self@);
            if by_pid(self@).contains_key(pid) {
                let id = by_pid(self@)[pid];
                assert(runs_as(self@, id, pid));
                let i = choose|i: int|
                    0 <= i < self.entries@.len() && (#[trigger] self.entries@[i]).id@ == id;
                assert(self@[self.entries@[i].id@] == self.entries@[i].life);
            }
        }
        None
    }

    /// What is recorded of the worker `id`, if it is on record.
    pub fn get(&self, id: &String) -> (life: Option<Lifecycle>)
        ensures
            life == if self@.contains_key(id@) {
                Some(self@[id@])
            } else {
                None
            },
    {
        match self.position_of(id) {
            Some(at) => {
                proof {
                    use_type_invariant(self);
                    lemma_index_of(self.entries@);
                }
                Some(self.entries[at].life)
            },
            None => None,
        }
    }

    /// The id of the worker that runs as `pid`, if there is one.
    pub fn id_of(&self, pid: Pid) -> (id: Option<String>)
        ensures
            match id {
                Some(id) => by_pid(self@).contains_key(pid) && by_pid(self@)[pid] == id@,
                None => !by_pid(self@).contains_key(pid),
            },
    {
        match self.holder_of(pid) {
            Some(at) => Some(self.entries[at].id.clone()),
            None => None,
        }
    }

    /// Files a worker that was asked for at `now` under `id`, in place of any record that
    /// stood there.
    pub fn register_worker(self, id: String, now: Timestamp) -> (out: Workers)
        ensures
            out@ == register(self@, id@, now),
            well_indexed(self@),
            well_indexed(out@),
    {
        proof {
            use_type_invariant(&self);
            lemma_index_of(self.entries@);
            lemma_register_well_indexed(self@, id@, now);
        }
        let found = self.position_of(&id);
        let worker = Worker {
            id,
            life: Lifecycle {
                pid: None,
                requested: Some(now),
                launched: None,
                acked: None,
                killed: None,
            },
        };
        let mut entries = self.entries;
        match found {
            Some(at) => {
                proof {
                    lemma_index_of_update(entries@, at as int, worker);
                }
                entries.set(at, worker);
            },
            None => {
                proof {
                    lemma_index_of_push(entries@, worker);
                }
                entries.push(worker);
            },
        }
        Workers { entries }
    }

    /// Records that `id` was launched as `pid` at `now`. A worker that was filed under that
    /// pid before is no longer; an id that is not on record changes nothing.
    pub fn launched(self, id: &String, pid: Pid, now: Timestamp) -> (out: Workers)
        ensures
            out@ == launch(self@, id@, pid, now),
            well_indexed(self@),
            well_indexed(out@),
    {
        proof {
            use_type_invariant(&self);
            lemma_index_of(self.entries@);
            lemma_by_pid_in_step(self@);
            lemma_launch_well_indexed(self@, id@, pid, now);
        }
        let found = self.position_of(id);
        match found {
            None => self,
            Some(at) => {
                let holder = self.holder_of(pid);
                let ghost before = self.entries@;
                let ghost by_id = self@;
                let mut entries = self.entries;
                match holder {
                    Some(other) => {
                        if other != at {
                            let ghost cleared = Worker {
                                id: entries@[other as int].id,
                                life: Lifecycle { pid: None, ..entries@[other as int].life },
                            };
                            proof {
                                lemma_index_of_update(entries@, other as int, cleared);
                            }
                            entries[other].life.pid = None;
                        }
                    },
                    None => {},
                }
                let ghost middle = entries@;
                let ghost updated = Worker {
                    id: entries@[at as int].id,
                    life: Lifecycle {
                        pid: Some(pid),
                        launched: Some(now),
                        ..entries@[at as int].life
                    },
                };
                proof {
                    lemma_index_of_update(entries@, at as int, updated);
                }
                entries[at].life.pid = Some(pid);
                entries[at].life.launched = Some(now);
                assert(entries@ =~= middle.update(at as int, updated));
                proof {
                    let after = index_of(entries@);
                    let wanted = launch(by_id, id@, pid, now);
                    assert forall|k: Seq<char>| wanted.contains_key(k) implies after[k]
                        == wanted[k] by {
                        if k != id@ && by_id[k].pid == Some(pid) {
                            assert(runs_as(by_id, k, pid));
                        }
                        if k != id@ && holder.is_none() {
                            let i = choose|i: int|
                                0 <= i < before.len() && (#[trigger] before[i]).id@ == k;
                            assert(by_id[before[i].id@] == before[i].life);
                        }
                    }
                    assert(after =~= wanted);
                }
                Workers { entries }
            },
        }
    }

    /// Records that `id` said at `now` that it is ready. A worker that is on record as ready
    /// keeps the time of its first word; an id that is not on record changes nothing.
    pub fn acked(self, id: &String, now: Timestamp) -> (out: Workers)
        ensures
            out@ == ack(self@, id@, now),
            well_indexed(self@),
            well_indexed(out@),
    {
        proof {
            use_type_invariant(&self);
            lemma_index_of(self.entries@);
            lemma_ack_well_indexed(self@, id@, now);
        }
        let found = self.position_of(id);
        match found {
            None => self,
            Some(at) => {
                assert(self@[self.entries@[at as int].id@] == self.entries@[at as int].life);
                if self.entries[at].life.acked.is_some() {
                    return self;
                }
                let mut entries = self.entries;
                let ghost updated = Worker {
                    id: entries@[at as int].id,
                    life: Lifecycle { acked: Some(now), ..entries@[at as int].life },
                };
                proof {
                    lemma_index_of_update(entries@, at as int, updated);
                }
                entries[at].life.acked = Some(now);
                Workers { entries }
            },
        }
    }

    /// Takes out the worker that runs as `pid` and hands back what was recorded of it; `None`,
    /// and nothing changed, where no worker runs as `pid`.
    pub fn delete_by_pid(self, pid: Pid) -> (out: (Workers, Option<Lifecycle>))
        ensures
            out.0@ == reap(self@, pid),
            out.1 == if by_pid(self@).contains_key(pid) {
                Some(self@[by_pid(self@)[pid]])
            } else {
                None
            },
            well_indexed(self@),
            well_indexed(out.0@),
    {
        proof {
            use_type_invariant(&self);
            lemma_index_of(self.entries@);
            lemma_reap_well_indexed(self@, pid);
        }
        let holder = self.holder_of(pid);
        match holder {
            None => (self, None),
            Some(at) => {
                let mut entries = self.entries;
                proof {
                    lemma_index_of_remove(entries@, at as int);
                }
                let gone = entries.remove(at);
                (Workers { entries }, Some(gone.life))
            },
        }
    }

    /// How many workers are on record.
    pub fn len(&self) -> (n: usize)
        ensures
            n == self@.dom().len(),
    {
        proof {
            use_type_invariant(self);
            let all = |life: Lifecycle| true;
            lemma_count_where(self.entries@, all);
            lemma_count_all(self.entries@, all);
            assert(self@.dom().filter(|id: Seq<char>| all(self@[id])) =~= self@.dom());
        }
        self.entries.len()
    }

    /// Whether no worker is on record.
    pub fn is_empty(&self) -> (empty: bool)
        ensures
            empty == (self@.dom().len() == 0),
    {
        self.len() == 0
    }

    /// How many workers are at `stage`.
    pub fn count(&self, stage: Stage) -> (n: usize)
        ensures
            n == count_at(self@, stage),
    {
        let mut n: usize = 0;
        let mut at: usize = 0;
        while at < self.entries.len()
            invariant
                at <= self.entries@.len(),
                n <= at,
                n == count_where(self.entries@.take(at as int), |life: Lifecycle| is_at(life, stage)),
            decreases self.entries@.len() - at,
        {
            let life = self.entries[at].life;
            let counts = match stage {
                Stage::Requested => life.acked.is_none() && life.launched.is_none()
                    && life.requested.is_some(),
                Stage::Launched => life.acked.is_none() && life.launched.is_some(),
                Stage::Acked => life.acked.is_some(),
                Stage::Live => life.killed.is_none(),
            };
            proof {
                let next = self.entries@.take(at as int + 1);
                assert(next.drop_last() =~= self.entries@.take(at as int));
            }
            if counts {
                n += 1;
            }
            at += 1;
        }
        proof {
            use_type_invariant(self);
            assert(self.entries@.take(at as int) =~= self.entries@);
            lemma_count_where(self.entries@, |life: Lifecycle| is_at(life, stage));
            assert(self@.dom().filter(|id: Seq<char>| (|life: Lifecycle| is_at(life, stage))(self@[id]))
                =~= ids_at(self@, stage));
        }
        n
    }

    /// Whether some worker was launched more than `limit` before `now` and has not said that
    /// it is ready.
    pub fn any_overdue(&self, now: Timestamp, limit: Span) -> (late: bool)
        ensures
            late == any_overdue(self@, now, limit),
    {
        let mut at: usize = 0;
        while at < self.entries.len()
            invariant
                at <= self.entries@.len(),
                forall|i: int|
                    0 <= i < at ==> !is_overdue(
                        self@,
                        (#[trigger] self.entries@[i]).id@,
                        now,
                        limit,
                    ),
            decreases self.entries@.len() - at,
        {
            let life = self.entries[at].life;
            proof {
                use_type_invariant(self);
                lemma_index_of(self.entries@);
            }
            let late = match life.launched {
                Some(launched) => life.acked.is_none() && now.is_later_than(launched, limit),
                None => false,
            };
            if late {
                assert(is_overdue(self@, self.entries@[at as int].id@, now, limit));
                return true;
            }
            at += 1;
        }
        proof {
            lemma_index_of(self.entries@);
            assert forall|id: Seq<char>| !is_overdue(self@, id, now, limit) by {
                if self@.contains_key(id) {
                    let i = choose|i: int|
                        0 <= i < self.entries@.len() && (#[trigger] self.entries@[i]).id@ == id;
                    assert(!is_overdue(self@, self.entries@[i].id@, now, limit));
                }
            }
        }
        false
    }

    /// The pids of the workers that have one, each once.
    pub fn pids(&self) -> (pids: Vec<Pid>)
        ensures
            pids@.to_set() == by_pid(self@).dom(),
            pids@.no_duplicates(),
    {
        let mut pids: Vec<Pid> = Vec::new();
        let mut at: usize = 0;
        while at < self.entries.len()
            invariant
                at <= self.entries@.len(),
                pids@.no_duplicates(),
                forall|p: Pid|
                    pids@.contains(p) <==> exists|i: int|
                        0 <= i < at && (#[trigger] self.entries@[i]).life.pid == Some(p),
            decreases self.entries@.len() - at,
        {
            let ghost before = pids@;
            match self.entries[at].life.pid {
                Some(pid) => {
                    proof {
                        use_type_invariant(self);
                        lemma_index_of(self.entries@);
                        if before.contains(pid) {
                            let i = choose|i: int|
                                0 <= i < at && (#[trigger] self.entries@[i]).life.pid == Some(pid);
                            assert(runs_as(self@, self.entries@[i].id@, pid));
                            assert(runs_as(self@, self.entries@[at as int].id@, pid));
                        }
                    }
                    pids.push(pid);
                    proof {
                        assert forall|p: Pid| pids@.contains(p) implies exists|i: int|
                            0 <= i < at + 1 && (#[trigger] self.entries@[i]).life.pid == Some(
                                p,
                            ) by {
                            let j = choose|j: int| 0 <= j < pids@.len() && pids@[j] == p;
                            if j < before.len() {
                                assert(before.contains(p));
                                let i = choose|i: int|
                                    0 <= i < at && (#[trigger] self.entries@[i]).life.pid
                                        == Some(p);
                                assert(self.entries@[i].life.pid == Some(p));
                            } else {
                                assert(self.entries@[at as int].life.pid == Some(p));
                            }
                        }
                        assert forall|p: Pid|
                            (exists|i: int|
                                0 <= i < at + 1 && (#[trigger] self.entries@[i]).life.pid
                                    == Some(p)) implies pids@.contains(p) by {
                            let i = choose|i: int|
                                0 <= i < at + 1 && (#[trigger] self.entries@[i]).life.pid
                                    == Some(p);
                            if i < at {
                                assert(before.contains(p));
                                let j = choose|j: int| 0 <= j < before.len() && before[j] == p;
                                assert(pids@[j] == p);
                            } else {
                                assert(pids@[before.len() as int] == p);
                            }
                        }
                    }
                },
                None => {},
            }
            at += 1;
        }
        proof {
            use_type_invariant(self);
            lemma_index_of(self.entries@);
            lemma_by_pid_in_step(self@);
            assert forall|p: Pid| pids@.to_set().contains(p) <==> by_pid(self@).dom().contains(
                p,
            ) by {
                if pids@.contains(p) {
                    let i = choose|i: int|
                        0 <= i < at && (#[trigger] self.entries@[i]).life.pid == Some(p);
                    assert(runs_as(self@, self.entries@[i].id@, p));
                }
                if by_pid(self@).contains_key(p) {
                    let id = by_pid(self@)[p];
                    assert(runs_as(self@, id, p));
                    let i = choose|i: int|
                        0 <= i < self.entries@.len() && (#[trigger] self.entries@[i]).id@ == id;
                    assert(self@[self.entries@[i].id@] == self.entries@[i].life);
                }
            }
        }
        pids
    }
}

/// Counting by a test that every worker meets gives the length of the list.
proof fn lemma_count_all(entries: Seq<Worker>, pred: spec_fn(Lifecycle) -> bool)
    requires
        forall|life: Lifecycle| #[trigger] pred(life),
    ensures
        count_where(entries, pred) == entries.len(),
    decreases entries.len(),
{
    if entries.len() > 0 {
        lemma_count_all(entries.drop_last(), pred);
    }
}

impl Clone for Workers {
    fn clone(&self) -> (copy: Workers)
        ensures
            copy@ == self@,
    {
        proof {
            use_type_invariant(self);
        }
        let mut entries: Vec<Worker> = Vec::new();
        let mut at: usize = 0;
        while at < self.entries.len()
            invariant
                at <= self.entries@.len(),
                entries@ == self.entries@.take(at as int),
            decreases self.entries@.len() - at,
        {
            let worker = Worker { id: self.entries[at].id.clone(), life: self.entries[at].life };
            entries.push(worker);
            at += 1;
        }
        assert(entries@ =~= self.entries@);
        Workers { entries }
    }
}

} // verus!