//! The work the app is doing that takes long enough to be worth a list: what is in flight, what
//! finished, what failed.
use vstd::prelude::*;
use std::time::Instant;
use crate::clock::{elapsed_ms, instant_now};

verus! {

/// Where a task got to.
#[derive(Debug, Clone, Copy, PartialEq, Eq, Structural)]
pub enum TaskState {
    Running,
    Done,
    Failed,
}

impl TaskState {
    /// Whether the task is still in flight.
    pub fn is_running(self) -> (r: bool)
        ensures
            r == (self == TaskState::Running),
    {
        matches!(self, TaskState::Running)
    }
}

/// One piece of work.
pub struct Task {
    /// A stable id: an index would point at a different task once the list is trimmed.
    pub id: u64,
    pub label: String,
    pub state: TaskState,
    /// When the task began, in milliseconds on the list's clock.
    pub started: u64,
}

impl Task {
    /// The task's id.
    pub open spec fn key(self) -> u64 {
        self.id
    }

    /// The same task in another state.
    pub open spec fn with_state(self, state: TaskState) -> Task {
        Task { state, ..self }
    }
}

/// A handle to a task, so the event that ends it can say which one it was.
#[derive(Debug, Clone, Copy, PartialEq, Eq, Structural)]
pub struct TaskId(u64);

impl TaskId {
    /// The id the handle names.
    pub closed spec fn key(self) -> u64 {
        self.0
    }
}

/// How many tasks are kept for `:tasks`.
pub const KEEP: usize = 32;

/// How many of `tasks` are running.
pub open spec fn count_running(tasks: Seq<Task>) -> nat
    decreases tasks.len(),
{
    if tasks.len() == 0 {
        0
    } else {
        count_running(tasks.drop_last()) + if tasks.last().state == TaskState::Running { 1nat } else { 0nat }
    }
}

/// `tasks` with every task that has id `id` put in `state`.
pub open spec fn finish_in(tasks: Seq<Task>, id: u64, state: TaskState) -> Seq<Task> {
    tasks.map_values(|t: Task| if t.key() == id { t.with_state(state) } else { t })
}

/// `tasks` with every running task put in `state`.
pub open spec fn finish_all_running(tasks: Seq<Task>, state: TaskState) -> Seq<Task> {
    tasks.map_values(|t: Task| if t.state == TaskState::Running { t.with_state(state) } else { t })
}

/// What the app is doing, oldest first, capped.
pub struct Tasks {
    entries: Vec<Task>,
    /// The id the last task got. Ids are never reused.
    next_id: u64,
    /// Where the list's clock starts.
    start: Instant,
}

impl Default for Tasks {
    /// Nothing registered yet.
    fn default() -> (r: Self)
        ensures
            r.tasks() == Seq::<Task>::empty(),
            r.last_id() == 0,
            r.wf(),
    {
        let r = Tasks { entries: Vec::new(), next_id: 0, start: instant_now() };
        assert(r.entries@ =~= Seq::<Task>::empty());
        r
    }
}

impl Tasks {
    /// Every task kept, oldest first.
    pub closed spec fn tasks(&self) -> Seq<Task> {
        self.entries@
    }

    /// The id the most recent task got (0 before any).
    pub closed spec fn last_id(&self) -> u64 {
        self.next_id
    }

    /// The list is capped, and its ids grow from the oldest task to the newest and never reach
    /// past the last one handed out.
    pub open spec fn wf(&self) -> bool {
        &&& self.tasks().len() <= KEEP
        &&& forall|i: int, j: int| 0 <= i < j < self.tasks().len() ==> #[trigger] self.tasks()[i].key() < #[trigger] self.tasks()[j].key()
        &&& forall|i: int| 0 <= i < self.tasks().len() ==> 0 < #[trigger] self.tasks()[i].key() <= self.last_id()
    }

    /// Register a task and hand back its handle. The list drops its oldest task when it is full.
    pub fn begin(&mut self, label: &str) -> (id: TaskId)
        requires
            old(self).wf(),
            old(self).last_id() < u64::MAX,
        ensures
            final(self).wf(),
            id.key() == old(self).last_id() + 1,
            final(self).last_id() == id.key(),
            ({
                let pushed = old(self).tasks().push(final(self).tasks().last());
                &&& final(self).tasks().len() > 0
                &&& final(self).tasks().last().key() == id.key()
                &&& final(self).tasks().last().label@ == label@
                &&& final(self).tasks().last().state == TaskState::Running
                &&& final(self).tasks() == if pushed.len() > KEEP { pushed.skip(1) } else { pushed }
            }),
    {
        self.next_id = self.next_id + 1;
        let started = elapsed_ms(&self.start);
        let task = Task { id: self.next_id, label: label.to_owned(), state: TaskState::Running, started };
        let ghost before = self.entries@;
        self.entries.push(task);
        if self.entries.len() > KEEP {
            self.entries.remove(0);
            assert(self.entries@ =~= before.push(task).skip(1));
        }
        TaskId(self.next_id)
    }

    /// Mark one task finished. An id that has been dropped (the list was full) is ignored: the
    /// task is gone, and there is nothing to say about it.
    pub fn finish(&mut self, id: TaskId, state: TaskState)
        requires
            old(self).wf(),
        ensures
            final(self).wf(),
            final(self).last_id() == old(self).last_id(),
            final(self).tasks() == finish_in(old(self).tasks(), id.key(), state),
    {
        let ghost before = self.entries@;
        let mut i: usize = 0;
        while i < self.entries.len()
            invariant
                self.wf(),
                self.last_id() == old(self).last_id(),
                self.tasks() == before,
                before == old(self).tasks(),
                i <= self.entries.len(),
                forall|j: int| 0 <= j < i ==> before[j].key() != id.key(),
            decreases self.entries.len() - i,
        {
            if self.entries[i].id == id.0 {
                let ghost t = self.entries@[i as int];
                self.entries[i].state = state;
                assert(self.entries@ =~= finish_in(before, id.key(), state)) by {
                    assert forall|j: int| 0 <= j < before.len() implies
                        #[trigger] self.entries@[j] == finish_in(before, id.key(), state)[j] by {
                        if j != i as int {
                            if j < i as int {
                            } else {
                                assert(before[i as int].key() < before[j].key());
                            }
                        }
                    }
                }
                return;
            }
            i = i + 1;
        }
        assert(finish_in(before, id.key(), state) =~= before) by {
            assert forall|j: int| 0 <= j < before.len() implies
                #[trigger] finish_in(before, id.key(), state)[j] == before[j] by {}
        }
    }

    /// Finish every task that is still running: what an event that ends "whatever was in flight"
    /// says. Tasks that already finished keep their state.
    pub fn finish_running(&mut self, state: TaskState)
        requires
            old(self).wf(),
        ensures
            final(self).wf(),
            final(self).last_id() == old(self).last_id(),
            final(self).tasks() == finish_all_running(old(self).tasks(), state),
    {
        let ghost before = self.entries@;
        let mut i: usize = 0;
        while i < self.entries.len()
            invariant
                self.last_id() == old(self).last_id(),
                before == old(self).tasks(),
                old(self).wf(),
                self.tasks().len() == before.len(),
                i <= self.entries.len(),
                forall|j: int| 0 <= j < i ==> #[trigger] self.tasks()[j] == finish_all_running(before, state)[j],
                forall|j: int| i <= j < before.len() ==> #[trigger] self.tasks()[j] == before[j],
            decreases self.entries.len() - i,
        {
            if self.entries[i].state.is_running() {
                self.entries[i].state = state;
            }
            i = i + 1;
        }
        assert(self.entries@ =~= finish_all_running(before, state));
        assert(forall|j: int| 0 <= j < before.len() ==> #[trigger] self.tasks()[j].key() == before[j].key());
    }

    /// How many tasks are still running.
    pub fn running(&self) -> (r: usize)
        ensures
            r == count_running(self.tasks()),
    {
        let mut n: usize = 0;
        let mut i: usize = 0;
        while i < self.entries.len()
            invariant
                i <= self.entries.len(),
                n == count_running(self.entries@.take(i as int)),
                n <= i,
            decreases self.entries.len() - i,
        {
            assert(self.entries@.take(i + 1).drop_last() =~= self.entries@.take(i as int));
            if self.entries[i].state.is_running() {
                n = n + 1;
            }
            i = i + 1;
        }
        assert(self.entries@.take(i as int) =~= self.entries@);
        n
    }

    /// Every task, oldest first.
    pub fn all(&self) -> (r: std::slice::Iter<'_, Task>)
        ensures
            vstd::std_specs::slice::into_iter_elts(r) == self.tasks(),
    {
        broadcast use vstd::std_specs::slice::axiom_spec_slice_iter;
        let r = self.entries.iter();
        assert(vstd::std_specs::slice::into_iter_elts(r) =~= self.tasks());
        r
    }

    pub fn is_empty(&self) -> (r: bool)
        ensures
            r == (self.tasks().len() == 0),
    {
        self.entries.len() == 0
    }

    /// Forget the tasks that are over: what a reader who has read the list wants next.
    pub fn clear_finished(&mut self)
        requires
            old(self).wf(),
        ensures
            final(self).wf(),
            final(self).last_id() == old(self).last_id(),
            final(self).tasks() == old(self).tasks().filter(|t: Task| t.state == TaskState::Running),
    {
        let ghost before = self.entries@;
        let mut kept: Vec<Task> = Vec::new();
        let mut rest: Vec<Task> = Vec::new();
        std::mem::swap(&mut rest, &mut self.entries);
        // Walk the old list from the front, moving what is still running.
        while rest.len() > 0
            invariant
                before == old(self).tasks(),
                rest.len() <= before.len(),
                rest@ == before.skip(before.len() - rest.len()),
                kept@ == before.take(before.len() - rest.len()).filter(|t: Task| t.state == TaskState::Running),
            decreases rest.len(),
        {
            let ghost k: int = before.len() - rest.len();
            let task = rest.remove(0);
            assert(task == before[k]);
            assert(rest@ =~= before.skip(k + 1));
            assert(before.take(k + 1).drop_last() =~= before.take(k));
            reveal(Seq::filter);
            if task.state.is_running() {
                kept.push(task);
            }
        }
        assert(before.take(before.len() as int) =~= before);
        self.entries = kept;
        proof {
            assert forall|i: int, j: int| 0 <= i < j < self.tasks().len() implies
                #[trigger] self.tasks()[i].key() < #[trigger] self.tasks()[j].key() by {
                lemma_filter_keeps_order(before, i, j);
            }
            assert forall|i: int| 0 <= i < self.tasks().len() implies
                0 < #[trigger] self.tasks()[i].key() <= self.last_id() by {
                lemma_filter_elements_come_from(before, i);
            }
            lemma_filter_len(before);
        }
    }
}

proof fn lemma_filter_len(s: Seq<Task>)
    ensures
        s.filter(|t: Task| t.state == TaskState::Running).len() <= s.len(),
    decreases s.len(),
{
    reveal(Seq::filter);
    if s.len() > 0 {
        lemma_filter_len(s.drop_last());
    }
}

proof fn lemma_filter_elements_come_from(s: Seq<Task>, i: int)
    requires
        0 <= i < s.filter(|t: Task| t.state == TaskState::Running).len(),
    ensures
        exists|k: int| 0 <= k < s.len() && s[k] == s.filter(|t: Task| t.state == TaskState::Running)[i],
    decreases s.len(),
{
    reveal(Seq::filter);
    let f = s.filter(|t: Task| t.state == TaskState::Running);
    let g = s.drop_last().filter(|t: Task| t.state == TaskState::Running);
    if i < g.len() {
        lemma_filter_elements_come_from(s.drop_last(), i);
        let k = choose|k: int| 0 <= k < s.drop_last().len() && s.drop_last()[k] == g[i];
        assert(s[k] == f[i]);
    } else {
        assert(s[s.len() - 1] == f[i]);
    }
}

/// Filtering keeps the order of the ids: a later kept task had a later id.
proof fn lemma_filter_keeps_order(s: Seq<Task>, i: int, j: int)
    requires
        forall|a: int, b: int| 0 <= a < b < s.len() ==> #[trigger] s[a].key() < #[trigger] s[b].key(),
        0 <= i < j < s.filter(|t: Task| t.state == TaskState::Running).len(),
    ensures
        s.filter(|t: Task| t.state == TaskState::Running)[i].key()
            < s.filter(|t: Task| t.state == TaskState::Running)[j].key(),
    decreases s.len(),
{
    reveal(Seq::filter);
    let f = s.filter(|t: Task| t.state == TaskState::Running);
    let g = s.drop_last().filter(|t: Task| t.state == TaskState::Running);
    if j < g.len() {
        lemma_filter_keeps_order(s.drop_last(), i, j);
    } else {
        lemma_filter_elements_come_from(s.drop_last(), i);
        let k = choose|k: int| 0 <= k < s.drop_last().len() && s.drop_last()[k] == g[i];
        assert(s[k].key() < s[s.len() - 1].key());
    }
}

/// Ids are never reused: the handle `begin` hands out is newer than every task the list holds,
/// so it cannot come to name a task that was there before.
pub proof fn a_new_handle_names_no_earlier_task(tasks: Tasks)
    requires
        tasks.wf(),
        tasks.last_id() < u64::MAX,
    ensures
        forall|i: int| 0 <= i < tasks.tasks().len() ==> #[trigger] tasks.tasks()[i].key() != tasks.last_id() + 1,
{
}

/// Handles are never reused. `begin` hands out `last_id() + 1` and makes it the new
/// `last_id()`, and `finish`, `finish_running` and `clear_finished` keep `last_id()`; so when
/// every handle handed out before (`earlier`) is at most `last_id()`, the handle the next
/// `begin` gives is none of them, and afterwards every handle handed out, the new one included,
/// is again at most `last_id()`, ready for the `begin` after that.
pub proof fn handles_are_never_reused(earlier: Seq<TaskId>, before: Tasks, after: Tasks, id: TaskId)
    requires
        forall|i: int| 0 <= i < earlier.len() ==> #[trigger] earlier[i].key() <= before.last_id(),
        id.key() == before.last_id() + 1,
        after.last_id() == id.key(),
    ensures
        !earlier.contains(id),
        forall|i: int| 0 <= i < earlier.len() + 1 ==> #[trigger] earlier.push(id)[i].key() <= after.last_id(),
{
    if earlier.contains(id) {
        let k = choose|k: int| 0 <= k < earlier.len() && earlier[k] == id;
        assert(earlier[k].key() <= before.last_id());
    }
    assert forall|i: int| 0 <= i < earlier.len() + 1 implies #[trigger] earlier.push(id)[i].key() <= after.last_id() by {
        if i < earlier.len() {
            assert(earlier.push(id)[i] == earlier[i]);
        }
    }
}

/// Finishing a task that has been dropped changes nothing: its handle does not name the task
/// that took its place.
pub proof fn finishing_a_dropped_task_changes_nothing(tasks: Seq<Task>, id: u64, state: TaskState)
    requires
        forall|i: int| 0 <= i < tasks.len() ==> #[trigger] tasks[i].key() != id,
    ensures
        finish_in(tasks, id, state) == tasks,
{
    assert(finish_in(tasks, id, state) =~= tasks);
}

/// Finishing what is in flight leaves the history alone: a task that was over keeps the state it
/// ended in, and afterwards nothing is running (unless the state given is `Running` itself).
pub proof fn finishing_in_flight_work_leaves_the_history(tasks: Seq<Task>, state: TaskState, i: int)
    requires
        0 <= i < tasks.len(),
    ensures
        tasks[i].state != TaskState::Running ==> finish_all_running(tasks, state)[i] == tasks[i],
        tasks[i].state == TaskState::Running ==> finish_all_running(tasks, state)[i].state == state,
        state != TaskState::Running ==> count_running(finish_all_running(tasks, state)) == 0,
{
    if state != TaskState::Running {
        lemma_none_running(tasks, state);
    }
}

proof fn lemma_none_running(tasks: Seq<Task>, state: TaskState)
    requires
        state != TaskState::Running,
    ensures
        count_running(finish_all_running(tasks, state)) == 0,
    decreases tasks.len(),
{
    if tasks.len() > 0 {
        lemma_none_running(tasks.drop_last(), state);
        assert(finish_all_running(tasks, state).drop_last() =~= finish_all_running(tasks.drop_last(), state));
    }
}

} // verus!
