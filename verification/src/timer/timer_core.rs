//! Timer-core
//! It is the core of the entire cycle scheduling task: the second hand, the
//! collection of the tasks that are due, and the placement of tasks on the
//! wheel.
use vstd::prelude::*;

use crate::entity::{
    task_marks_get, task_marks_insert, task_marks_remove, SharedHeader,
};
use crate::timer::runtime_trace::task_handle::{
    DelayTaskHandler, DelayTaskHandlerBox, DelayTaskHandlerBoxBuilder, HandleRecord,
};
use crate::timer::slot::{arrived, ticked};
use crate::timer::task::{next_exec_taken, Task, TaskMark, TaskView};

verus! {

/// The number of slots of the wheel: one turn of the second hand.
pub const DEFAULT_TIMER_SLOT_COUNT: u64 = 3600;

/// Why the core could not do what it was asked.
#[derive(Debug)]
pub enum TimerError {
    /// The task gives no next instant to run at.
    NoNextExecTimestamp(u64),
    /// No task mark is kept for the task.
    NoTaskMark(u64),
    /// The task is not in the slot its mark names.
    NoTask(u64),
    /// The wheel has no such slot.
    NoSlot(u64),
}

/// How far ahead a task is due: the seconds from `timestamp` to `next`, or
/// one second where `next` has already passed.
pub open spec fn step_of(next: u64, timestamp: u64) -> u64 {
    if next >= timestamp {
        (next - timestamp) as u64
    } else {
        1
    }
}

/// The slot a task lands in when it is due `step` seconds after the hand's
/// next position `next_second_hand`.
pub open spec fn slot_of(step: u64, next_second_hand: u64) -> u64 {
    ((step + next_second_hand) % (DEFAULT_TIMER_SLOT_COUNT as int)) as u64
}

/// The full turns of the hand before such a task is due.
pub open spec fn cylinder_of(step: u64) -> u64 {
    (step / DEFAULT_TIMER_SLOT_COUNT) as u64
}

/// How many ticks of the hand, counted from its next position, pass before
/// it meets a task in `slot` with `cylinder_line` turns left for the last
/// time.
pub open spec fn ticks_until_due(slot: u64, cylinder_line: u64, next_second_hand: u64) -> int {
    (slot - next_second_hand) % (DEFAULT_TIMER_SLOT_COUNT as int) + cylinder_line
        * DEFAULT_TIMER_SLOT_COUNT
}

/// The mark of a task after it was put in `slot`, with one more running
/// instance counted where `count_run` (saturating).
pub open spec fn marked(mark: TaskMark, slot: u64, count_run: bool) -> TaskMark {
    TaskMark {
        slot_mark: slot,
        parallel_runnable_num: if count_run && mark.parallel_runnable_num < u64::MAX {
            (mark.parallel_runnable_num + 1) as u64
        } else {
            mark.parallel_runnable_num
        },
        ..mark
    }
}

/// `new` is `old` with task `t` put in `slot` with `cylinder_line` turns
/// left (replacing a task of the same id there); no other slot changes.
pub open spec fn placed_in<R>(
    old: SharedHeader<R>,
    new: SharedHeader<R>,
    t: Task<R>,
    slot: u64,
    cylinder_line: u64,
) -> bool {
    &&& new.wheel_queue@.len() == old.wheel_queue@.len()
    &&& slot < old.wheel_queue@.len()
    &&& forall|i: int|
        0 <= i < old.wheel_queue@.len() && i != slot ==> #[trigger] new.slot(i) == old.slot(i)
    &&& new.slot(slot as int).contains_key(t@.task_id)
    &&& new.slot(slot as int)[t@.task_id]@ == (TaskView { cylinder_line, ..t@ })
    &&& new.slot(slot as int)[t@.task_id].spec_routine() == t.spec_routine()
    &&& new.slot(slot as int).remove(t@.task_id) == old.slot(slot as int).remove(t@.task_id)
}

/// What handling `task` at `timestamp` does: its next instant is taken; with
/// none, or with no mark kept for the task (it was removed), the task is let
/// go and nothing else changes; otherwise it goes to the slot and turns that
/// its step gives, and its mark records the slot and, where `count_run`, one
/// more running instance.
pub open spec fn task_handled<R>(
    old: SharedHeader<R>,
    new: SharedHeader<R>,
    task: Task<R>,
    timestamp: u64,
    next_second_hand: u64,
    count_run: bool,
    r: Result<(), TimerError>,
) -> bool {
    let id = task@.task_id;
    &&& new.same_clock(&old)
    &&& match r {
        Err(TimerError::NoNextExecTimestamp(e)) => {
            &&& e == id
            &&& exists|t: Task<R>| next_exec_taken(task, t, None)
            &&& new.wheel_queue@ == old.wheel_queue@
            &&& new.flags() == old.flags()
        },
        Err(TimerError::NoTaskMark(e)) => {
            &&& e == id
            &&& !old.flags().contains_key(id)
            &&& new.wheel_queue@ == old.wheel_queue@
            &&& new.flags() == old.flags()
        },
        Ok(()) => {
            &&& old.flags().contains_key(id)
            &&& exists|t: Task<R>, next: u64|
                next_exec_taken(task, t, Some(next)) && #[trigger] placed_in(
                    old,
                    new,
                    t,
                    slot_of(step_of(next, timestamp), next_second_hand),
                    cylinder_of(step_of(next, timestamp)),
                ) && new.flags() == old.flags().insert(
                    id,
                    marked(
                        old.flags()[id],
                        slot_of(step_of(next, timestamp), next_second_hand),
                        count_run,
                    ),
                )
        },
        Err(_) => false,
    }
}

/// What the core decided about a task that is due.
pub enum TaskAdmission<R> {
    /// Run the task now; its instance is recorded under this id.
    Run(Task<R>, i64),
    /// As many instances as allowed run already: the task went back to the
    /// wheel without running, with this outcome.
    Deferred(Result<(), TimerError>),
}

/// The ids of a sequence of tasks.
pub open spec fn task_ids<R>(tasks: Seq<Task<R>>) -> Seq<u64> {
    tasks.map_values(|t: Task<R>| t@.task_id)
}

/// What collecting the due tasks of the slot under the hand does: the hand
/// passes over the slot, the tasks that are due leave it and are given back
/// (as they were, once each), the others have one turn counted off; nothing
/// else changes.
pub open spec fn arrivals_collected<R>(
    old: SharedHeader<R>,
    new: SharedHeader<R>,
    r: Seq<Task<R>>,
) -> bool {
    let s = old.second_hand as int;
    &&& new.same_clock(&old)
    &&& new.id_generator == old.id_generator
    &&& new.flags() == old.flags()
    &&& new.wheel_queue@.len() == old.wheel_queue@.len()
    &&& forall|i: int|
        0 <= i < old.wheel_queue@.len() && i != s ==> #[trigger] new.slot(i) == old.slot(i)
    &&& forall|id: u64| #[trigger]
        new.slot(s).contains_key(id) <==> (old.slot(s).contains_key(id) && !arrived(
            old.slot(s)[id],
        ))
    &&& forall|id: u64| #[trigger]
        new.slot(s).contains_key(id) ==> ticked(old.slot(s)[id], new.slot(s)[id])
    &&& task_ids(r).no_duplicates()
    &&& forall|id: u64| #[trigger]
        task_ids(r).contains(id) <==> (old.slot(s).contains_key(id) && arrived(old.slot(s)[id]))
    &&& forall|k: int| 0 <= k < r.len() ==> #[trigger] r[k] == old.slot(s)[r[k]@.task_id]
}

/// The record of the instance of `task` run under `record_id` from
/// `timestamp`: its deadline is the start plus the maximum running time.
pub open spec fn run_record<R>(task: Task<R>, record_id: i64, timestamp: u64) -> HandleRecord {
    HandleRecord {
        task_id: task@.task_id,
        record_id,
        start_time: timestamp,
        end_time: match task@.maximum_running_time {
            Some(t) => Some((t + timestamp) as u64),
            None => None,
        },
        live: true,
    }
}

/// A task placed `step` seconds ahead of the hand's next position is met by
/// the hand for the last time (and so is due) after exactly `step` ticks.
pub proof fn lemma_placement_meets_step(step: u64, next_second_hand: u64)
    requires
        next_second_hand < DEFAULT_TIMER_SLOT_COUNT,
    ensures
        ticks_until_due(slot_of(step, next_second_hand), cylinder_of(step), next_second_hand)
            == step,
        slot_of(step, next_second_hand) < DEFAULT_TIMER_SLOT_COUNT,
{
    let m = DEFAULT_TIMER_SLOT_COUNT as int;
    let st = step as int;
    let n = next_second_hand as int;
    let s = (st + n) % m;
    assert((s - n) % m == st % m) by {
        vstd::arithmetic::div_mod::lemma_add_mod_noop(s, -n, m);
        vstd::arithmetic::div_mod::lemma_mod_twice(st + n, m);
        vstd::arithmetic::div_mod::lemma_add_mod_noop(st + n, -n, m);
    }
    vstd::arithmetic::div_mod::lemma_fundamental_div_mod(st, m);
    assert(cylinder_of(step) == st / m);
    assert((st / m) * m == m * (st / m)) by (nonlinear_arith);
}

/// Where the hand points after `k` ticks from `hand`.
pub open spec fn hand_after(hand: u64, k: nat) -> u64
    decreases k,
{
    if k == 0 {
        hand
    } else {
        ((hand_after(hand, (k - 1) as nat) + 1) % (DEFAULT_TIMER_SLOT_COUNT as int)) as u64
    }
}

/// After `k` ticks the hand points `k` slots further round the wheel.
proof fn lemma_hand_after(hand: u64, k: nat)
    requires
        hand < DEFAULT_TIMER_SLOT_COUNT,
    ensures
        hand_after(hand, k) == (hand + k) % (DEFAULT_TIMER_SLOT_COUNT as int),
    decreases k,
{
    let m = DEFAULT_TIMER_SLOT_COUNT as int;
    if k > 0 {
        lemma_hand_after(hand, (k - 1) as nat);
        vstd::arithmetic::div_mod::lemma_add_mod_noop(hand + k - 1, 1, m);
        vstd::arithmetic::div_mod::lemma_mod_twice(hand + k - 1, m);
        vstd::arithmetic::div_mod::lemma_small_mod(1, m as nat);
    } else {
        vstd::arithmetic::div_mod::lemma_small_mod(hand as nat, m as nat);
    }
}

/// After `k` ticks the hand points `k` slots further round the wheel: a full
/// turn of 3600 ticks brings it back where it was.
pub proof fn lemma_hand_turns(hand: u64, k: nat)
    requires
        hand < DEFAULT_TIMER_SLOT_COUNT,
    ensures
        hand_after(hand, k) == (hand + k) % (DEFAULT_TIMER_SLOT_COUNT as int),
        hand_after(hand, DEFAULT_TIMER_SLOT_COUNT as nat) == hand,
{
    let m = DEFAULT_TIMER_SLOT_COUNT as int;
    lemma_hand_after(hand, k);
    lemma_hand_after(hand, DEFAULT_TIMER_SLOT_COUNT as nat);
    vstd::arithmetic::div_mod::lemma_mod_add_multiples_vanish(hand as int, m);
    vstd::arithmetic::div_mod::lemma_small_mod(hand as nat, m as nat);
}

/// A task handed back to the wheel after its mark was removed is let go:
/// handling it fails and leaves every slot of the wheel as it was, so a
/// removed task never runs again.
pub proof fn lemma_unmarked_task_is_let_go<R>(
    old: SharedHeader<R>,
    new: SharedHeader<R>,
    task: Task<R>,
    timestamp: u64,
    next_second_hand: u64,
    count_run: bool,
    r: Result<(), TimerError>,
)
    requires
        task_handled(old, new, task, timestamp, next_second_hand, count_run, r),
        !old.flags().contains_key(task@.task_id),
    ensures
        r is Err,
        new.wheel_queue@ == old.wheel_queue@,
        forall|i: int| 0 <= i < old.wheel_queue@.len() ==> #[trigger] new.slot(i) == old.slot(i),
        new.flags() == old.flags(),
{
}

/// Handling a task depends on the wheel, the marks and the clock alone.
proof fn lemma_task_handled_frame<R>(
    a: SharedHeader<R>,
    b: SharedHeader<R>,
    new: SharedHeader<R>,
    task: Task<R>,
    timestamp: u64,
    next_second_hand: u64,
    count_run: bool,
    r: Result<(), TimerError>,
)
    requires
        a.wheel_queue@ == b.wheel_queue@,
        a.flags() == b.flags(),
        a.same_clock(&b),
        task_handled(a, new, task, timestamp, next_second_hand, count_run, r),
    ensures
        task_handled(b, new, task, timestamp, next_second_hand, count_run, r),
{
    match r {
        Ok(()) => {
            let id = task@.task_id;
            let (t, next) = choose|t: Task<R>, next: u64|
                next_exec_taken(task, t, Some(next)) && #[trigger] placed_in(
                    a,
                    new,
                    t,
                    slot_of(step_of(next, timestamp), next_second_hand),
                    cylinder_of(step_of(next, timestamp)),
                ) && new.flags() == a.flags().insert(
                    id,
                    marked(
                        a.flags()[id],
                        slot_of(step_of(next, timestamp), next_second_hand),
                        count_run,
                    ),
                );
            assert(placed_in(
                b,
                new,
                t,
                slot_of(step_of(next, timestamp), next_second_hand),
                cylinder_of(step_of(next, timestamp)),
            ));
        },
        _ => {},
    }
}

/// What deciding about a due task does: with a limit of parallel instances
/// and no mark to count against, the task is dropped with an error; with the
/// limit reached, it goes back to the wheel without running; otherwise it is
/// to run under `record_id`, and the core is left as it was.
pub open spec fn task_admitted<R>(
    old: SharedHeader<R>,
    new: SharedHeader<R>,
    task: Task<R>,
    timestamp: u64,
    next_second_hand: u64,
    record_id: i64,
    r: Result<TaskAdmission<R>, TimerError>,
) -> bool {
    let id = task@.task_id;
    let unchanged = new.wheel_queue@ == old.wheel_queue@ && new.flags() == old.flags();
    &&& new.same_clock(&old)
    &&& new.id_generator == old.id_generator
    &&& match task@.maximum_parallel_runnable_num {
        Some(m) => if !old.flags().contains_key(id) {
            (r matches Err(TimerError::NoTaskMark(e)) && e == id && unchanged)
        } else if old.flags()[id].parallel_runnable_num >= m {
            (r matches Ok(TaskAdmission::Deferred(res)) && task_handled(
                old,
                new,
                task,
                timestamp,
                next_second_hand,
                false,
                res,
            ))
        } else {
            (r matches Ok(TaskAdmission::Run(t, rid)) && t == task && rid == record_id
                && unchanged)
        },
        None => (r matches Ok(TaskAdmission::Run(t, rid)) && t == task && rid == record_id
            && unchanged),
    }
}

/// What recording the run of `task` under `record_id` does: the handle of
/// the instance is made with its deadline, one run is counted, and a task
/// that owes more runs goes back to the wheel with one more running instance
/// in its mark; the last run leaves the core as it was.
pub open spec fn run_recorded<R>(
    old: SharedHeader<R>,
    new: SharedHeader<R>,
    task: Task<R>,
    record_id: i64,
    timestamp: u64,
    next_second_hand: u64,
    r: (DelayTaskHandlerBox, Result<(), TimerError>),
) -> bool {
    &&& new.id_generator == old.id_generator
    &&& r.0@ == run_record(task, record_id, timestamp)
    &&& task@.frequency.down_counted().remaining() == Some(0u64) ==> {
        &&& r.1 is Ok
        &&& new == old
    }
    &&& task@.frequency.down_counted().remaining() != Some(0u64) ==> exists|t: Task<R>|
        #![trigger t@]
        t@ == (TaskView { frequency: task@.frequency.down_counted(), valid: true, ..task@ })
            && t.spec_routine() == task.spec_routine() && task_handled(
            old,
            new,
            t,
            timestamp,
            next_second_hand,
            true,
            r.1,
        )
}

/// One whole step for a due task that runs: it is let run only below its
/// limit of parallel instances, and once its run is recorded and it owes
/// more runs, its mark counts one more running instance and names the slot
/// that holds it again.
pub proof fn lemma_admitted_run_counts_one_more<R>(
    h0: SharedHeader<R>,
    h1: SharedHeader<R>,
    h2: SharedHeader<R>,
    task: Task<R>,
    timestamp: u64,
    next_second_hand: u64,
    admission: Result<TaskAdmission<R>, TimerError>,
    record_id: i64,
    recorded: (DelayTaskHandlerBox, Result<(), TimerError>),
)
    requires
        task_admitted(h0, h1, task, timestamp, next_second_hand, record_id, admission),
        admission is Ok,
        admission->Ok_0 is Run,
        run_recorded(h1, h2, task, record_id, timestamp, next_second_hand, recorded),
        task@.frequency.down_counted().remaining() != Some(0u64),
        recorded.1 is Ok,
        h0.flags().contains_key(task@.task_id) ==> h0.flags()[task@.task_id].parallel_runnable_num
            < u64::MAX,
    ensures
        task@.maximum_parallel_runnable_num matches Some(m) ==> h0.flags()[task@.task_id].parallel_runnable_num
            < m,
        h2.flags().contains_key(task@.task_id),
        h2.flags()[task@.task_id].parallel_runnable_num == h0.flags()[task@.task_id].parallel_runnable_num
            + 1,
        h2.slot(h2.flags()[task@.task_id].slot_mark as int).contains_key(task@.task_id),
{
    let id = task@.task_id;
    let t = choose|t: Task<R>|
        #![trigger t@]
        t@ == (TaskView { frequency: task@.frequency.down_counted(), valid: true, ..task@ })
            && t.spec_routine() == task.spec_routine() && task_handled(
            h1,
            h2,
            t,
            timestamp,
            next_second_hand,
            true,
            recorded.1,
        );
    assert(t@.task_id == id);
    let (u, next) = choose|u: Task<R>, next: u64|
        next_exec_taken(t, u, Some(next)) && #[trigger] placed_in(
            h1,
            h2,
            u,
            slot_of(step_of(next, timestamp), next_second_hand),
            cylinder_of(step_of(next, timestamp)),
        ) && h2.flags() == h1.flags().insert(
            id,
            marked(
                h1.flags()[id],
                slot_of(step_of(next, timestamp), next_second_hand),
                true,
            ),
        );
    assert(u@.task_id == id);
}

impl<R> SharedHeader<R> {
    /// Access to the second-hand.
    pub fn second_hand(&self) -> (r: u64)
        ensures
            r == self.second_hand,
    {
        self.second_hand
    }

    /// The slot after the one the hand points at.
    pub fn next_second_hand(&self) -> (r: u64)
        requires
            self.wf(),
        ensures
            r == (self.second_hand + 1) % (DEFAULT_TIMER_SLOT_COUNT as int),
    {
        (self.second_hand + 1) % DEFAULT_TIMER_SLOT_COUNT
    }

    /// Offset the current slot by one when reading it,
    /// so event_handle can be easily inserted into subsequent slots.
    pub fn next_position(&mut self) -> (r: u64)
        requires
            old(self).wf(),
        ensures
            final(self).wf(),
            r == old(self).second_hand,
            final(self).second_hand == (old(self).second_hand + 1) % (
            DEFAULT_TIMER_SLOT_COUNT as int),
            final(self).wheel_queue@ == old(self).wheel_queue@,
            final(self).flags() == old(self).flags(),
            final(self).global_time == old(self).global_time,
            final(self).shared_motivation == old(self).shared_motivation,
            final(self).id_generator == old(self).id_generator,
    {
        let current = self.second_hand;
        self.second_hand = (current + 1) % DEFAULT_TIMER_SLOT_COUNT;
        current
    }

    // Use `next_second_hand` to solve a problem
    // (when exec_timestamp - timestamp = 0, a task that needs to be executed immediately
    // is instead put on the next turn)
    /// Put a task back on the wheel at the slot of its next instant, and
    /// record that slot in its mark (with one more running instance where
    /// `update_runnable_num`). A task with no mark was removed meanwhile: it
    /// is let go, so that it never runs again.
    pub fn handle_task(
        &mut self,
        task: Task<R>,
        timestamp: u64,
        next_second_hand: u64,
        update_runnable_num: bool,
    ) -> (r: Result<(), TimerError>)
        requires
            old(self).wf(),
            task.wf(),
        ensures
            final(self).wf(),
            final(self).id_generator == old(self).id_generator,
            task_handled(
                *old(self),
                *final(self),
                task,
                timestamp,
                next_second_hand,
                update_runnable_num,
                r,
            ),
    {
        let ghost old_self = *self;
        let mut task = task;
        let ghost t0 = task;
        let task_id = task.task_id();
        // Next execute timestamp.
        let next_exec = task.get_next_exec_timestamp();
        let ghost t1 = task;
        let task_excute_timestamp = match next_exec {
            Some(t) => t,
            None => {
                assert(next_exec_taken(t0, t1, None));
                return Err(TimerError::NoNextExecTimestamp(task_id));
            },
        };
        // Time difference + next second hand % DEFAULT_TIMER_SLOT_COUNT
        let step: u64 = match task_excute_timestamp.checked_sub(timestamp) {
            Some(s) => s,
            None => 1,
        };
        let cylinder_line = step / DEFAULT_TIMER_SLOT_COUNT;
        task.set_cylinder_line(cylinder_line);
        let slot_seed = (step % DEFAULT_TIMER_SLOT_COUNT + next_second_hand % DEFAULT_TIMER_SLOT_COUNT)
            % DEFAULT_TIMER_SLOT_COUNT;
        proof {
            let m = DEFAULT_TIMER_SLOT_COUNT as int;
            vstd::arithmetic::div_mod::lemma_add_mod_noop(step as int, next_second_hand as int, m);
            assert(slot_seed == slot_of(step_of(task_excute_timestamp, timestamp), next_second_hand));
            assert(t1@.frequency.remaining() == t0@.frequency.remaining());
            assert(task.wf());
        }
        // A task whose mark is gone was removed: it is let go.
        let mut mark = match task_marks_remove(&mut self.task_flag_map, task_id) {
            Some(mark) => mark,
            None => {
                proof {
                    assert(self.flags() =~= old_self.flags());
                }
                return Err(TimerError::NoTaskMark(task_id));
            },
        };
        let ghost m0 = mark;
        let ghost t2 = task;
        self.wheel_queue[slot_seed as usize].add_task(task);
        proof {
            assert(self.slot(slot_seed as int) == old_self.slot(slot_seed as int).insert(task_id, t2));
            assert(self.slot(slot_seed as int).remove(task_id) =~= old_self.slot(
                slot_seed as int,
            ).remove(task_id));
            assert forall|i: int| 0 <= i < self.wheel_queue@.len() implies #[trigger] self.wheel_queue@[i].wf() by {
                if i != slot_seed {
                    assert(self.wheel_queue@[i] == old_self.wheel_queue@[i]);
                }
            }
        }
        mark.set_slot_mark(slot_seed);
        if update_runnable_num {
            mark.inc_parallel_runnable_num();
        }
        assert(mark == marked(m0, slot_seed, update_runnable_num));
        task_marks_insert(&mut self.task_flag_map, task_id, mark);
        proof {
            assert(self.flags() =~= old_self.flags().insert(
                task_id,
                marked(old_self.flags()[task_id], slot_seed, update_runnable_num),
            ));
            assert(placed_in(
                old_self,
                *self,
                t1,
                slot_of(step_of(task_excute_timestamp, timestamp), next_second_hand),
                cylinder_of(step_of(task_excute_timestamp, timestamp)),
            ));
        }
        Ok(())
    }

    /// Collect the tasks of the slot under the hand that are due, counting
    /// one turn off the others, and shrink the slot.
    pub fn collect_arrival_tasks(&mut self) -> (r: Vec<Task<R>>)
        requires
            old(self).wf(),
        ensures
            final(self).wf(),
            arrivals_collected(*old(self), *final(self), r@),
    {
        let ghost old_self = *self;
        let s = self.second_hand as usize;
        let ids = self.wheel_queue[s].arrival_time_tasks();
        let ghost mid = self.slot(s as int);
        let mut tasks: Vec<Task<R>> = Vec::new();
        let n = ids.len();
        for i in 0..n
            invariant
                n == ids@.len(),
                s == old_self.second_hand,
                s < DEFAULT_TIMER_SLOT_COUNT,
                old_self.wheel_queue@.len() == DEFAULT_TIMER_SLOT_COUNT,
                self.wheel_queue@.len() == old_self.wheel_queue@.len(),
                self.same_clock(&old_self),
                self.id_generator == old_self.id_generator,
                self.flags() == old_self.flags(),
                forall|j: int|
                    0 <= j < self.wheel_queue@.len() && j != s ==> #[trigger] self.wheel_queue@[j]
                        == old_self.wheel_queue@[j],
                self.wheel_queue@[s as int].wf(),
                self.slot(s as int) == mid.remove_keys(ids@.take(i as int).to_set()),
                ids@.no_duplicates(),
                forall|id: u64|
                    #![trigger ids@.contains(id)]
                    ids@.contains(id) ==> mid.contains_key(id),
                tasks@.len() == i,
                forall|k: int| 0 <= k < i ==> #[trigger] tasks@[k] == mid[ids@[k]],
                forall|k: int| 0 <= k < i ==> #[trigger] tasks@[k]@.task_id == ids@[k],
        {
            let id = ids[i];
            proof {
                assert(ids@.contains(id));
                assert(!ids@.take(i as int).to_set().contains(id)) by {
                    if ids@.take(i as int).contains(id) {
                        let j = choose|j: int| 0 <= j < i && ids@.take(i as int)[j] == id;
                        assert(ids@[j] == ids@[i as int]);
                    }
                }
                assert(ids@.take(i + 1) =~= ids@.take(i as int).push(id));
                assert forall|x: u64| ids@.take(i + 1).to_set().contains(x) == ids@.take(
                    i as int,
                ).to_set().insert(id).contains(x) by {
                    if ids@.take(i as int).contains(x) {
                        let j = choose|j: int| 0 <= j < i && ids@.take(i as int)[j] == x;
                        assert(ids@.take(i + 1)[j] == x);
                    }
                    let next_prefix = ids@.take(i + 1);
                    if next_prefix.contains(x) && x != id {
                        let j = choose|j: int| 0 <= j < next_prefix.len() && next_prefix[j] == x;
                        assert(j < i);
                        assert(ids@.take(i as int)[j] == x);
                    }
                    if x == id {
                        assert(ids@.take(i + 1)[i as int] == x);
                    }
                }
                assert(ids@.take(i + 1).to_set() =~= ids@.take(i as int).to_set().insert(id));
            }
            let removed = self.wheel_queue[s].remove_task(id);
            match removed {
                Some(t) => {
                    tasks.push(t);
                },
                None => {
                    assert(false);
                },
            }
            proof {
                assert(self.slot(s as int) =~= mid.remove_keys(ids@.take(i + 1).to_set()));
            }
        }
        self.wheel_queue[s].shrink();
        proof {
            assert(ids@.take(n as int) =~= ids@);
            let ss = s as int;
            assert forall|id: u64| #[trigger]
                self.slot(ss).contains_key(id) <==> (old_self.slot(ss).contains_key(id) && !arrived(
                    old_self.slot(ss)[id],
                )) by {
                if old_self.slot(ss).contains_key(id) && arrived(old_self.slot(ss)[id]) {
                    assert(ids@.to_set().contains(id));
                }
            }
            assert(task_ids(tasks@) =~= ids@);
            assert forall|k: int| 0 <= k < tasks@.len() implies #[trigger] tasks@[k] == old_self.slot(
                ss,
            )[tasks@[k]@.task_id] by {
                assert(ids@.contains(ids@[k]));
            }
            assert forall|i: int| 0 <= i < self.wheel_queue@.len() implies #[trigger] self.wheel_queue@[i].wf() by {
                if i != ss {
                    assert(self.wheel_queue@[i] == old_self.wheel_queue@[i]);
                }
            }
        }
        tasks
    }

    /// One tick of the scheduler at time `now`: while the timer runs, record
    /// `now` as the global time and collect the tasks that are due; once it
    /// was stopped, do nothing and give `None`.
    pub fn schedule_tick(&mut self, now: u64) -> (r: Option<Vec<Task<R>>>)
        requires
            old(self).wf(),
        ensures
            final(self).wf(),
            !old(self).shared_motivation ==> (r is None && *final(self) == *old(self)),
            old(self).shared_motivation ==> (r matches Some(tasks) && arrivals_collected(
                (SharedHeader { global_time: now, ..*old(self) }),
                *final(self),
                tasks@,
            )),
    {
        if !self.shared_motivation {
            return None;
        }
        self.global_time = now;
        Some(self.collect_arrival_tasks())
    }

    /// Decide what to do with a task that is due: with a limit of parallel
    /// instances that is reached, it goes back to the wheel without running;
    /// otherwise it is run under `record_id`, the fresh id of its instance. A
    /// limit with no mark to count against is an error, and the task is
    /// dropped.
    pub fn maintain_task(
        &mut self,
        task: Task<R>,
        timestamp: u64,
        next_second_hand: u64,
        record_id: i64,
    ) -> (r: Result<TaskAdmission<R>, TimerError>)
        requires
            old(self).wf(),
            task.wf(),
        ensures
            final(self).wf(),
            task_admitted(*old(self), *final(self), task, timestamp, next_second_hand, record_id, r),
    {
        let task_id: u64 = task.task_id();
        if let Some(maximum_parallel_runnable_num) = task.maximum_parallel_runnable_num() {
            let parallel_runnable_num: u64 = match task_marks_get(&self.task_flag_map, task_id) {
                Some((_, count)) => count,
                None => {
                    return Err(TimerError::NoTaskMark(task_id));
                },
            };
            // if runnable_task.parallel_runnable_num >= task.maximum_parallel_runnable_num doesn't run it.
            if parallel_runnable_num >= maximum_parallel_runnable_num {
                let ghost before = *self;
                let res = self.handle_task(task, timestamp, next_second_hand, false);
                proof {
                    assert(task_handled(before, *self, task, timestamp, next_second_hand, false, res));
                    assert(before.wheel_queue@ == old(self).wheel_queue@);
                    assert(before.flags() == old(self).flags());
                    lemma_task_handled_frame(
                        before,
                        *old(self),
                        *self,
                        task,
                        timestamp,
                        next_second_hand,
                        false,
                        res,
                    );
                }
                return Ok(TaskAdmission::Deferred(res));
            }
        }
        Ok(TaskAdmission::Run(task, record_id))
    }

    /// Record the run of a task under `record_id`, started at `timestamp`
    /// with `task_handler`: the handle of the instance is made (with its
    /// deadline), one run is counted, and a task that owes more runs goes back
    /// to the wheel with one more running instance in its mark.
    pub fn record_task_run(
        &mut self,
        task: Task<R>,
        record_id: i64,
        task_handler: Box<dyn DelayTaskHandler>,
        timestamp: u64,
        next_second_hand: u64,
    ) -> (r: (DelayTaskHandlerBox, Result<(), TimerError>))
        requires
            old(self).wf(),
            task@.frequency.remaining() != Some(0u64),
            task@.maximum_running_time matches Some(t) ==> t + timestamp <= u64::MAX,
        ensures
            final(self).wf(),
            run_recorded(*old(self), *final(self), task, record_id, timestamp, next_second_hand, r),
    {
        let ghost task0 = task;
        let mut task = task;
        let task_id = task.task_id();
        let tmp_task_handler_box = DelayTaskHandlerBoxBuilder::default().set_task_id(
            task_id,
        ).set_record_id(record_id).set_start_time(timestamp).set_end_time(
            task.get_maximum_running_time(timestamp),
        ).spawn(task_handler);
        let task_valid = task.down_count_and_set_vaild();
        if !task_valid {
            return (tmp_task_handler_box, Ok(()));
        }
        let ghost t = task;
        let res = self.handle_task(task, timestamp, next_second_hand, true);
        proof {
            assert(t@ == (TaskView {
                frequency: task0@.frequency.down_counted(),
                valid: true,
                ..task0@
            }));
        }
        (tmp_task_handler_box, res)
    }
}

} // verus!
