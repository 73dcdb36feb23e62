//! A woker for handle events.
//!
//! # EventHandle
//!
//! This is an important entry point to control the flow of tasks:
//!
//! 1. Branch of different mandated events.
//! 2. A communication center for internal and external workers.
use vstd::prelude::*;

use crate::entity::{task_marks_get, task_marks_insert, task_marks_remove, SharedHeader};
use crate::timer::runtime_trace::state;
use crate::timer::runtime_trace::sweeper::RecycleUnit;
use crate::timer::runtime_trace::task_handle::{
    handler_quit, DelayTaskHandlerBox, HandleRecord, TaskTrace, TaskTraceError,
};
use crate::timer::runtime_trace::task_instance::{Instance, TaskInstancesChainMaintainer};
use crate::timer::task::{cancel_notified, next_exec_taken, Task, TaskMark, TaskMarkError, TaskView};
use crate::utils::status_report::{is_public_event, public_event_of, PublicEvent};
use crate::timer::timer_core::{
    marked, placed_in, task_handled, ticks_until_due, TimerError, DEFAULT_TIMER_SLOT_COUNT,
};

verus! {

/// The information generated when completing a task.
#[derive(Debug, Clone)]
pub struct FinishTaskBody<O> {
    /// The id of the task.
    pub task_id: u64,
    /// The id of the finished record.
    pub record_id: i64,
    /// When the record finished.
    pub finish_time: u64,
    /// What the run gave, if anything.
    pub finish_output: Option<O>,
}

/// Event for Timer Wheel Core.
pub enum TimerEvent<R, O> {
    /// Stop the Timer.
    StopTimer,
    /// Add a new `Task`.
    AddTask(Box<Task<R>>),
    /// Insert a new `Task`.
    /// Maintain a state that is transparent to the user, such as the end of a task running instance.
    InsertTask(Box<Task<R>>, TaskInstancesChainMaintainer),
    /// Update a Task in Timer .
    UpdateTask(Box<Task<R>>),
    /// Remove a Task in Timer .
    RemoveTask(u64),
    /// Cancel a Task running instance in Timer .
    CancelTask(u64, i64),
    /// Cancel a timeout Task running instance in Timer .
    TimeoutTask(u64, i64),
    /// Finished a Task running instance in Timer .
    FinishTask(FinishTaskBody<O>),
    /// Append a new instance of a running task .
    AppendTaskHandle(u64, DelayTaskHandlerBox),
    /// Take the initiative to perform once Task.
    AdvanceTask(u64),
}

/// Why an event could not be handled.
#[derive(Debug)]
pub enum EventHandleError {
    /// The wheel could not do it.
    Timer(TimerError),
    /// The running instance could not be quit.
    Trace(TaskTraceError),
    /// The end of the running instance could not be reported.
    Mark(TaskMarkError),
    /// No task mark for the cancelled instance: task id, record id, state.
    NoTaskMark(u64, i64, usize),
}

/// How far ahead a newly added task is due: the seconds from the global time
/// to its next instant, or, where that instant has passed, a spread of the
/// task by its id.
pub open spec fn add_delay(next: u64, global_time: u64, task_id: u64) -> u64 {
    if next >= global_time {
        (next - global_time) as u64
    } else {
        (task_id % DEFAULT_TIMER_SLOT_COUNT) as u64
    }
}

/// The slot of a newly added task, counted from the slot after the hand.
pub open spec fn add_slot(delay: u64, second_hand: u64) -> u64 {
    ((delay + second_hand + 1) % (DEFAULT_TIMER_SLOT_COUNT as int)) as u64
}

/// The full turns of the hand before a newly added task is due: those of
/// its delay, wherever the hand stands.
pub open spec fn add_cylinder(delay: u64) -> u64 {
    (delay / DEFAULT_TIMER_SLOT_COUNT) as u64
}

/// The mark of a task just put in `slot`, with no running instance.
pub open spec fn fresh_mark(task_id: u64, slot: u64) -> TaskMark {
    TaskMark {
        task_id,
        slot_mark: slot,
        parallel_runnable_num: 0,
        task_instances_chain_maintainer: None,
    }
}

/// What adding `task` does: its next instant is taken; with none, nothing
/// else changes; otherwise it goes to the slot and turns its delay gives,
/// and its fresh mark is given back. The marks do not change.
pub open spec fn task_added<R>(
    old: SharedHeader<R>,
    new: SharedHeader<R>,
    task: Task<R>,
    r: Result<TaskMark, TimerError>,
) -> bool {
    let id = task@.task_id;
    &&& new.same_clock(&old)
    &&& new.id_generator == old.id_generator
    &&& new.flags() == old.flags()
    &&& match r {
        Err(TimerError::NoNextExecTimestamp(e)) => {
            &&& e == id
            &&& exists|t: Task<R>| next_exec_taken(task, t, None)
            &&& new.wheel_queue@ == old.wheel_queue@
        },
        Ok(mark) => exists|t: Task<R>, next: u64|
            next_exec_taken(task, t, Some(next)) && #[trigger] placed_in(
                old,
                new,
                t,
                add_slot(add_delay(next, old.global_time, id), old.second_hand),
                add_cylinder(add_delay(next, old.global_time, id)),
            ) && mark == fresh_mark(
                id,
                add_slot(add_delay(next, old.global_time, id), old.second_hand),
            ),
        Err(_) => false,
    }
}

/// `new` is `old` with `mark` recorded for its task.
pub open spec fn mark_recorded<R>(old: SharedHeader<R>, new: SharedHeader<R>, mark: TaskMark) -> bool {
    &&& new.same_clock(&old)
    &&& new.id_generator == old.id_generator
    &&& new.wheel_queue@ == old.wheel_queue@
    &&& new.flags() == old.flags().insert(mark.task_id, mark)
}

/// Only the tasks of slot `m` may differ between `old` and `new`.
pub open spec fn other_slots_kept<R>(old: SharedHeader<R>, new: SharedHeader<R>, m: int) -> bool {
    &&& new.wheel_queue@.len() == old.wheel_queue@.len()
    &&& forall|i: int|
        0 <= i < old.wheel_queue@.len() && i != m ==> #[trigger] new.slot(i) == old.slot(i)
}

/// `old` and `new` hold the same tasks in every slot.
pub open spec fn same_tasks<R>(old: SharedHeader<R>, new: SharedHeader<R>) -> bool {
    &&& new.wheel_queue@.len() == old.wheel_queue@.len()
    &&& forall|i: int| 0 <= i < old.wheel_queue@.len() ==> #[trigger] new.slot(i) == old.slot(i)
}

/// What updating `task` does: where its mark names a slot of the wheel, the
/// task is put there (the version it replaces is given back); otherwise
/// nothing changes.
pub open spec fn task_updated<R>(
    old: SharedHeader<R>,
    new: SharedHeader<R>,
    task: Task<R>,
    r: Option<Task<R>>,
) -> bool {
    let id = task@.task_id;
    &&& new.same_clock(&old)
    &&& new.id_generator == old.id_generator
    &&& new.flags() == old.flags()
    &&& if old.flags().contains_key(id) && old.flags()[id].slot_mark < DEFAULT_TIMER_SLOT_COUNT {
        let m = old.flags()[id].slot_mark as int;
        &&& other_slots_kept(old, new, m)
        &&& new.slot(m) == old.slot(m).insert(id, task)
        &&& r == old.slot(m).get(id)
    } else {
        &&& r is None
        &&& new.wheel_queue@ == old.wheel_queue@
    }
}

/// What advancing task `task_id` does: the task is taken from the slot its
/// mark names and, with no turns left, put in the slot after the hand, and
/// its mark follows it there; the error says what was missing.
pub open spec fn task_advanced<R>(
    old: SharedHeader<R>,
    new: SharedHeader<R>,
    task_id: u64,
    r: Result<(), TimerError>,
) -> bool {
    let m = old.flags()[task_id].slot_mark;
    let next = (old.second_hand + 1) % (DEFAULT_TIMER_SLOT_COUNT as int);
    &&& new.same_clock(&old)
    &&& new.id_generator == old.id_generator
    &&& if !old.flags().contains_key(task_id) {
        &&& r matches Err(TimerError::NoTaskMark(e)) && e == task_id
        &&& new.wheel_queue@ == old.wheel_queue@
        &&& new.flags() == old.flags()
    } else if m >= DEFAULT_TIMER_SLOT_COUNT || !old.slot(m as int).contains_key(task_id) {
        &&& r matches Err(TimerError::NoTask(e)) && e == task_id
        &&& same_tasks(old, new)
        &&& new.flags() == old.flags()
    } else {
        let t = old.slot(m as int)[task_id];
        &&& r is Ok
        &&& new.flags() == old.flags().insert(
            task_id,
            TaskMark { slot_mark: next as u64, ..old.flags()[task_id] },
        )
        &&& new.wheel_queue@.len() == old.wheel_queue@.len()
        &&& forall|i: int|
            0 <= i < old.wheel_queue@.len() && i != m && i != next ==> #[trigger] new.slot(i)
                == old.slot(i)
        &&& m != next ==> new.slot(m as int) == old.slot(m as int).remove(task_id)
        &&& new.slot(next).remove(task_id) == old.slot(next).remove(task_id)
        &&& new.slot(next).contains_key(task_id)
        &&& new.slot(next)[task_id]@ == (TaskView { cylinder_line: 0, ..t@ })
        &&& new.slot(next)[task_id].spec_routine() == t.spec_routine()
    }
}

/// What removing task `task_id` from the wheel does: it leaves the slot its
/// mark names; the error says what was missing.
pub open spec fn task_removed<R>(
    old: SharedHeader<R>,
    new: SharedHeader<R>,
    task_id: u64,
    r: Result<(), TimerError>,
) -> bool {
    let m = old.flags()[task_id].slot_mark;
    &&& new.same_clock(&old)
    &&& new.id_generator == old.id_generator
    &&& new.flags() == old.flags()
    &&& if !old.flags().contains_key(task_id) {
        r matches Err(TimerError::NoTaskMark(e)) && e == task_id && new.wheel_queue@
            == old.wheel_queue@
    } else if m >= DEFAULT_TIMER_SLOT_COUNT {
        r matches Err(TimerError::NoSlot(e)) && e == m && new.wheel_queue@ == old.wheel_queue@
    } else {
        &&& r is Ok
        &&& other_slots_kept(old, new, m as int)
        &&& new.slot(m as int) == old.slot(m as int).remove(task_id)
    }
}

/// A count of running instances less one, staying at zero.
pub open spec fn count_down_runs(mark: TaskMark) -> TaskMark {
    TaskMark {
        parallel_runnable_num: if mark.parallel_runnable_num > 0 {
            (mark.parallel_runnable_num - 1) as u64
        } else {
            0
        },
        ..mark
    }
}

/// `new` is `old` with the mark of `task_id` changed alone.
pub open spec fn only_mark_changed<R>(old: SharedHeader<R>, new: SharedHeader<R>, task_id: u64) -> bool {
    &&& new.same_clock(&old)
    &&& new.id_generator == old.id_generator
    &&& new.wheel_queue@ == old.wheel_queue@
    &&& new.flags().contains_key(task_id)
    &&& new.flags().remove(task_id) == old.flags().remove(task_id)
}

/// What cancelling the running instance `record_id` of task `task_id` (in
/// `state`) does: its handler is quit; where that fails, the error is given
/// back (or, where the cancellation is not `initiative`, `false`); then the
/// task's mark counts one running instance less and, where it keeps a chain,
/// reports the end of the instance. Without a mark, an `initiative`
/// cancellation fails and another one gives `false`.
pub open spec fn instance_cancelled<R>(
    old_trace: Map<u64, Seq<HandleRecord>>,
    new_trace: Map<u64, Seq<HandleRecord>>,
    old: SharedHeader<R>,
    new: SharedHeader<R>,
    task_id: u64,
    record_id: i64,
    state: usize,
    initiative: bool,
    r: Result<bool, EventHandleError>,
) -> bool {
    exists|rt: Result<(), TaskTraceError>|
        #[trigger] handler_quit(old_trace, new_trace, task_id, record_id, rt) && match rt {
            Err(e) => new == old && r == (if initiative {
                Err::<bool, EventHandleError>(EventHandleError::Trace(e))
            } else {
                Ok(false)
            }),
            Ok(()) => if !old.flags().contains_key(task_id) {
                new == old && r == (if initiative {
                    Err::<bool, EventHandleError>(
                        EventHandleError::NoTaskMark(task_id, record_id, state),
                    )
                } else {
                    Ok(false)
                })
            } else {
                let m1 = count_down_runs(old.flags()[task_id]);
                &&& only_mark_changed(old, new, task_id)
                &&& if m1.task_instances_chain_maintainer is None {
                    new.flags()[task_id] == m1 && r == Ok::<bool, EventHandleError>(true)
                } else {
                    exists|rn: Result<Instance, TaskMarkError>|
                        #[trigger] cancel_notified(m1, new.flags()[task_id], record_id, state, rn)
                            && r == match rn {
                            Ok(_) => Ok::<bool, EventHandleError>(true),
                            Err(e) => Err(EventHandleError::Mark(e)),
                        }
                }
            },
        }
}

/// What the end of the running instance `record_id` of task `task_id` does:
/// its handler must be quit (else the error is given back); then the task's
/// mark counts one running instance less, whatever follows, and, where it
/// keeps a chain, reports the end of the instance (whose error is given
/// back).
pub open spec fn instance_finished<R>(
    old_trace: Map<u64, Seq<HandleRecord>>,
    new_trace: Map<u64, Seq<HandleRecord>>,
    old: SharedHeader<R>,
    new: SharedHeader<R>,
    task_id: u64,
    record_id: i64,
    r: Result<bool, EventHandleError>,
) -> bool {
    exists|rt: Result<(), TaskTraceError>|
        #[trigger] handler_quit(old_trace, new_trace, task_id, record_id, rt) && match rt {
            Err(e) => new == old && r == Err::<bool, EventHandleError>(EventHandleError::Trace(e)),
            Ok(()) => if !old.flags().contains_key(task_id) {
                new == old && r == Ok::<bool, EventHandleError>(true)
            } else {
                let m1 = count_down_runs(old.flags()[task_id]);
                &&& only_mark_changed(old, new, task_id)
                &&& if m1.task_instances_chain_maintainer is None {
                    new.flags()[task_id] == m1 && r == Ok::<bool, EventHandleError>(true)
                } else {
                    exists|rn: Result<Instance, TaskMarkError>|
                        #[trigger] cancel_notified(
                            m1,
                            new.flags()[task_id],
                            record_id,
                            state::instance::COMPLETED,
                            rn,
                        ) && r == match rn {
                            Ok(_) => Ok::<bool, EventHandleError>(true),
                            Err(e) => Err(EventHandleError::Mark(e)),
                        }
                }
            },
        }
}

impl<R> SharedHeader<R> {
    // Add task to wheel_queue  slot
    /// Put a new task on the wheel, in the slot its next instant gives
    /// (counted from the slot after the hand), and give its fresh mark.
    pub fn add_task(&mut self, task: Task<R>) -> (r: Result<TaskMark, TimerError>)
        requires
            old(self).wf(),
            task.wf(),
        ensures
            final(self).wf(),
            task_added(*old(self), *final(self), task, r),
    {
        let ghost old_self = *self;
        let second_hand = self.second_hand;
        let mut task = task;
        let ghost t0 = task;
        let task_id = task.task_id();
        let next_exec = task.get_next_exec_timestamp();
        let ghost t1 = task;
        let exec_time: u64 = match next_exec {
            Some(t) => t,
            None => {
                assert(next_exec_taken(t0, t1, None));
                return Err(TimerError::NoNextExecTimestamp(task_id));
            },
        };
        let timestamp = self.global_time;
        // Put task on next slot.
        let delay: u64 = match exec_time.checked_sub(timestamp) {
            Some(d) => d,
            None => task_id % DEFAULT_TIMER_SLOT_COUNT,
        };
        let low = delay % DEFAULT_TIMER_SLOT_COUNT + second_hand + 1;
        let slot_seed: u64 = low % DEFAULT_TIMER_SLOT_COUNT;
        let cylinder_line = delay / DEFAULT_TIMER_SLOT_COUNT;
        proof {
            lemma_add_seed(delay, second_hand);
            assert(delay == add_delay(exec_time, old_self.global_time, task_id));
            assert(t1@.frequency.remaining() == t0@.frequency.remaining());
        }
        task.set_cylinder_line(cylinder_line);
        let ghost t2 = task;
        self.wheel_queue[slot_seed as usize].add_task(task);
        proof {
            assert(self.slot(slot_seed as int) == old_self.slot(slot_seed as int).insert(task_id, t2));
            assert(self.slot(slot_seed as int).remove(task_id) =~= old_self.slot(
                slot_seed as int,
            ).remove(task_id));
            assert forall|i: int| 0 <= i < self.wheel_queue@.len() implies #[trigger] self.wheel_queue@[i].wf() by {
                if i != slot_seed {
                    assert(self.wheel_queue@[i] == old_self.wheel_queue@[i]);
                }
            }
            assert(placed_in(
                old_self,
                *self,
                t1,
                add_slot(add_delay(exec_time, old_self.global_time, task_id), second_hand),
                add_cylinder(add_delay(exec_time, old_self.global_time, task_id)),
            ));
        }
        let mut task_mark = TaskMark::default();
        task_mark.set_task_id(task_id).set_slot_mark(slot_seed).set_parallel_runnable_num(0);
        Ok(task_mark)
    }

    // for record task-mark.
    /// Record the mark of a task; a mark it replaces is let go.
    pub fn record_task_mark(&mut self, task_mark: TaskMark)
        ensures
            mark_recorded(*old(self), *final(self), task_mark),
    {
        let task_id = task_mark.task_id;
        if let Some(replaced) = task_marks_insert(&mut self.task_flag_map, task_id, task_mark) {
            replaced.abandon_chain();
        }
    }

    // for update task.
    /// Put the new version of a task in the slot its mark names, giving back
    /// the version it replaces.
    pub fn update_task(&mut self, task: Task<R>) -> (r: Option<Task<R>>)
        requires
            old(self).wf(),
            task.wf(),
        ensures
            final(self).wf(),
            task_updated(*old(self), *final(self), task, r),
    {
        let ghost old_self = *self;
        let task_id = task.task_id();
        let slot_mark = match task_marks_get(&self.task_flag_map, task_id) {
            Some((slot, _)) => slot,
            None => {
                return None;
            },
        };
        if slot_mark < DEFAULT_TIMER_SLOT_COUNT {
            let r = self.wheel_queue[slot_mark as usize].update_task(task);
            proof {
                assert forall|i: int| 0 <= i < self.wheel_queue@.len() implies #[trigger] self.wheel_queue@[i].wf() by {
                    if i != slot_mark {
                        assert(self.wheel_queue@[i] == old_self.wheel_queue@[i]);
                    }
                }
            }
            return r;
        }
        None
    }

    // Take the initiative to perform once Task.
    /// Make a task due at the next tick: it is taken from its slot and put,
    /// with no turns left, in the slot after the hand (the first slot where
    /// the hand stands on the last one); its mark follows it.
    pub fn advance_task(&mut self, task_id: u64) -> (r: Result<(), TimerError>)
        requires
            old(self).wf(),
        ensures
            final(self).wf(),
            task_advanced(*old(self), *final(self), task_id, r),
    {
        let ghost old_self = *self;
        let slot_mark = match task_marks_get(&self.task_flag_map, task_id) {
            Some((slot, _)) => slot,
            None => {
                return Err(TimerError::NoTaskMark(task_id));
            },
        };
        if slot_mark >= DEFAULT_TIMER_SLOT_COUNT {
            return Err(TimerError::NoTask(task_id));
        }
        let mut task = match self.wheel_queue[slot_mark as usize].remove_task(task_id) {
            Some(t) => t,
            None => {
                proof {
                    assert(self.slot(slot_mark as int) =~= old_self.slot(slot_mark as int));
                    assert forall|i: int| 0 <= i < self.wheel_queue@.len() implies #[trigger] self.wheel_queue@[i].wf() by {
                        if i != slot_mark {
                            assert(self.wheel_queue@[i] == old_self.wheel_queue@[i]);
                        }
                    }
                }
                return Err(TimerError::NoTask(task_id));
            },
        };
        let ghost mid = *self;
        proof {
            assert forall|i: int| 0 <= i < self.wheel_queue@.len() implies #[trigger] self.wheel_queue@[i].wf() by {
                if i != slot_mark {
                    assert(self.wheel_queue@[i] == old_self.wheel_queue@[i]);
                }
            }
        }
        task.clear_cylinder_line();
        let slot_seed = (self.second_hand + 1) % DEFAULT_TIMER_SLOT_COUNT;
        let ghost t = task;
        self.wheel_queue[slot_seed as usize].add_task(task);
        proof {
            assert(self.slot(slot_seed as int) == mid.slot(slot_seed as int).insert(task_id, t));
            assert(self.slot(slot_seed as int).remove(task_id) =~= mid.slot(
                slot_seed as int,
            ).remove(task_id));
            if slot_mark == slot_seed {
                assert(mid.slot(slot_seed as int).remove(task_id) =~= old_self.slot(
                    slot_seed as int,
                ).remove(task_id));
            } else {
                assert(mid.slot(slot_seed as int) == old_self.slot(slot_seed as int));
            }
            assert forall|i: int| 0 <= i < self.wheel_queue@.len() implies #[trigger] self.wheel_queue@[i].wf() by {
                if i != slot_seed {
                    assert(self.wheel_queue@[i] == mid.wheel_queue@[i]);
                }
            }
        }
        // The mark follows the task to its new slot.
        if let Some(mut mark) = task_marks_remove(&mut self.task_flag_map, task_id) {
            mark.set_slot_mark(slot_seed);
            task_marks_insert(&mut self.task_flag_map, task_id, mark);
        }
        proof {
            assert(self.flags() =~= old_self.flags().insert(
                task_id,
                TaskMark { slot_mark: slot_seed, ..old_self.flags()[task_id] },
            ));
        }
        Ok(())
    }

    // for remove task.
    /// Take a task off the wheel, from the slot its mark names.
    pub fn remove_task(&mut self, task_id: u64) -> (r: Result<(), TimerError>)
        requires
            old(self).wf(),
        ensures
            final(self).wf(),
            task_removed(*old(self), *final(self), task_id, r),
    {
        let ghost old_self = *self;
        let slot_mark = match task_marks_get(&self.task_flag_map, task_id) {
            Some((slot, _)) => slot,
            None => {
                return Err(TimerError::NoTaskMark(task_id));
            },
        };
        if slot_mark < DEFAULT_TIMER_SLOT_COUNT {
            let _ = self.wheel_queue[slot_mark as usize].remove_task(task_id);
            proof {
                assert forall|i: int| 0 <= i < self.wheel_queue@.len() implies #[trigger] self.wheel_queue@[i].wf() by {
                    if i != slot_mark {
                        assert(self.wheel_queue@[i] == old_self.wheel_queue@[i]);
                    }
                }
            }
            return Ok(());
        }
        Err(TimerError::NoSlot(slot_mark))
    }
}

/// The slot of a newly added task, computed without overflow, is the one
/// its full delay gives, counted from the slot after the hand.
proof fn lemma_add_seed(delay: u64, second_hand: u64)
    requires
        second_hand < DEFAULT_TIMER_SLOT_COUNT,
    ensures
        (delay % DEFAULT_TIMER_SLOT_COUNT + second_hand + 1) % (DEFAULT_TIMER_SLOT_COUNT as int)
            == add_slot(delay, second_hand),
{
    let m = DEFAULT_TIMER_SLOT_COUNT as int;
    vstd::arithmetic::div_mod::lemma_add_mod_noop(delay as int, second_hand + 1, m);
    vstd::arithmetic::div_mod::lemma_add_mod_noop(
        (delay % DEFAULT_TIMER_SLOT_COUNT) as int,
        second_hand + 1,
        m,
    );
    vstd::arithmetic::div_mod::lemma_mod_twice(delay as int, m);
}

/// New a instance of EventHandle: it keeps the handles of the running task
/// instances, so that they can be cancelled.
pub struct EventHandle {
    /// Task Handle Collector, which makes it easy to cancel a running task.
    pub task_trace: TaskTrace,
}

/// What keeping the handle of a new running instance of task `task_id`
/// does to the marks: where the task's mark keeps a chain (one the user has
/// not dropped), the instance is handed to it; nothing else changes.
pub open spec fn instance_appended<R>(
    old: SharedHeader<R>,
    new: SharedHeader<R>,
    task_id: u64,
    record_id: i64,
) -> bool {
    if !old.flags().contains_key(task_id) {
        &&& new.same_clock(&old)
        &&& new.id_generator == old.id_generator
        &&& new.wheel_queue@ == old.wheel_queue@
        &&& new.flags() == old.flags()
    } else {
        let m0 = old.flags()[task_id];
        let m1 = new.flags()[task_id];
        &&& only_mark_changed(old, new, task_id)
        &&& m1.task_id == m0.task_id
        &&& m1.slot_mark == m0.slot_mark
        &&& m1.parallel_runnable_num == m0.parallel_runnable_num
        &&& match m1.task_instances_chain_maintainer {
            Some(c1) => m0.task_instances_chain_maintainer matches Some(c0) && exists|i: Instance|
                #![trigger c0.instances().push(i)]
                c1.instances() == c0.instances().push(i) && i.spec_task_id() == task_id
                    && i.spec_record_id() == record_id,
            None => true,
        }
    }
}

/// The recycle unit of a running instance: it times the instance out at its
/// deadline, if it has one.
pub open spec fn recycle_unit_of(record: HandleRecord) -> Option<RecycleUnit> {
    match record.end_time {
        Some(deadline) => Some(
            RecycleUnit { deadline, task_id: record.task_id, record_id: record.record_id },
        ),
        None => None,
    }
}

/// The tasks an event carries are well formed.
pub open spec fn event_wf<R, O>(event: TimerEvent<R, O>) -> bool {
    match event {
        TimerEvent::AddTask(task) => task.wf(),
        TimerEvent::InsertTask(task, _) => task.wf(),
        TimerEvent::UpdateTask(task) => task.wf(),
        _ => true,
    }
}

/// An outcome of the wheel as the outcome of an event.
pub open spec fn as_event_outcome(r: Result<(), TimerError>) -> Result<bool, EventHandleError> {
    match r {
        Ok(()) => Ok(true),
        Err(e) => Err(EventHandleError::Timer(e)),
    }
}

/// What handling `event` does to the event handle and the shared core, and
/// gives: whether it was handled (and is to be reported outside), and the
/// recycle unit of a new running instance with a deadline.
pub open spec fn event_dispatched<R, O>(
    old_handle: EventHandle,
    new_handle: EventHandle,
    old: SharedHeader<R>,
    new: SharedHeader<R>,
    event: TimerEvent<R, O>,
    r: (Result<bool, EventHandleError>, Option<RecycleUnit>),
) -> bool {
    let old_trace = old_handle.task_trace.lists();
    let new_trace = new_handle.task_trace.lists();
    match event {
        TimerEvent::StopTimer => {
            &&& new_trace == old_trace
            &&& r.0 == Ok::<bool, EventHandleError>(true) && r.1 is None
            &&& !new.shared_motivation
            &&& new.second_hand == old.second_hand
            &&& new.global_time == old.global_time
            &&& new.id_generator == old.id_generator
            &&& new.wheel_queue@ == old.wheel_queue@
            &&& new.flags() == old.flags()
        },
        TimerEvent::AddTask(task) => {
            &&& new_trace == old_trace
            &&& r.1 is None
            &&& exists|h: SharedHeader<R>, added: Result<TaskMark, TimerError>|
                #[trigger] task_added(old, h, *task, added) && match added {
                    Ok(mark) => mark_recorded(h, new, mark) && r.0 == Ok::<
                        bool,
                        EventHandleError,
                    >(true),
                    Err(e) => new == h && r.0 == Err::<bool, EventHandleError>(
                        EventHandleError::Timer(e),
                    ),
                }
        },
        TimerEvent::InsertTask(task, chain) => {
            &&& new_trace == old_trace
            &&& r.1 is None
            &&& exists|h: SharedHeader<R>, added: Result<TaskMark, TimerError>|
                #[trigger] task_added(old, h, *task, added) && match added {
                    Ok(mark) => mark_recorded(
                        h,
                        new,
                        TaskMark { task_instances_chain_maintainer: Some(chain), ..mark },
                    ) && r.0 == Ok::<bool, EventHandleError>(true),
                    Err(e) => new == h && r.0 == Err::<bool, EventHandleError>(
                        EventHandleError::Timer(e),
                    ),
                }
        },
        TimerEvent::UpdateTask(task) => {
            &&& new_trace == old_trace
            &&& r.0 == Ok::<bool, EventHandleError>(true) && r.1 is None
            &&& exists|replaced: Option<Task<R>>| #[trigger] task_updated(old, new, *task, replaced)
        },
        TimerEvent::AdvanceTask(task_id) => {
            &&& new_trace == old_trace
            &&& r.1 is None
            &&& exists|advanced: Result<(), TimerError>|
                #[trigger] task_advanced(old, new, task_id, advanced) && r.0 == as_event_outcome(
                    advanced,
                )
        },
        TimerEvent::RemoveTask(task_id) => {
            &&& new_trace == old_trace
            &&& r.1 is None
            &&& exists|h: SharedHeader<R>, removed: Result<(), TimerError>|
                #[trigger] task_removed(old, h, task_id, removed) && r.0 == as_event_outcome(removed)
                    && new.same_clock(&h) && new.id_generator == h.id_generator
                    && new.wheel_queue@ == h.wheel_queue@ && new.flags() == h.flags().remove(
                    task_id,
                )
        },
        TimerEvent::CancelTask(task_id, record_id) => {
            &&& r.1 is None
            &&& instance_cancelled(
                old_trace,
                new_trace,
                old,
                new,
                task_id,
                record_id,
                state::instance::CANCELLED,
                true,
                r.0,
            )
        },
        TimerEvent::TimeoutTask(task_id, record_id) => {
            &&& r.1 is None
            &&& instance_cancelled(
                old_trace,
                new_trace,
                old,
                new,
                task_id,
                record_id,
                state::instance::TIMEOUT,
                false,
                r.0,
            )
        },
        TimerEvent::FinishTask(body) => {
            &&& r.1 is None
            &&& instance_finished(
                old_trace,
                new_trace,
                old,
                new,
                body.task_id,
                body.record_id,
                r.0,
            )
        },
        TimerEvent::AppendTaskHandle(task_id, handle) => {
            &&& r.0 == Ok::<bool, EventHandleError>(true)
            &&& r.1 == recycle_unit_of(handle@)
            &&& instance_appended(old, new, task_id, handle@.record_id)
            &&& new_trace == old_trace.insert(
                task_id,
                old_handle.task_trace.list_of(task_id).push(handle@),
            )
        },
    }
}

impl EventHandle {
    /// An event handle that holds no handle yet.
    pub fn new() -> (r: EventHandle)
        ensures
            r.task_trace.lists() == Map::<u64, Seq<HandleRecord>>::empty(),
    {
        EventHandle { task_trace: TaskTrace::new() }
    }

    /// Cancel the running instance `record_id` of task `task_id`, reporting
    /// `state` to its chain. `initiative` tells an outside request (whose
    /// failures are errors) from a timeout (which gives `false` instead).
    pub fn cancel_task<R>(
        &mut self,
        shared_header: &mut SharedHeader<R>,
        task_id: u64,
        record_id: i64,
        state: usize,
        initiative: bool,
    ) -> (r: Result<bool, EventHandleError>)
        requires
            old(shared_header).wf(),
        ensures
            final(shared_header).wf(),
            instance_cancelled(
                old(self).task_trace.lists(),
                final(self).task_trace.lists(),
                *old(shared_header),
                *final(shared_header),
                task_id,
                record_id,
                state,
                initiative,
                r,
            ),
    {
        let ghost old_header = *shared_header;
        // The cancellation operation is executed first, and then the outside world is notified of the cancellation event.
        // If the operation object does not exist in the middle, it should return early.
        let quit_result = self.task_trace.quit_one_task_handler(task_id, record_id);
        let ghost rt = quit_result;
        proof {
            assert(handler_quit(
                old(self).task_trace.lists(),
                self.task_trace.lists(),
                task_id,
                record_id,
                rt,
            ));
        }
        if let Err(e) = quit_result {
            if initiative {
                return Err(EventHandleError::Trace(e));
            } else {
                return Ok(false);
            }
        }
        if task_marks_get(&shared_header.task_flag_map, task_id).is_none() {
            if initiative {
                return Err(EventHandleError::NoTaskMark(task_id, record_id, state));
            } else {
                return Ok(false);
            }
        }
        let mut task_mark = match task_marks_remove(&mut shared_header.task_flag_map, task_id) {
            Some(m) => m,
            None => {
                assert(false);
                return Ok(false);
            },
        };
        task_mark.dec_parallel_runnable_num();
        let ghost m1 = task_mark;
        let result = if task_mark.task_instances_chain_maintainer.is_some() {
            // Here the user can be notified that the task instance has disappeared via `Instance`.
            let notified = task_mark.notify_cancel_finish(record_id, state);
            let ghost rn = notified;
            proof {
                assert(cancel_notified(m1, task_mark, record_id, state, rn));
            }
            match notified {
                Ok(_) => Ok(true),
                Err(e) => Err(EventHandleError::Mark(e)),
            }
        } else {
            Ok(true)
        };
        let ghost m2 = task_mark;
        task_marks_insert(&mut shared_header.task_flag_map, task_id, task_mark);
        proof {
            assert(shared_header.flags().remove(task_id) =~= old_header.flags().remove(task_id));
            assert(shared_header.flags()[task_id] == m2);
        }
        result
    }

    /// Close the running instance `record_id` of task `task_id` that has
    /// finished: its handler is quit, its parallel slot freed, and its chain
    /// told it completed.
    pub fn finish_task<R>(
        &mut self,
        shared_header: &mut SharedHeader<R>,
        task_id: u64,
        record_id: i64,
    ) -> (r: Result<bool, EventHandleError>)
        requires
            old(shared_header).wf(),
        ensures
            final(shared_header).wf(),
            instance_finished(
                old(self).task_trace.lists(),
                final(self).task_trace.lists(),
                *old(shared_header),
                *final(shared_header),
                task_id,
                record_id,
                r,
            ),
    {
        let ghost old_header = *shared_header;
        // `task-handler` should exit first regardless of whether `task_mark_ref_mut` exists or not.
        let quit_result = self.task_trace.quit_one_task_handler(task_id, record_id);
        let ghost rt = quit_result;
        proof {
            assert(handler_quit(
                old(self).task_trace.lists(),
                self.task_trace.lists(),
                task_id,
                record_id,
                rt,
            ));
        }
        if let Err(e) = quit_result {
            return Err(EventHandleError::Trace(e));
        }
        if task_marks_get(&shared_header.task_flag_map, task_id).is_none() {
            return Ok(true);
        }
        let mut task_mark = match task_marks_remove(&mut shared_header.task_flag_map, task_id) {
            Some(m) => m,
            None => {
                assert(false);
                return Ok(true);
            },
        };
        // The instance ends whatever its chain is told: its parallel slot is
        // freed first.
        task_mark.dec_parallel_runnable_num();
        let ghost m1 = task_mark;
        let result = if task_mark.task_instances_chain_maintainer.is_some() {
            // Here the user can be notified that the task instance has disappeared via `Instance`.
            let notified = task_mark.notify_cancel_finish(record_id, state::instance::COMPLETED);
            let ghost rn = notified;
            proof {
                assert(cancel_notified(m1, task_mark, record_id, state::instance::COMPLETED, rn));
            }
            match notified {
                Ok(_) => Ok(true),
                Err(e) => Err(EventHandleError::Mark(e)),
            }
        } else {
            Ok(true)
        };
        let ghost m2 = task_mark;
        task_marks_insert(&mut shared_header.task_flag_map, task_id, task_mark);
        proof {
            assert(shared_header.flags().remove(task_id) =~= old_header.flags().remove(task_id));
            assert(shared_header.flags()[task_id] == m2);
        }
        result
    }

    /// Keep the handle of a new running instance of task `task_id`: its
    /// task's chain (if kept) gets the instance, and an instance with a
    /// deadline gives the recycle unit that times it out.
    pub fn maintain_task_status<R>(
        &mut self,
        shared_header: &mut SharedHeader<R>,
        task_id: u64,
        delay_task_handler_box: DelayTaskHandlerBox,
    ) -> (r: Option<RecycleUnit>)
        requires
            old(shared_header).wf(),
        ensures
            final(shared_header).wf(),
            instance_appended(
                *old(shared_header),
                *final(shared_header),
                task_id,
                delay_task_handler_box@.record_id,
            ),
            final(self).task_trace.lists() == old(self).task_trace.lists().insert(
                task_id,
                old(self).task_trace.list_of(task_id).push(delay_task_handler_box@),
            ),
            r == recycle_unit_of(delay_task_handler_box@),
    {
        let ghost old_header = *shared_header;
        let record_id = delay_task_handler_box.get_record_id();
        if task_marks_get(&shared_header.task_flag_map, task_id).is_some() {
            let mut task_mark = match task_marks_remove(&mut shared_header.task_flag_map, task_id) {
                Some(m) => m,
                None => {
                    assert(false);
                    return None;
                },
            };
            let ghost m0 = task_mark;
            task_mark.refresh_task_instances_chain_maintainer();
            let ghost kept = task_mark.task_instances_chain_maintainer;
            let ghost mut pushed: Option<Instance> = None;
            match &mut task_mark.task_instances_chain_maintainer {
                Some(task_instances_chain_maintainer) => {
                    let instance = Instance::new(task_id, record_id);
                    proof {
                        pushed = Some(instance);
                    }
                    task_instances_chain_maintainer.push_instance(instance);
                },
                None => {},
            }
            let ghost m1 = task_mark;
            task_marks_insert(&mut shared_header.task_flag_map, task_id, task_mark);
            proof {
                assert(shared_header.flags().remove(task_id) =~= old_header.flags().remove(task_id));
                assert(shared_header.flags()[task_id] == m1);
                if let Some(c1) = m1.task_instances_chain_maintainer {
                    let c0 = kept.unwrap();
                    assert(c1.instances() == c0.instances().push(pushed.unwrap()));
                }
            }
        }
        // If has deadline, set recycle_unit.
        let recycle_unit = match delay_task_handler_box.get_end_time() {
            Some(deadline) => Some(
                RecycleUnit::new(
                    deadline,
                    delay_task_handler_box.get_task_id(),
                    delay_task_handler_box.get_record_id(),
                ),
            ),
            None => None,
        };
        self.task_trace.insert(task_id, delay_task_handler_box);
        recycle_unit
    }

    /// Handle one event of the timer: dispatch it and, where `report` asks
    /// for the public events and the event was handled with `Ok(true)`, give
    /// the public event to report besides the outcome and the recycle unit.
    pub fn handle_event<R, O: Clone>(
        &mut self,
        shared_header: &mut SharedHeader<R>,
        event: TimerEvent<R, O>,
        report: bool,
    ) -> (r: (Result<bool, EventHandleError>, Option<RecycleUnit>, Option<PublicEvent<O>>))
        requires
            old(shared_header).wf(),
            event_wf(event),
        ensures
            final(shared_header).wf(),
            event_dispatched(
                *old(self),
                *final(self),
                *old(shared_header),
                *final(shared_header),
                event,
                (r.0, r.1),
            ),
            r.2 is Some <==> (report && (r.0 matches Ok(true)) && is_public_event(event)),
            r.2 matches Some(p) ==> public_event_of(event, Ok(p)),
    {
        let public_event = if report {
            match PublicEvent::try_from_timer_event(&event) {
                Ok(p) => Some(p),
                Err(_) => None,
            }
        } else {
            None
        };
        let (result, recycle_unit) = self.event_dispatch(shared_header, event);
        let reported = match result {
            Ok(true) => public_event,
            _ => None,
        };
        (result, recycle_unit, reported)
    }

    /// Handle one event on the shared core.
    pub fn event_dispatch<R, O>(
        &mut self,
        shared_header: &mut SharedHeader<R>,
        event: TimerEvent<R, O>,
    ) -> (r: (Result<bool, EventHandleError>, Option<RecycleUnit>))
        requires
            old(shared_header).wf(),
            event_wf(event),
        ensures
            final(shared_header).wf(),
            event_dispatched(*old(self), *final(self), *old(shared_header), *final(shared_header), event, r),
    {
        let ghost old_header = *shared_header;
        match event {
            TimerEvent::StopTimer => {
                shared_header.shared_motivation = false;
                (Ok(true), None)
            },
            TimerEvent::AddTask(task) => {
                let added = shared_header.add_task(*task);
                let ghost h = *shared_header;
                let ghost a = added;
                proof {
                    assert(task_added(old_header, h, *task, a));
                }
                match added {
                    Ok(task_mark) => {
                        shared_header.record_task_mark(task_mark);
                        (Ok(true), None)
                    },
                    Err(e) => (Err(EventHandleError::Timer(e)), None),
                }
            },
            TimerEvent::InsertTask(task, task_instances_chain_maintainer) => {
                let added = shared_header.add_task(*task);
                let ghost h = *shared_header;
                let ghost a = added;
                proof {
                    assert(task_added(old_header, h, *task, a));
                }
                match added {
                    Ok(task_mark) => {
                        let mut task_mark = task_mark;
                        task_mark.set_task_instances_chain_maintainer(
                            task_instances_chain_maintainer,
                        );
                        shared_header.record_task_mark(task_mark);
                        (Ok(true), None)
                    },
                    Err(e) => {
                        task_instances_chain_maintainer.abandon();
                        (Err(EventHandleError::Timer(e)), None)
                    },
                }
            },
            TimerEvent::UpdateTask(task) => {
                let replaced = shared_header.update_task(*task);
                let ghost u = replaced;
                proof {
                    assert(task_updated(old_header, *shared_header, *task, u));
                }
                (Ok(true), None)
            },
            TimerEvent::AdvanceTask(task_id) => {
                let advanced = shared_header.advance_task(task_id);
                let ghost a = advanced;
                proof {
                    assert(task_advanced(old_header, *shared_header, task_id, a));
                }
                match advanced {
                    Ok(()) => (Ok(true), None),
                    Err(e) => (Err(EventHandleError::Timer(e)), None),
                }
            },
            TimerEvent::RemoveTask(task_id) => {
                let removed = shared_header.remove_task(task_id);
                let ghost h = *shared_header;
                let ghost a = removed;
                proof {
                    assert(task_removed(old_header, h, task_id, a));
                }
                if let Some(task_mark) = task_marks_remove(&mut shared_header.task_flag_map, task_id) {
                    task_mark.abandon_chain();
                }
                match removed {
                    Ok(()) => (Ok(true), None),
                    Err(e) => (Err(EventHandleError::Timer(e)), None),
                }
            },
            TimerEvent::CancelTask(task_id, record_id) => {
                (
                    self.cancel_task(
                        shared_header,
                        task_id,
                        record_id,
                        state::instance::CANCELLED,
                        true,
                    ),
                    None,
                )
            },
            TimerEvent::TimeoutTask(task_id, record_id) => {
                (
                    self.cancel_task(
                        shared_header,
                        task_id,
                        record_id,
                        state::instance::TIMEOUT,
                        false,
                    ),
                    None,
                )
            },
            TimerEvent::AppendTaskHandle(task_id, delay_task_handler_box) => {
                let recycle_unit = self.maintain_task_status(
                    shared_header,
                    task_id,
                    delay_task_handler_box,
                );
                (Ok(true), recycle_unit)
            },
            TimerEvent::FinishTask(finish_task_body) => {
                (
                    self.finish_task(
                        shared_header,
                        finish_task_body.task_id,
                        finish_task_body.record_id,
                    ),
                    None,
                )
            },
        }
    }
}

/// Counting a new running instance in a task's mark and then the end of an
/// instance leaves the count as it was (below the saturation bound).
pub proof fn lemma_run_then_end_restores_count(mark: TaskMark, slot: u64)
    requires
        mark.parallel_runnable_num < u64::MAX,
    ensures
        count_down_runs(marked(mark, slot, true)).parallel_runnable_num
            == mark.parallel_runnable_num,
{
}

/// A task added `delay` seconds ahead is met by the hand for the last time
/// (and so is due) after exactly `delay` ticks, counted from the hand's next
/// position, wherever the hand stands.
pub proof fn lemma_added_task_due_after_delay(delay: u64, second_hand: u64)
    requires
        second_hand < DEFAULT_TIMER_SLOT_COUNT,
    ensures
        ticks_until_due(
            add_slot(delay, second_hand),
            add_cylinder(delay),
            ((second_hand + 1) % (DEFAULT_TIMER_SLOT_COUNT as int)) as u64,
        ) == delay,
{
    let m = DEFAULT_TIMER_SLOT_COUNT as int;
    let d = delay as int;
    let h1 = (second_hand + 1) % m;
    let s = (d + second_hand + 1) % m;
    // (s - h1) % m == d % m
    vstd::arithmetic::div_mod::lemma_sub_mod_noop(d + second_hand + 1, second_hand + 1, m);
    vstd::arithmetic::div_mod::lemma_fundamental_div_mod(d, m);
    assert((d / m) * m == m * (d / m)) by (nonlinear_arith);
}

/// Once the stop event is handled, the core is no longer running, so the
/// next tick of the scheduler collects nothing; the wheel and the marks are
/// left as they were.
pub proof fn lemma_stop_event_stops_the_core<R, O>(
    old_handle: EventHandle,
    new_handle: EventHandle,
    old: SharedHeader<R>,
    new: SharedHeader<R>,
    r: (Result<bool, EventHandleError>, Option<RecycleUnit>),
)
    requires
        event_dispatched(old_handle, new_handle, old, new, TimerEvent::<R, O>::StopTimer, r),
    ensures
        !new.shared_motivation,
        new.wheel_queue@ == old.wheel_queue@,
        new.flags() == old.flags(),
{
}

/// Once a task is removed, no mark is kept for it, and the slot its mark
/// named no longer holds it.
pub proof fn lemma_removed_task_is_gone<R, O>(
    old_handle: EventHandle,
    new_handle: EventHandle,
    old: SharedHeader<R>,
    new: SharedHeader<R>,
    task_id: u64,
    r: (Result<bool, EventHandleError>, Option<RecycleUnit>),
)
    requires
        event_dispatched(old_handle, new_handle, old, new, TimerEvent::<R, O>::RemoveTask(task_id), r),
    ensures
        !new.flags().contains_key(task_id),
        old.flags().contains_key(task_id) && old.flags()[task_id].slot_mark < DEFAULT_TIMER_SLOT_COUNT
            ==> !new.slot(old.flags()[task_id].slot_mark as int).contains_key(task_id),
{
    let (h, removed) = choose|h: SharedHeader<R>, removed: Result<(), TimerError>|
        #[trigger] task_removed(old, h, task_id, removed) && r.0 == as_event_outcome(removed)
            && new.same_clock(&h) && new.id_generator == h.id_generator
            && new.wheel_queue@ == h.wheel_queue@ && new.flags() == h.flags().remove(task_id);
    assert(new.slot(old.flags()[task_id].slot_mark as int) == h.slot(
        old.flags()[task_id].slot_mark as int,
    ));
}

/// An advanced task is found where its mark says: in the slot after the
/// hand, due at the next tick.
pub proof fn lemma_advanced_task_is_where_its_mark_says<R>(
    old: SharedHeader<R>,
    new: SharedHeader<R>,
    task_id: u64,
    r: Result<(), TimerError>,
)
    requires
        old.wf(),
        task_advanced(old, new, task_id, r),
        r is Ok,
    ensures
        new.flags().contains_key(task_id),
        new.flags()[task_id].slot_mark == (old.second_hand + 1) % (DEFAULT_TIMER_SLOT_COUNT as int),
        new.slot(new.flags()[task_id].slot_mark as int).contains_key(task_id),
        new.slot(new.flags()[task_id].slot_mark as int)[task_id]@.cylinder_line == 0,
{
}

/// A removed task never runs again: when the scheduler hands it back to the
/// wheel after the removal, it is let go and the wheel stays as it was.
pub proof fn lemma_removed_task_is_not_requeued<R, O>(
    old_handle: EventHandle,
    new_handle: EventHandle,
    old: SharedHeader<R>,
    mid: SharedHeader<R>,
    new: SharedHeader<R>,
    task: Task<R>,
    timestamp: u64,
    next_second_hand: u64,
    count_run: bool,
    r: (Result<bool, EventHandleError>, Option<RecycleUnit>),
    handled: Result<(), TimerError>,
)
    requires
        event_dispatched(
            old_handle,
            new_handle,
            old,
            mid,
            TimerEvent::<R, O>::RemoveTask(task@.task_id),
            r,
        ),
        task_handled(mid, new, task, timestamp, next_second_hand, count_run, handled),
    ensures
        handled is Err,
        new.wheel_queue@ == mid.wheel_queue@,
        new.flags() == mid.flags(),
{
    lemma_removed_task_is_gone::<R, O>(old_handle, new_handle, old, mid, task@.task_id, r);
}

/// Each finished instance frees its parallel slot: once its handler is
/// quit, the task's count of running instances is one less (staying at
/// zero), whatever its chain was told.
pub proof fn lemma_finished_instance_frees_its_slot<R>(
    old_trace: Map<u64, Seq<HandleRecord>>,
    new_trace: Map<u64, Seq<HandleRecord>>,
    old: SharedHeader<R>,
    new: SharedHeader<R>,
    task_id: u64,
    record_id: i64,
    r: Result<bool, EventHandleError>,
)
    requires
        instance_finished(old_trace, new_trace, old, new, task_id, record_id, r),
        old.flags().contains_key(task_id),
        !(r matches Err(EventHandleError::Trace(_))),
    ensures
        new.flags().contains_key(task_id),
        new.flags()[task_id].parallel_runnable_num == count_down_runs(
            old.flags()[task_id],
        ).parallel_runnable_num,
{
}

} // verus!
