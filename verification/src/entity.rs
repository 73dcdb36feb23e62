//! The shared core of the timer and clock readings.
//!
//! `SharedHeader` holds what the time wheel's scheduler and the event handler
//! work on together: the 3600 slots of the wheel, the mark of every task
//! (where it sits and how many of its instances run), the second hand, the
//! global time, whether the timer still runs, and the generator of record ids.
use vstd::prelude::*;
use std::time::{Duration, SystemTime};

use dashmap::DashMap;
use snowflake::SnowflakeIdGenerator;

use crate::timer::slot::Slot;
use crate::timer::task::{Task, TaskMark};
use crate::timer::timer_core::DEFAULT_TIMER_SLOT_COUNT;

verus! {

#[verifier::external_type_specification]
#[verifier::external_body]
pub struct ExSystemTime(SystemTime);

/// `SystemTime::now`: a reading of the system clock. Nothing is stated of
/// the value, which depends on the machine's clock.
#[verifier::external_body]
fn system_time_now() -> SystemTime {
    SystemTime::now()
}

/// `SystemTime::duration_since(UNIX_EPOCH)`: `None` where the reading lies
/// before the epoch. Nothing is stated of the duration, which depends on the
/// reading.
#[verifier::external_body]
fn duration_since_unix_epoch(t: &SystemTime) -> Option<Duration> {
    t.duration_since(SystemTime::UNIX_EPOCH).ok()
}

/// `Duration::as_secs`: the whole seconds of a duration. Not stated: the
/// duration is opaque here, and comes from a clock reading.
#[verifier::external_body]
fn duration_as_secs(d: &Duration) -> u64 {
    d.as_secs()
}

/// `Duration::as_micros`: the whole microseconds of a duration. Not stated:
/// the duration is opaque here, and comes from a clock reading.
#[verifier::external_body]
fn duration_as_micros(d: &Duration) -> u128 {
    d.as_micros()
}

/// Current system time in whole seconds since the Unix epoch.
///
/// A clock that reads before the epoch gives 0.
pub fn get_timestamp() -> u64 {
    let now = system_time_now();
    match duration_since_unix_epoch(&now) {
        Some(d) => duration_as_secs(&d),
        None => 0,
    }
}

/// Current system time in whole microseconds since the Unix epoch.
///
/// A clock that reads before the epoch gives 0.
pub fn get_timestamp_micros() -> u128 {
    let now = system_time_now();
    match duration_since_unix_epoch(&now) {
        Some(d) => duration_as_micros(&d),
        None => 0,
    }
}

#[verifier::external_type_specification]
#[verifier::external_body]
pub struct ExSnowflakeIdGenerator(SnowflakeIdGenerator);

#[verifier::external_type_specification]
#[verifier::external_body]
#[verifier::reject_recursive_types(K)]
#[verifier::reject_recursive_types(V)]
#[verifier::reject_recursive_types(S)]
pub struct ExDashMap<K, V, S>(DashMap<K, V, S>);

/// The concurrent map that keeps the mark of each task, by task id.
pub type TaskMarkMap = DashMap<u64, TaskMark>;

/// What a concurrent map of task marks holds, by task id.
pub uninterp spec fn task_marks(map: TaskMarkMap) -> Map<u64, TaskMark>;

/// `DashMap::new`: an empty map.
#[verifier::external_body]
fn task_marks_new() -> (r: TaskMarkMap)
    ensures
        task_marks(r).dom().is_empty(),
{
    DashMap::new()
}

/// `DashMap::get`, reading the slot and the count of running instances of
/// the mark found: the mark held under the task id, if any.
#[verifier::external_body]
pub(crate) fn task_marks_get(map: &TaskMarkMap, task_id: u64) -> (r: Option<(u64, u64)>)
    ensures
        r is Some <==> task_marks(*map).contains_key(task_id),
        r matches Some(v) ==> v == (
            task_marks(*map)[task_id].slot_mark,
            task_marks(*map)[task_id].parallel_runnable_num,
        ),
{
    map.get(&task_id).map(|mark| (mark.slot_mark, mark.parallel_runnable_num))
}

/// `DashMap::remove`, giving the value of the entry removed: the mark held
/// under the task id, if any, leaves the map; nothing else changes.
#[verifier::external_body]
pub(crate) fn task_marks_remove(map: &mut TaskMarkMap, task_id: u64) -> (r: Option<
    TaskMark,
>)
    ensures
        task_marks(*final(map)) == task_marks(*old(map)).remove(task_id),
        r == (if task_marks(*old(map)).contains_key(task_id) {
            Some(task_marks(*old(map))[task_id])
        } else {
            None
        }),
{
    map.remove(&task_id).map(|entry| entry.1)
}

/// `DashMap::insert`: the task id then holds the mark; the mark it held
/// before, if any, is given back; nothing else changes.
#[verifier::external_body]
pub(crate) fn task_marks_insert(map: &mut TaskMarkMap, task_id: u64, mark: TaskMark) -> (r:
    Option<TaskMark>)
    ensures
        task_marks(*final(map)) == task_marks(*old(map)).insert(task_id, mark),
        r == (if task_marks(*old(map)).contains_key(task_id) {
            Some(task_marks(*old(map))[task_id])
        } else {
            None
        }),
{
    map.insert(task_id, mark)
}

/// SharedHeader Store the core context of the runtime.
pub struct SharedHeader<R> {
    /// The task wheel has a slot dimension.
    pub wheel_queue: Vec<Slot<R>>,
    /// Task distribution map to track where tasks are in a slot for easy removal.
    pub task_flag_map: TaskMarkMap,
    /// The hands of the clock.
    pub second_hand: u64,
    /// Global Timestamp.
    pub global_time: u64,
    /// Delay_timer flag for running.
    pub shared_motivation: bool,
    /// Unique id generator.
    pub id_generator: SnowflakeIdGenerator,
}

impl<R> SharedHeader<R> {
    /// The tasks of slot `i` of the wheel, by id.
    pub open spec fn slot(&self, i: int) -> Map<u64, Task<R>> {
        self.wheel_queue@[i].tasks()
    }

    /// The marks of the tasks, by id.
    pub open spec fn flags(&self) -> Map<u64, TaskMark> {
        task_marks(self.task_flag_map)
    }

    /// The wheel has its 3600 well-formed slots and the hand points at one
    /// of them.
    pub open spec fn wf(&self) -> bool {
        &&& self.wheel_queue@.len() == DEFAULT_TIMER_SLOT_COUNT
        &&& forall|i: int| 0 <= i < self.wheel_queue@.len() ==> #[trigger] self.wheel_queue@[i].wf()
        &&& self.second_hand < DEFAULT_TIMER_SLOT_COUNT
    }

    /// `self` and `other` agree on the hand, the global time and the running
    /// flag.
    pub open spec fn same_clock(&self, other: &SharedHeader<R>) -> bool {
        &&& self.second_hand == other.second_hand
        &&& self.global_time == other.global_time
        &&& self.shared_motivation == other.shared_motivation
    }

    /// A fresh core at global time `now`, with `id_generator` to make the
    /// record ids of running instances: 3600 empty slots, no task marks, the
    /// hand at zero, running.
    pub fn new(now: u64, id_generator: SnowflakeIdGenerator) -> (r: SharedHeader<R>)
        ensures
            r.wf(),
            forall|i: int| 0 <= i < DEFAULT_TIMER_SLOT_COUNT ==> #[trigger] r.slot(i) == Map::<
                u64,
                Task<R>,
            >::empty(),
            r.flags() == Map::<u64, TaskMark>::empty(),
            r.second_hand == 0,
            r.global_time == now,
            r.shared_motivation,
            r.id_generator == id_generator,
    {
        let mut wheel_queue: Vec<Slot<R>> = Vec::new();
        let mut i: u64 = 0;
        while i < DEFAULT_TIMER_SLOT_COUNT
            invariant
                i <= DEFAULT_TIMER_SLOT_COUNT,
                wheel_queue@.len() == i,
                forall|j: int| 0 <= j < i ==> #[trigger] wheel_queue@[j].wf() && wheel_queue@[j].tasks()
                    == Map::<u64, Task<R>>::empty(),
            decreases DEFAULT_TIMER_SLOT_COUNT - i,
        {
            wheel_queue.push(Slot::new());
            i = i + 1;
        }
        let r = SharedHeader {
            wheel_queue,
            task_flag_map: task_marks_new(),
            second_hand: 0,
            global_time: now,
            shared_motivation: true,
            id_generator,
        };
        assert forall|i: int| 0 <= i < DEFAULT_TIMER_SLOT_COUNT implies #[trigger] r.slot(i)
            == Map::<u64, Task<R>>::empty() by {
            assert(r.wheel_queue@[i].wf());
        }
        assert(r.flags() =~= Map::<u64, TaskMark>::empty());
        r
    }
}

} // verus!
