//! The open events that occur to the tasks of the timer, as exposed to the
//! outside world.
use vstd::prelude::*;

use crate::timer::event_handle::{FinishTaskBody, TimerEvent};

verus! {

// Define types independently to avoid coupling internal types.
/// The information generated when completing a task.
#[derive(Debug, Clone)]
pub struct PublicFinishTaskBody<O> {
    /// The id of the task.
    pub task_id: u64,
    /// The id of the finished record.
    pub record_id: i64,
    /// When the record finished.
    pub finish_time: u64,
    /// What the run gave, if anything is left.
    pub finish_output: Option<O>,
}

impl<O> PublicFinishTaskBody<O> {
    /// Get the TaskInstance task-id.
    pub fn get_task_id(&self) -> (r: u64)
        ensures
            r == self.task_id,
    {
        self.task_id
    }

    /// Get the TaskInstance record-id.
    pub fn get_record_id(&self) -> (r: i64)
        ensures
            r == self.record_id,
    {
        self.record_id
    }

    /// Get the TaskInstance finish-time.
    pub fn get_finish_time(&self) -> (r: u64)
        ensures
            r == self.finish_time,
    {
        self.finish_time
    }

    /// Get the output on internal completion: it is taken out.
    pub fn get_finish_output(&mut self) -> (r: Option<O>)
        ensures
            r == old(self).finish_output,
            final(self).finish_output is None,
            final(self).task_id == old(self).task_id,
            final(self).record_id == old(self).record_id,
            final(self).finish_time == old(self).finish_time,
    {
        self.finish_output.take()
    }
}

impl<O> From<FinishTaskBody<O>> for PublicFinishTaskBody<O> {
    /// The same information, for the outside world.
    fn from(value: FinishTaskBody<O>) -> (r: PublicFinishTaskBody<O>) {
        PublicFinishTaskBody {
            task_id: value.task_id,
            record_id: value.record_id,
            finish_time: value.finish_time,
            finish_output: value.finish_output,
        }
    }
}

impl<O> vstd::std_specs::convert::FromSpecImpl<FinishTaskBody<O>> for PublicFinishTaskBody<O> {
    open spec fn obeys_from_spec() -> bool {
        true
    }

    open spec fn from_spec(v: FinishTaskBody<O>) -> PublicFinishTaskBody<O> {
        PublicFinishTaskBody {
            task_id: v.task_id,
            record_id: v.record_id,
            finish_time: v.finish_time,
            finish_output: v.finish_output,
        }
    }
}

/// `PublicEvent`, describes the open events that occur in the delay-timer of the task.
#[derive(Debug, Clone)]
pub enum PublicEvent<O> {
    /// Describes which task is removed.
    RemoveTask(u64),
    /// Describes which task produced a new running instance, record the id.
    RunningTask(u64, i64),
    /// Describe which task instance completed.
    FinishTask(PublicFinishTaskBody<O>),
    /// Describe which task instance timeout .
    TimeoutTask(u64, i64),
}

/// The event is not one the outside world is told of.
#[derive(Debug)]
pub struct NotPublicEvent;

/// Whether an event of the timer is one the outside world is told of.
pub open spec fn is_public_event<R, O>(event: TimerEvent<R, O>) -> bool {
    ||| event is RemoveTask
    ||| event is AppendTaskHandle
    ||| event is FinishTask
    ||| event is TimeoutTask
}

/// The public event of an event of the timer: a removed task, a new running
/// instance, a finished instance or a timed out instance, each with its ids;
/// other events are not public.
pub open spec fn public_event_of<R, O>(
    event: TimerEvent<R, O>,
    r: Result<PublicEvent<O>, NotPublicEvent>,
) -> bool {
    match event {
        TimerEvent::RemoveTask(task_id) => r matches Ok(PublicEvent::RemoveTask(t)) && t == task_id,
        TimerEvent::AppendTaskHandle(_, handle) => r matches Ok(PublicEvent::RunningTask(t, rid))
            && t == handle@.task_id && rid == handle@.record_id,
        TimerEvent::FinishTask(body) => r matches Ok(PublicEvent::FinishTask(p)) && p.task_id
            == body.task_id && p.record_id == body.record_id && p.finish_time == body.finish_time,
        TimerEvent::TimeoutTask(task_id, record_id) => r matches Ok(PublicEvent::TimeoutTask(t, rid))
            && t == task_id && rid == record_id,
        _ => r is Err,
    }
}

impl<O> PublicEvent<O> {
    /// Get the task_id corresponding to the event.
    pub fn get_task_id(&self) -> (r: u64)
        ensures
            r == match self {
                PublicEvent::RemoveTask(task_id) => *task_id,
                PublicEvent::RunningTask(task_id, _) => *task_id,
                PublicEvent::FinishTask(body) => body.task_id,
                PublicEvent::TimeoutTask(task_id, _) => *task_id,
            },
    {
        match self {
            PublicEvent::RemoveTask(task_id) => *task_id,
            PublicEvent::RunningTask(task_id, _) => *task_id,
            PublicEvent::FinishTask(body) => body.get_task_id(),
            PublicEvent::TimeoutTask(task_id, _) => *task_id,
        }
    }

    /// Get the record_id corresponding to the event.
    pub fn get_record_id(&self) -> (r: Option<i64>)
        ensures
            r == match self {
                PublicEvent::RemoveTask(_) => None,
                PublicEvent::RunningTask(_, record_id) => Some(*record_id),
                PublicEvent::FinishTask(body) => Some(body.record_id),
                PublicEvent::TimeoutTask(_, record_id) => Some(*record_id),
            },
    {
        match self {
            PublicEvent::RemoveTask(_) => None,
            PublicEvent::RunningTask(_, record_id) => Some(*record_id),
            PublicEvent::FinishTask(body) => Some(body.get_record_id()),
            PublicEvent::TimeoutTask(_, record_id) => Some(*record_id),
        }
    }

    /// The public event of an event of the timer: a removed task, a new
    /// running instance, a finished instance (its output cloned) or a timed
    /// out instance; other events are not public.
    pub fn try_from_timer_event<R>(timer_event: &TimerEvent<R, O>) -> (r: Result<
        PublicEvent<O>,
        NotPublicEvent,
    >) where O: Clone
        ensures
            public_event_of(*timer_event, r),
    {
        match timer_event {
            TimerEvent::RemoveTask(task_id) => Ok(PublicEvent::RemoveTask(*task_id)),
            TimerEvent::AppendTaskHandle(_, delay_task_handler_box) => Ok(
                PublicEvent::RunningTask(
                    delay_task_handler_box.get_task_id(),
                    delay_task_handler_box.get_record_id(),
                ),
            ),
            TimerEvent::FinishTask(finish_task_body) => {
                let body = PublicFinishTaskBody {
                    task_id: finish_task_body.task_id,
                    record_id: finish_task_body.record_id,
                    finish_time: finish_task_body.finish_time,
                    finish_output: finish_task_body.finish_output.clone(),
                };
                Ok(PublicEvent::FinishTask(body))
            },
            TimerEvent::TimeoutTask(task_id, record_id) => Ok(
                PublicEvent::TimeoutTask(*task_id, *record_id),
            ),
            _ => Err(NotPublicEvent),
        }
    }
}

} // verus!
