use snowflake::SnowflakeIdGenerator;
use delay_timer::entity::SharedHeader;
use delay_timer::prelude::instance;
use delay_timer::timer::event_handle::{EventHandle, EventHandleError, FinishTaskBody, TimerEvent};
use delay_timer::timer::runtime_trace::task_handle::{
    DelayTaskHandlerBoxBuilder, TaskTraceError,
};
use delay_timer::timer::runtime_trace::state::instance_chain;
use delay_timer::timer::runtime_trace::task_instance::{Instance, TaskInstancesChainMaintainer};
use delay_timer::timer::task::{CronExpressionCache, Task, TaskBuilder, TaskMark, TaskMarkError};
use std::sync::atomic::AtomicUsize;
use std::sync::Arc;
use delay_timer::timer::timer_core::TimerError;
use delay_timer::utils::convenience::functions::create_default_delay_task_handler;
use delay_timer::utils::status_report::PublicEvent;

type WheelEvent = TimerEvent<u32, String>;

fn seconds_task(task_id: u64, period: u64, now: u64) -> Task<u32> {
    let mut cache = CronExpressionCache::new();
    let mut builder = TaskBuilder::default();
    builder
        .set_frequency_repeated_by_seconds(period)
        .set_task_id(task_id);
    builder.build_task(task_id as u32, &mut cache, now).unwrap()
}

fn handle_event(task_id: u64, record_id: i64, end_time: Option<u64>) -> WheelEvent {
    let handle = DelayTaskHandlerBoxBuilder::default()
        .set_task_id(task_id)
        .set_record_id(record_id)
        .set_start_time(0)
        .set_end_time(end_time)
        .spawn(create_default_delay_task_handler());
    TimerEvent::AppendTaskHandle(task_id, handle)
}

#[test]
fn added_task_is_marked_on_the_slot_after_the_hand() {
    let mut header: SharedHeader<u32> = SharedHeader::new(1_000, SnowflakeIdGenerator::new(1, 1));
    let mut event_handle = EventHandle::new();
    let (r, unit) = event_handle.event_dispatch(
        &mut header,
        WheelEvent::AddTask(Box::new(seconds_task(1, 5, 1_000))),
    );
    assert!(matches!(r, Ok(true)));
    assert!(unit.is_none());
    // Due at 1005, five seconds after the global time: slot 0 + 1 + 5.
    {
        let mark = header.task_flag_map.get(&1).unwrap();
        assert_eq!(mark.slot_mark, 6);
        assert_eq!(mark.parallel_runnable_num, 0);
    }
    for _ in 0..6 {
        header.next_position();
    }
    assert_eq!(header.collect_arrival_tasks().len(), 1);
}

#[test]
fn added_task_past_its_instant_is_spread_by_id() {
    let mut header: SharedHeader<u32> = SharedHeader::new(10_000, SnowflakeIdGenerator::new(1, 1));
    let mut event_handle = EventHandle::new();
    let (r, _) = event_handle.event_dispatch(
        &mut header,
        WheelEvent::AddTask(Box::new(seconds_task(7_203, 5, 1_000))),
    );
    assert!(matches!(r, Ok(true)));
    // 7203 % 3600 = 3, then one slot after the hand.
    assert_eq!(header.task_flag_map.get(&7_203).unwrap().slot_mark, 4);
}

#[test]
fn advanced_task_is_due_next_tick() {
    let mut header: SharedHeader<u32> = SharedHeader::new(0, SnowflakeIdGenerator::new(1, 1));
    let mut event_handle = EventHandle::new();
    event_handle.event_dispatch(
        &mut header,
        WheelEvent::AddTask(Box::new(seconds_task(3, 7_300, 0))),
    );
    let (r, _) = event_handle.event_dispatch(&mut header, WheelEvent::AdvanceTask(3));
    assert!(matches!(r, Ok(true)));
    // The mark follows the task to the slot after the hand.
    assert_eq!(header.task_flag_map.get(&3).unwrap().slot_mark, 1);
    // A second advance finds the task where its mark says.
    let (r, _) = event_handle.event_dispatch(&mut header, WheelEvent::AdvanceTask(3));
    assert!(matches!(r, Ok(true)));
    header.next_position();
    let due = header.collect_arrival_tasks();
    assert_eq!(due.len(), 1);
    assert_eq!(due[0].task_id(), 3);
    let (r, _) = event_handle.event_dispatch(&mut header, WheelEvent::AdvanceTask(3));
    assert!(matches!(r, Err(EventHandleError::Timer(TimerError::NoTask(3)))));
    let (r, _) = event_handle.event_dispatch(&mut header, WheelEvent::AdvanceTask(99));
    assert!(matches!(r, Err(EventHandleError::Timer(TimerError::NoTaskMark(99)))));
}

#[test]
fn advance_with_the_hand_on_the_last_slot_wraps_to_slot_zero() {
    let mut header: SharedHeader<u32> = SharedHeader::new(0, SnowflakeIdGenerator::new(1, 1));
    let mut event_handle = EventHandle::new();
    event_handle.event_dispatch(&mut header, WheelEvent::AddTask(Box::new(seconds_task(3, 10, 0))));
    header.second_hand = 3599;
    let (r, _) = event_handle.event_dispatch(&mut header, WheelEvent::AdvanceTask(3));
    assert!(matches!(r, Ok(true)));
    assert_eq!(header.task_flag_map.get(&3).unwrap().slot_mark, 0);
    header.next_position();
    let due = header.collect_arrival_tasks();
    assert_eq!(due.len(), 1);
    assert_eq!(due[0].task_id(), 3);
}

#[test]
fn removed_task_leaves_wheel_and_marks() {
    let mut header: SharedHeader<u32> = SharedHeader::new(0, SnowflakeIdGenerator::new(1, 1));
    let mut event_handle = EventHandle::new();
    event_handle.event_dispatch(&mut header, WheelEvent::AddTask(Box::new(seconds_task(8, 2, 0))));
    let (r, _) = event_handle.event_dispatch(&mut header, WheelEvent::RemoveTask(8));
    assert!(matches!(r, Ok(true)));
    assert!(header.task_flag_map.get(&8).is_none());
    header.next_position();
    header.next_position();
    header.next_position();
    assert!(header.collect_arrival_tasks().is_empty());
    let (r, _) = event_handle.event_dispatch(&mut header, WheelEvent::RemoveTask(8));
    assert!(matches!(r, Err(EventHandleError::Timer(TimerError::NoTaskMark(8)))));
}

#[test]
fn updated_task_replaces_the_old_one() {
    let mut header: SharedHeader<u32> = SharedHeader::new(0, SnowflakeIdGenerator::new(1, 1));
    let mut event_handle = EventHandle::new();
    event_handle.event_dispatch(&mut header, WheelEvent::AddTask(Box::new(seconds_task(5, 2, 0))));
    let slot = header.task_flag_map.get(&5).unwrap().slot_mark;
    let mut cache = CronExpressionCache::new();
    let mut builder = TaskBuilder::default();
    builder.set_frequency_repeated_by_seconds(2).set_task_id(5);
    let newer = builder.build_task(55u32, &mut cache, 0).unwrap();
    let (r, _) = event_handle.event_dispatch(&mut header, WheelEvent::UpdateTask(Box::new(newer)));
    assert!(matches!(r, Ok(true)));
    header.second_hand = slot;
    let due = header.collect_arrival_tasks();
    assert_eq!(due.len(), 1);
    assert_eq!(*due[0].routine(), 55);
}

#[test]
fn running_instance_is_kept_and_cancelled() {
    let mut header: SharedHeader<u32> = SharedHeader::new(0, SnowflakeIdGenerator::new(1, 1));
    let mut event_handle = EventHandle::new();
    event_handle.event_dispatch(&mut header, WheelEvent::AddTask(Box::new(seconds_task(4, 2, 0))));
    let (r, unit) = event_handle.event_dispatch(&mut header, handle_event(4, 77, Some(30)));
    assert!(matches!(r, Ok(true)));
    let unit = unit.unwrap();
    assert_eq!((unit.deadline, unit.task_id, unit.record_id), (30, 4, 77));
    let (r, _) = event_handle.event_dispatch(&mut header, WheelEvent::CancelTask(4, 77));
    assert!(matches!(r, Ok(true)));
    // Cancelled once: a second cancel finds no handler.
    let (r, _) = event_handle.event_dispatch(&mut header, WheelEvent::CancelTask(4, 77));
    assert!(matches!(
        r,
        Err(EventHandleError::Trace(TaskTraceError::NoHandler(4, 77)))
    ));
    // A timeout of a gone instance is no error, and is not reported.
    let (r, _) = event_handle.event_dispatch(&mut header, WheelEvent::TimeoutTask(4, 77));
    assert!(matches!(r, Ok(false)));
    let (r, _) = event_handle.event_dispatch(&mut header, WheelEvent::CancelTask(12, 1));
    assert!(matches!(
        r,
        Err(EventHandleError::Trace(TaskTraceError::NoHandlerList(12)))
    ));
}

#[test]
fn cancel_without_mark_fails_only_on_request() {
    let mut header: SharedHeader<u32> = SharedHeader::new(0, SnowflakeIdGenerator::new(1, 1));
    let mut event_handle = EventHandle::new();
    event_handle.event_dispatch(&mut header, handle_event(6, 1, None));
    let (r, _) = event_handle.event_dispatch(&mut header, WheelEvent::CancelTask(6, 1));
    assert!(matches!(
        r,
        Err(EventHandleError::NoTaskMark(6, 1, s)) if s == instance::CANCELLED
    ));
    event_handle.event_dispatch(&mut header, handle_event(6, 2, None));
    let (r, _) = event_handle.event_dispatch(&mut header, WheelEvent::TimeoutTask(6, 2));
    assert!(matches!(r, Ok(false)));
}

#[test]
fn finished_instance_counts_down_the_runs() {
    let mut header: SharedHeader<u32> = SharedHeader::new(0, SnowflakeIdGenerator::new(1, 1));
    let mut event_handle = EventHandle::new();
    event_handle.event_dispatch(&mut header, WheelEvent::AddTask(Box::new(seconds_task(2, 2, 0))));
    let task = header.wheel_queue[3].remove_task(2).unwrap();
    let _ = header.handle_task(task, 0, 0, true);
    assert_eq!(header.task_flag_map.get(&2).unwrap().parallel_runnable_num, 1);
    event_handle.event_dispatch(&mut header, handle_event(2, 9, None));
    let body = FinishTaskBody { task_id: 2, record_id: 9, finish_time: 5, finish_output: None };
    let (r, _) = event_handle.event_dispatch(&mut header, WheelEvent::FinishTask(body));
    assert!(matches!(r, Ok(true)));
    assert_eq!(header.task_flag_map.get(&2).unwrap().parallel_runnable_num, 0);
    let body = FinishTaskBody { task_id: 2, record_id: 9, finish_time: 6, finish_output: None };
    let (r, _) = event_handle.event_dispatch(&mut header, WheelEvent::FinishTask(body));
    assert!(matches!(r, Err(EventHandleError::Trace(_))));
}

#[test]
fn stop_event_stops_the_core() {
    let mut header: SharedHeader<u32> = SharedHeader::new(0, SnowflakeIdGenerator::new(1, 1));
    let mut event_handle = EventHandle::new();
    let (r, _) = event_handle.event_dispatch(&mut header, WheelEvent::StopTimer);
    assert!(matches!(r, Ok(true)));
    assert!(!header.shared_motivation);
    assert!(header.schedule_tick(1).is_none());
}

#[test]
fn public_events_of_timer_events() {
    let removed: WheelEvent = TimerEvent::RemoveTask(3);
    let p = PublicEvent::try_from_timer_event(&removed).unwrap();
    assert_eq!(p.get_task_id(), 3);
    assert_eq!(p.get_record_id(), None);
    let running = handle_event(4, 44, None);
    let p = PublicEvent::try_from_timer_event(&running).unwrap();
    assert_eq!((p.get_task_id(), p.get_record_id()), (4, Some(44)));
    let finished: WheelEvent = TimerEvent::FinishTask(FinishTaskBody {
        task_id: 5,
        record_id: 55,
        finish_time: 9,
        finish_output: Some("out".to_owned()),
    });
    match PublicEvent::try_from_timer_event(&finished).unwrap() {
        PublicEvent::FinishTask(mut body) => {
            assert_eq!(body.get_task_id(), 5);
            assert_eq!(body.get_record_id(), 55);
            assert_eq!(body.get_finish_time(), 9);
            assert_eq!(body.get_finish_output(), Some("out".to_owned()));
            assert_eq!(body.get_finish_output(), None);
        }
        _ => panic!("a finished instance is public"),
    }
    let timeout: WheelEvent = TimerEvent::TimeoutTask(6, 66);
    let p = PublicEvent::try_from_timer_event(&timeout).unwrap();
    assert_eq!((p.get_task_id(), p.get_record_id()), (6, Some(66)));
    let stop: WheelEvent = TimerEvent::StopTimer;
    assert!(PublicEvent::try_from_timer_event(&stop).is_err());
    let cancel: WheelEvent = TimerEvent::CancelTask(1, 1);
    assert!(PublicEvent::try_from_timer_event(&cancel).is_err());
}

#[test]
fn task_added_as_the_hand_wraps_is_due_on_its_first_pass() {
    let mut header: SharedHeader<u32> = SharedHeader::new(1_000, SnowflakeIdGenerator::new(1, 1));
    header.second_hand = 3598;
    let mut event_handle = EventHandle::new();
    event_handle.event_dispatch(
        &mut header,
        WheelEvent::AddTask(Box::new(seconds_task(1, 5, 1_000))),
    );
    // Slot (5 + 3598 + 1) % 3600 = 4, with no turn left: 5 / 3600 = 0.
    assert_eq!(header.task_flag_map.get(&1).unwrap().slot_mark, 4);
    header.second_hand = 4;
    assert_eq!(header.collect_arrival_tasks().len(), 1);
}

#[test]
fn task_added_on_the_last_slot_with_no_delay_is_due_next_tick() {
    let mut header: SharedHeader<u32> = SharedHeader::new(1_000, SnowflakeIdGenerator::new(1, 1));
    header.second_hand = 3599;
    let mut event_handle = EventHandle::new();
    let mut cache = CronExpressionCache::new();
    let mut builder = TaskBuilder::default();
    builder.set_frequency_repeated_by_seconds(1).set_task_id(9);
    // Its next instant is the global time itself: a delay of zero.
    let task = builder.build_task(9u32, &mut cache, 999).unwrap();
    event_handle.event_dispatch(&mut header, WheelEvent::AddTask(Box::new(task)));
    assert_eq!(header.task_flag_map.get(&9).unwrap().slot_mark, 0);
    header.next_position();
    assert_eq!(header.collect_arrival_tasks().len(), 1);
}

#[test]
fn task_added_an_hour_ahead_waits_one_turn() {
    let mut header: SharedHeader<u32> = SharedHeader::new(0, SnowflakeIdGenerator::new(1, 1));
    header.second_hand = 10;
    let mut event_handle = EventHandle::new();
    event_handle.event_dispatch(
        &mut header,
        WheelEvent::AddTask(Box::new(seconds_task(2, 3_605, 0))),
    );
    // Slot (3605 + 10 + 1) % 3600 = 16, with one turn left.
    assert_eq!(header.task_flag_map.get(&2).unwrap().slot_mark, 16);
    header.second_hand = 16;
    assert!(header.collect_arrival_tasks().is_empty());
    assert_eq!(header.collect_arrival_tasks().len(), 1);
}

#[test]
fn finished_instance_frees_its_slot_when_the_chain_misses_it() {
    let mut header: SharedHeader<u32> = SharedHeader::new(0, SnowflakeIdGenerator::new(1, 1));
    let mut event_handle = EventHandle::new();
    let (sender, _receiver) = smol::channel::unbounded::<Instance>();
    let state = Arc::new(AtomicUsize::new(instance_chain::LIVING));
    let maintainer = TaskInstancesChainMaintainer::new(sender, state);
    let mut mark = TaskMark::default();
    mark.set_task_id(2)
        .set_parallel_runnable_num(1)
        .set_task_instances_chain_maintainer(maintainer);
    header.record_task_mark(mark);
    let handle = DelayTaskHandlerBoxBuilder::default()
        .set_task_id(2)
        .set_record_id(9)
        .set_start_time(0)
        .set_end_time(None)
        .spawn(create_default_delay_task_handler());
    event_handle.task_trace.insert(2, handle);
    let body = FinishTaskBody { task_id: 2, record_id: 9, finish_time: 1, finish_output: None };
    let (r, _) = event_handle.event_dispatch(&mut header, WheelEvent::FinishTask(body));
    assert!(matches!(r, Err(EventHandleError::Mark(TaskMarkError::NoInstance(9)))));
    assert_eq!(header.task_flag_map.get(&2).unwrap().parallel_runnable_num, 0);
}

#[test]
fn removed_task_handed_back_is_let_go() {
    let mut header: SharedHeader<u32> = SharedHeader::new(0, SnowflakeIdGenerator::new(1, 1));
    let mut event_handle = EventHandle::new();
    event_handle.event_dispatch(&mut header, WheelEvent::AddTask(Box::new(seconds_task(8, 2, 0))));
    let task = header.wheel_queue[3].remove_task(8).unwrap();
    let (r, _) = event_handle.event_dispatch(&mut header, WheelEvent::RemoveTask(8));
    assert!(matches!(r, Ok(true)));
    assert!(matches!(header.handle_task(task, 2, 4, true), Err(TimerError::NoTaskMark(8))));
    for slot in 0..3600 {
        header.second_hand = slot;
        assert!(header.collect_arrival_tasks().is_empty());
    }
}

#[test]
fn handled_events_report_their_public_event_on_success() {
    let mut header: SharedHeader<u32> = SharedHeader::new(0, SnowflakeIdGenerator::new(1, 1));
    let mut event_handle = EventHandle::new();
    event_handle.event_dispatch(&mut header, WheelEvent::AddTask(Box::new(seconds_task(8, 2, 0))));
    let (r, _, public) = event_handle.handle_event(&mut header, WheelEvent::RemoveTask(8), true);
    assert!(matches!(r, Ok(true)));
    assert!(matches!(public, Some(PublicEvent::RemoveTask(8))));
    // A failed removal is not reported.
    let (r, _, public) = event_handle.handle_event(&mut header, WheelEvent::RemoveTask(8), true);
    assert!(r.is_err());
    assert!(public.is_none());
    // Nothing is reported where no report is asked for.
    event_handle.event_dispatch(&mut header, WheelEvent::AddTask(Box::new(seconds_task(9, 2, 0))));
    let (r, _, public) = event_handle.handle_event(&mut header, WheelEvent::RemoveTask(9), false);
    assert!(matches!(r, Ok(true)));
    assert!(public.is_none());
    // An event that is not public is not reported.
    let (r, _, public) = event_handle.handle_event(&mut header, WheelEvent::StopTimer, true);
    assert!(matches!(r, Ok(true)));
    assert!(public.is_none());
}
