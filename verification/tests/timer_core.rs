use snowflake::SnowflakeIdGenerator;
use delay_timer::entity::SharedHeader;
use delay_timer::timer::event_handle::{EventHandle, TimerEvent};
use delay_timer::timer::task::{CronExpressionCache, Task, TaskBuilder, TaskMark};
use delay_timer::timer::timer_core::{TaskAdmission, TimerError, DEFAULT_TIMER_SLOT_COUNT};
use delay_timer::utils::convenience::functions::create_default_delay_task_handler;

fn seconds_task(task_id: u64, period: u64, now: u64) -> Task<u32> {
    let mut cache = CronExpressionCache::new();
    let mut builder = TaskBuilder::default();
    builder
        .set_frequency_repeated_by_seconds(period)
        .set_task_id(task_id);
    builder.build_task(task_id as u32, &mut cache, now).unwrap()
}

fn mark_for(header: &mut SharedHeader<u32>, task_id: u64) {
    let mut mark = TaskMark::default();
    mark.set_task_id(task_id);
    header.record_task_mark(mark);
}

#[test]
fn test_next_position() {
    let mut header: SharedHeader<()> = SharedHeader::new(0, SnowflakeIdGenerator::new(1, 1));

    assert_eq!(header.next_position(), 0);
    assert_eq!(header.next_position(), 1);

    header.second_hand = 3599;
    assert_eq!(header.next_position(), 3599);
    assert_eq!(header.next_position(), 0);
}

#[test]
fn a_full_turn_brings_the_hand_back() {
    let mut header: SharedHeader<()> = SharedHeader::new(0, SnowflakeIdGenerator::new(1, 1));
    header.second_hand = 1234;
    for _ in 0..DEFAULT_TIMER_SLOT_COUNT {
        header.next_position();
    }
    assert_eq!(header.second_hand(), 1234);
    assert_eq!(header.next_second_hand(), 1235);
}

#[test]
fn handled_task_lands_where_its_step_says() {
    let mut header: SharedHeader<u32> = SharedHeader::new(0, SnowflakeIdGenerator::new(1, 1));
    mark_for(&mut header, 9);
    // Due 7205 s after 1000: two full turns and five slots after the next position 10.
    let task = seconds_task(9, 7205, 1000);
    assert!(header.handle_task(task, 1000, 10, true).is_ok());
    {
        let mark = header.task_flag_map.get(&9).unwrap();
        assert_eq!(mark.slot_mark, 15);
        assert_eq!(mark.parallel_runnable_num, 1);
    }
    // The hand meets it twice before it is due, then it is collected.
    header.second_hand = 15;
    assert!(header.collect_arrival_tasks().is_empty());
    assert!(header.collect_arrival_tasks().is_empty());
    let due = header.collect_arrival_tasks();
    assert_eq!(due.len(), 1);
    assert_eq!(due[0].task_id(), 9);
}

#[test]
fn handled_task_without_mark_is_let_go_and_reported() {
    let mut header: SharedHeader<u32> = SharedHeader::new(0, SnowflakeIdGenerator::new(1, 1));
    let task = seconds_task(4, 3, 100);
    match header.handle_task(task, 100, 0, false) {
        Err(TimerError::NoTaskMark(id)) => assert_eq!(id, 4),
        _ => panic!("a task without mark must be reported"),
    }
    // A removed task is not put back: it never runs again.
    for slot in 0..3600 {
        header.second_hand = slot;
        assert!(header.collect_arrival_tasks().is_empty());
    }
}

#[test]
fn exhausted_schedule_is_reported() {
    let mut header: SharedHeader<u32> = SharedHeader::new(0, SnowflakeIdGenerator::new(1, 1));
    mark_for(&mut header, 5);
    let task = seconds_task(5, 10, u64::MAX - 5);
    match header.handle_task(task, 0, 0, false) {
        Err(TimerError::NoNextExecTimestamp(id)) => assert_eq!(id, 5),
        _ => panic!("a schedule past u64::MAX gives no instant"),
    }
}

#[test]
fn past_instant_goes_to_the_next_slot() {
    let mut header: SharedHeader<u32> = SharedHeader::new(0, SnowflakeIdGenerator::new(1, 1));
    mark_for(&mut header, 2);
    let task = seconds_task(2, 5, 100);
    // Its instant (105) has passed at 200: step one second.
    assert!(header.handle_task(task, 200, 7, false).is_ok());
    assert_eq!(header.task_flag_map.get(&2).unwrap().slot_mark, 8);
}

#[test]
fn stopped_core_schedules_nothing() {
    let mut header: SharedHeader<u32> = SharedHeader::new(0, SnowflakeIdGenerator::new(1, 1));
    header.shared_motivation = false;
    assert!(header.schedule_tick(50).is_none());
    header.shared_motivation = true;
    assert!(header.schedule_tick(50).unwrap().is_empty());
    assert_eq!(header.global_time, 50);
}

#[test]
fn parallel_limit_defers_a_task() {
    let mut header: SharedHeader<u32> = SharedHeader::new(0, SnowflakeIdGenerator::new(1, 1));
    let mut cache = CronExpressionCache::new();
    let mut builder = TaskBuilder::default();
    builder
        .set_frequency_repeated_by_seconds(4)
        .set_task_id(3)
        .set_maximum_parallel_runnable_num(1);
    let task = builder.build_task(3u32, &mut cache, 0).unwrap();
    // No mark yet: refused.
    match header.maintain_task(task, 0, 1, 77) {
        Err(TimerError::NoTaskMark(id)) => assert_eq!(id, 3),
        _ => panic!("a limited task without mark is refused"),
    }
    let mut mark = TaskMark::default();
    mark.set_task_id(3).set_parallel_runnable_num(1);
    header.record_task_mark(mark);
    let task = builder.build_task(3u32, &mut cache, 0).unwrap();
    match header.maintain_task(task, 0, 1, 77) {
        Ok(TaskAdmission::Deferred(Ok(()))) => {}
        _ => panic!("a task at its limit goes back without running"),
    }
    assert_eq!(header.task_flag_map.get(&3).unwrap().slot_mark, 5);
    assert_eq!(header.task_flag_map.get(&3).unwrap().parallel_runnable_num, 1);
}

#[test]
fn admitted_run_is_recorded_and_requeued() {
    let mut header: SharedHeader<u32> = SharedHeader::new(0, SnowflakeIdGenerator::new(1, 1));
    mark_for(&mut header, 6);
    let mut cache = CronExpressionCache::new();
    let mut builder = TaskBuilder::default();
    builder
        .set_frequency_count_down_by_seconds(2, 2)
        .set_task_id(6)
        .set_maximum_running_time(9);
    let task = builder.build_task(6u32, &mut cache, 0).unwrap();
    let (task, record_id) = match header.maintain_task(task, 2, 3, 77) {
        Ok(TaskAdmission::Run(t, r)) => (t, r),
        _ => panic!("an unlimited task runs"),
    };
    // The instance runs under the id it was given.
    assert_eq!(record_id, 77);
    let (handle, requeued) =
        header.record_task_run(task, record_id, create_default_delay_task_handler(), 2, 3);
    assert!(requeued.is_ok());
    assert_eq!(handle.get_task_id(), 6);
    assert_eq!(handle.get_record_id(), record_id);
    assert_eq!(handle.get_end_time(), Some(11));
    let mark = header.task_flag_map.get(&6).unwrap();
    assert_eq!(mark.parallel_runnable_num, 1);
    // Next instant 2 (the first, at 0 + 2): step 0 lands in the next position.
    assert_eq!(mark.slot_mark, 3);
}

#[test]
fn count_down_task_runs_its_count_on_the_wheel() {
    let mut header: SharedHeader<u32> = SharedHeader::new(0, SnowflakeIdGenerator::new(1, 1));
    let mut event_handle = EventHandle::new();
    let mut cache = CronExpressionCache::new();
    let mut builder = TaskBuilder::default();
    builder.set_frequency_count_down_by_seconds(2, 3).set_task_id(1);
    let task = builder.build_task(1u32, &mut cache, 0).unwrap();
    let (r, _) = event_handle.event_dispatch(&mut header, TimerEvent::<u32, ()>::AddTask(Box::new(task)));
    assert!(r.is_ok());
    let mut runs = Vec::new();
    for now in 1..20u64 {
        header.next_position();
        let tasks = header.schedule_tick(now).unwrap();
        let next_second_hand = header.next_second_hand();
        for task in tasks {
            if let Ok(TaskAdmission::Run(task, record_id)) =
                header.maintain_task(task, now, next_second_hand, 77)
            {
                runs.push(now);
                let (handle, _) = header.record_task_run(
                    task,
                    record_id,
                    create_default_delay_task_handler(),
                    now,
                    next_second_hand,
                );
                event_handle.event_dispatch(
                    &mut header,
                    TimerEvent::<u32, ()>::AppendTaskHandle(1, handle),
                );
            }
        }
    }
    assert_eq!(runs, vec![3, 5, 7]);
    assert_eq!(header.task_flag_map.get(&1).unwrap().parallel_runnable_num, 2);
}
