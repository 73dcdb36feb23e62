use delay_timer::prelude::{timestamp, CandyCron, CandyFrequency, ScheduleIteratorTimeZone, TaskBuilder};
use delay_timer::timer::task::{
    cron_expression_has_zero_step, CronExpressionCache, DelayTimerScheduleIteratorOwned,
    FrequencyInner, SecondsState, ONE_DAY, ONE_HOUR, ONE_MINUTE,
};
use rand::Rng;

#[test]
fn task_test_task_valid() {
    let mut cache = CronExpressionCache::new();
    let mut task_builder = TaskBuilder::default();

    // The third run returns to an invalid state.
    task_builder.set_frequency_count_down_by_seconds(1, 3);
    let mut task = task_builder
        .spawn_async_routine(|| async {}, &mut cache)
        .unwrap();

    assert!(task.down_count_and_set_vaild());
    assert!(task.down_count_and_set_vaild());
    assert!(!task.down_count_and_set_vaild());

    task_builder.set_frequency_count_down_by_cron_str("* * * * * * *", 3);
    let mut task = task_builder
        .spawn_async_routine(|| async {}, &mut cache)
        .unwrap();

    assert!(task.down_count_and_set_vaild());
    assert!(task.down_count_and_set_vaild());
    assert!(!task.down_count_and_set_vaild());
}

#[test]
fn test_get_next_exec_timestamp_seconds() {
    let mut cache = CronExpressionCache::new();
    let mut rng = rand::thread_rng();
    let init_seconds: u64 = rng.gen_range(1..100_00_00);
    let mut task_builder = TaskBuilder::default();

    task_builder.set_frequency_count_down_by_seconds(init_seconds, 3);
    let mut task = task_builder
        .spawn_async_routine(|| async {}, &mut cache)
        .unwrap();

    (1..100)
        .map(|i| {
            assert_eq!(
                task.get_next_exec_timestamp().unwrap(),
                timestamp() + (init_seconds * i)
            );
        })
        .for_each(drop);

    task_builder.set_frequency_count_down_by_cron_str("* * * * * * *", 100);
    let mut task = task_builder
        .spawn_async_routine(|| async {}, &mut cache)
        .unwrap();

    (1..100)
        .map(|_| {
            assert!(task.down_count_and_set_vaild());
        })
        .for_each(drop);

    assert!(!task.down_count_and_set_vaild());
}

#[test]
fn test_get_next_exec_timestamp_minutes() {
    let mut cache = CronExpressionCache::new();
    let mut rng = rand::thread_rng();
    let init_minutes: u64 = rng.gen_range(1..100_00_00);
    let mut task_builder = TaskBuilder::default();

    task_builder.set_frequency_repeated_by_minutes(init_minutes);
    let mut task = task_builder
        .spawn_async_routine(|| async {}, &mut cache)
        .unwrap();

    (1..100)
        .map(|i| {
            assert_eq!(
                task.get_next_exec_timestamp().unwrap(),
                timestamp() + (init_minutes * i * ONE_MINUTE)
            );
        })
        .for_each(drop);
}

#[test]
fn test_get_next_exec_timestamp_hours() {
    let mut cache = CronExpressionCache::new();
    let mut rng = rand::thread_rng();
    let init_hours: u64 = rng.gen_range(1..100_00_00);
    let mut task_builder = TaskBuilder::default();

    task_builder.set_frequency_repeated_by_hours(init_hours);
    let mut task = task_builder
        .spawn_async_routine(|| async {}, &mut cache)
        .unwrap();

    (1..100)
        .map(|i| {
            assert_eq!(
                task.get_next_exec_timestamp().unwrap(),
                timestamp() + (init_hours * i * ONE_HOUR)
            );
        })
        .for_each(drop);
}

#[test]
fn test_get_next_exec_timestamp_days() {
    let mut cache = CronExpressionCache::new();
    let mut rng = rand::thread_rng();
    let init_days: u64 = rng.gen_range(1..100_00_00);
    let mut task_builder = TaskBuilder::default();

    task_builder.set_frequency_repeated_by_days(init_days);
    let mut task = task_builder
        .spawn_async_routine(|| async {}, &mut cache)
        .unwrap();

    (1..100)
        .map(|i| {
            assert_eq!(
                task.get_next_exec_timestamp().unwrap(),
                timestamp() + (init_days * i * ONE_DAY)
            );
        })
        .for_each(drop);
}

#[test]
fn test_count_down() {
    let mut cache = CronExpressionCache::new();
    let mut task_builder = TaskBuilder::default();

    // The third run returns to an invalid state.
    task_builder.set_frequency_count_down_by_seconds(1, 3);
    let mut task = task_builder
        .spawn_async_routine(|| async {}, &mut cache)
        .unwrap();

    assert!(task.down_count_and_set_vaild());
    assert!(task.down_count_and_set_vaild());
    assert!(!task.down_count_and_set_vaild());

    task_builder.set_frequency_count_down_by_cron_str("* * * * * * *", 3);
    let mut task = task_builder
        .spawn_async_routine(|| async {}, &mut cache)
        .unwrap();

    assert!(task.down_count_and_set_vaild());
    assert!(task.down_count_and_set_vaild());
    assert!(!task.down_count_and_set_vaild());

    task_builder.set_frequency_once_by_seconds(10);
    let mut task = task_builder
        .spawn_async_routine(|| async {}, &mut cache)
        .unwrap();
    assert!(!task.down_count_and_set_vaild());

    task_builder.set_frequency_count_down_by_hours(10, 10);
    let mut task = task_builder
        .spawn_async_routine(|| async {}, &mut cache)
        .unwrap();
    (1i32..10i32)
        .map(|_| assert!(task.down_count_and_set_vaild()))
        .for_each(drop);
    assert!(!task.down_count_and_set_vaild());
}

#[test]
fn test_is_can_running() {
    let mut cache = CronExpressionCache::new();
    let mut task_builder = TaskBuilder::default();

    // The third run returns to an invalid state.
    task_builder.set_frequency_count_down_by_cron_str("* * * * * * *", 3);
    let mut task = task_builder
        .spawn_async_routine(|| async {}, &mut cache)
        .unwrap();

    assert!(task.is_can_running());

    task.set_cylinder_line(1);
    assert!(!task.is_can_running());

    assert!(!task.check_arrived());
    assert!(task.is_can_running());

    // set_frequency_count_down_by_seconds.
    task_builder.set_frequency_count_down_by_seconds(1, 1);
    let mut task = task_builder
        .spawn_async_routine(|| async {}, &mut cache)
        .unwrap();

    assert!(task.is_can_running());

    task.set_cylinder_line(1);
    assert!(!task.is_can_running());

    assert!(!task.check_arrived());
    assert!(task.is_can_running());
}

#[test]
fn test_candy_cron() {
    let mut cache = CronExpressionCache::new();
    let mut task_builder = TaskBuilder::default();

    // The third run returns to an invalid state.
    task_builder.set_frequency_by_candy(CandyFrequency::CountDown(5, CandyCron::Minutely));
    let mut task = task_builder
        .spawn_async_routine(|| async {}, &mut cache)
        .unwrap();

    assert!(task.is_can_running());

    task.set_cylinder_line(1);
    assert!(!task.is_can_running());

    assert!(!task.check_arrived());
    assert!(task.is_can_running());
}

#[test]
fn test_analyze_cron_expression() {
    let mut cache = CronExpressionCache::new();
    let now = timestamp();

    let mut schedule_iterator_first = DelayTimerScheduleIteratorOwned::analyze_cron_expression(
        &mut cache,
        ScheduleIteratorTimeZone::Utc,
        "0/3 * * * * * *",
        now,
    )
    .unwrap();

    // Five seconds later.
    let mut schedule_iterator_second =
        DelayTimerScheduleIteratorOwned::analyze_cron_expression(
            &mut cache,
            ScheduleIteratorTimeZone::Utc,
            "0/3 * * * * * *",
            now + 5,
        )
        .unwrap();

    // Two different starting values should not be the same.
    assert_ne!(
        schedule_iterator_first.next(),
        schedule_iterator_second.next()
    );
}

#[test]
fn cron_expressions_are_trimmed_and_refused_when_malformed() {
    let mut cache = CronExpressionCache::new();
    let mut it = DelayTimerScheduleIteratorOwned::analyze_cron_expression(
        &mut cache,
        ScheduleIteratorTimeZone::Utc,
        "  0/3 * * * * * *  ",
        0,
    )
    .unwrap();
    assert_eq!(it.next(), Some(3));
    assert_eq!(it.next(), Some(6));
    assert!(DelayTimerScheduleIteratorOwned::analyze_cron_expression(
        &mut cache,
        ScheduleIteratorTimeZone::Utc,
        "not a cron expression",
        0,
    )
    .is_err());
}

#[test]
fn zero_second_period_is_refused() {
    let mut cache = CronExpressionCache::new();
    let mut task_builder = TaskBuilder::default();
    task_builder.set_frequency_repeated_by_seconds(0);
    assert!(task_builder.spawn_routine(|| (), &mut cache).is_err());
}

#[test]
fn seconds_schedule_gives_one_instant_per_period() {
    let mut state = SecondsState::new(100, 7);
    assert_eq!(state.next(), Some(107));
    assert_eq!(state.next(), Some(114));
    assert_eq!(state.next(), Some(121));
    let mut last = SecondsState::new(u64::MAX - 3, 2);
    assert_eq!(last.next(), Some(u64::MAX - 1));
    assert_eq!(last.next(), None);
}

#[test]
fn built_task_starts_from_the_given_time() {
    let mut cache = CronExpressionCache::new();
    let mut task_builder = TaskBuilder::default();
    task_builder
        .set_frequency_repeated_by_seconds(10)
        .set_task_id(7)
        .set_maximum_running_time(30);
    let mut task = task_builder.build_task(0u8, &mut cache, 1_000).unwrap();
    assert_eq!(task.task_id(), 7);
    assert_eq!(task.get_maximum_running_time(1_010), Some(1_040));
    assert_eq!(task.get_next_exec_timestamp(), Some(1_010));
    assert_eq!(task.get_next_exec_timestamp(), Some(1_020));
    assert!(task.down_count_and_set_vaild());
}

#[test]
fn once_by_timestamp_runs_after_the_difference() {
    let mut cache = CronExpressionCache::new();
    let mut task_builder = TaskBuilder::default();
    task_builder.set_frequency_once_by_timestamp_seconds_from(1_500, 1_000);
    let mut task = task_builder.build_task((), &mut cache, 1_000).unwrap();
    assert_eq!(task.get_next_exec_timestamp(), Some(1_500));
    let mut past = TaskBuilder::default();
    past.set_frequency_once_by_timestamp_seconds_from(10, 1_000);
    let mut task = past.build_task((), &mut cache, 1_000).unwrap();
    assert_eq!(task.get_next_exec_timestamp(), Some(1_001));
}

#[test]
fn residual_time_of_frequencies() {
    let repeated = FrequencyInner::SecondsRepeated(SecondsState::new(0, 1));
    assert_eq!(repeated.residual_time(), u64::MAX);
    let mut counted = FrequencyInner::SecondsCountDown(2, SecondsState::new(0, 1));
    assert_eq!(counted.residual_time(), 2);
    counted.down_count();
    assert_eq!(counted.residual_time(), 1);
    counted.down_count();
    assert!(counted.is_down_over());
}

#[test]
fn cron_schedule_gives_sunday_at_four_in_utc() {
    let mut cache = CronExpressionCache::new();
    // 1970-01-01 was a Thursday: the first Sunday is the 4th.
    let mut it = DelayTimerScheduleIteratorOwned::analyze_cron_expression(
        &mut cache,
        ScheduleIteratorTimeZone::Utc,
        "0 0 4 * * Sun *",
        0,
    )
    .unwrap();
    assert_eq!(it.next(), Some(3 * 86_400 + 4 * 3_600));
    assert_eq!(it.next(), Some(10 * 86_400 + 4 * 3_600));
}

#[test]
fn cron_schedule_reads_its_fields_at_a_fixed_offset() {
    let mut cache = CronExpressionCache::new();
    let offset = cron_clock::FixedOffset::east_opt(3_600).unwrap();
    let mut it = DelayTimerScheduleIteratorOwned::analyze_cron_expression(
        &mut cache,
        ScheduleIteratorTimeZone::FixedOffset(offset),
        "0 0 4 * * Sun *",
        0,
    )
    .unwrap();
    // Four in the morning at UTC+1 is three in UTC.
    assert_eq!(it.next(), Some(3 * 86_400 + 3 * 3_600));
}

#[test]
fn cron_schedule_ends_after_its_last_year() {
    let mut cache = CronExpressionCache::new();
    let mut it = DelayTimerScheduleIteratorOwned::analyze_cron_expression(
        &mut cache,
        ScheduleIteratorTimeZone::Utc,
        "0 0 12 1 6 * 1971",
        0,
    )
    .unwrap();
    // 1971-06-01 12:00:00 UTC, 516 days after the epoch.
    assert_eq!(it.next(), Some(516 * 86_400 + 12 * 3_600));
    assert_eq!(it.next(), None);
    assert_eq!(it.next(), None);
}

#[test]
fn local_cron_schedule_moves_forward() {
    let mut cache = CronExpressionCache::new();
    let mut it = DelayTimerScheduleIteratorOwned::analyze_cron_expression(
        &mut cache,
        ScheduleIteratorTimeZone::Local,
        "0 * * * * * *",
        1_000_000,
    )
    .unwrap();
    let first = it.next().unwrap();
    let second = it.next().unwrap();
    assert!(first > 1_000_000 && second > first);
}

#[test]
fn zero_steps_are_found() {
    assert!(cron_expression_has_zero_step("*/0 * * * * *"));
    assert!(cron_expression_has_zero_step("  1-5/ 00 * * * * *"));
    assert!(cron_expression_has_zero_step("0 0 0 * * * 2020/0"));
    assert!(!cron_expression_has_zero_step("*/10 * * * * *"));
    assert!(!cron_expression_has_zero_step("0/3 * * * * * *"));
    assert!(!cron_expression_has_zero_step("*/005 * * * * *"));
    let mut builder = TaskBuilder::default();
    builder.set_frequency_repeated_by_cron_str("*/0 * * * * *");
    assert!(builder.has_zero_cron_step());
    builder.set_frequency_repeated_by_cron_str("*/2 * * * * *");
    assert!(!builder.has_zero_cron_step());
    builder.set_frequency_repeated_by_seconds(0);
    assert!(!builder.has_zero_cron_step());
}

#[test]
fn count_down_of_no_runs_is_spawned_but_not_well_formed() {
    let mut cache = CronExpressionCache::new();
    let mut builder = TaskBuilder::default();
    builder.set_frequency_count_down_by_seconds(3, 0);
    let task = builder.spawn_routine(|| (), &mut cache).unwrap();
    assert!(!task.is_well_formed());
    builder.set_frequency_count_down_by_seconds(3, 1);
    let task = builder.spawn_routine(|| (), &mut cache).unwrap();
    assert!(task.is_well_formed());
}
