use delay_timer::prelude::timestamp;
use delay_timer::timer::runtime_trace::sweeper::{RecycleUnit, RecyclingBins, RECYCLE_IDLE_WAIT};

#[test]
fn sweeper_test_task_valid() {
    let mut recycling_bins = RecyclingBins::new();

    let deadline = timestamp() + 5;

    for i in 1..10 {
        recycling_bins.add_recycle_unit(RecycleUnit::new(deadline, i, (i * i) as i64));
    }

    // Two seconds later nothing has timed out.
    let (timed_out, wait) = recycling_bins.recycle(deadline - 3);
    assert!(timed_out.is_empty());
    assert_eq!(wait, 3);

    // Six seconds later every unit has.
    let (timed_out, _) = recycling_bins.recycle(deadline + 1);
    assert_eq!(timed_out.len(), 9);
    for (k, unit) in timed_out.iter().enumerate() {
        assert_eq!(unit.task_id, k as u64 + 1);
        assert_eq!(unit.record_id, ((k + 1) * (k + 1)) as i64);
    }
}

#[test]
fn units_come_out_by_deadline() {
    let mut bins = RecyclingBins::new();
    bins.add_recycle_unit(RecycleUnit::new(30, 1, 1));
    bins.add_recycle_unit(RecycleUnit::new(10, 2, 2));
    bins.add_recycle_unit(RecycleUnit::new(20, 3, 3));
    bins.add_recycle_unit(RecycleUnit::new(10, 4, 4));
    let (out, wait) = bins.recycle(25);
    let ids: Vec<u64> = out.iter().map(|u| u.task_id).collect();
    assert_eq!(ids, vec![2, 4, 3]);
    assert_eq!(wait, 5);
    let (out, wait) = bins.recycle(100);
    assert_eq!(out.len(), 1);
    assert_eq!(wait, RECYCLE_IDLE_WAIT);
}

#[test]
fn a_round_takes_at_most_two_hundred() {
    let mut bins = RecyclingBins::new();
    for i in 0..250u64 {
        bins.add_recycle_unit(RecycleUnit::new(i, i, i as i64));
    }
    let (out, wait) = bins.recycle(1_000);
    assert_eq!(out.len(), 200);
    assert_eq!(wait, RECYCLE_IDLE_WAIT);
    let (out, _) = bins.recycle(1_000);
    assert_eq!(out.len(), 50);
}

#[test]
fn units_equal_by_deadline() {
    assert!(RecycleUnit::new(5, 1, 1) == RecycleUnit::new(5, 2, 3));
    assert!(RecycleUnit::new(5, 1, 1) != RecycleUnit::new(6, 1, 1));
}
