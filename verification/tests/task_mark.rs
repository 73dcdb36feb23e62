use delay_timer::prelude::instance;
use delay_timer::timer::runtime_trace::state::instance_chain;
use delay_timer::timer::runtime_trace::task_handle::{DelayTaskHandlerBoxBuilder, TaskTrace, TaskTraceError};
use delay_timer::timer::runtime_trace::task_instance::{Instance, TaskInstancesChainMaintainer};
use delay_timer::timer::task::{TaskMark, TaskMarkError};
use delay_timer::utils::convenience::functions::create_default_delay_task_handler;
use std::sync::atomic::{AtomicUsize, Ordering};
use std::sync::Arc;

#[test]
fn running_count_saturates_at_both_ends() {
    let mut mark = TaskMark::default();
    mark.dec_parallel_runnable_num();
    assert_eq!(mark.get_parallel_runnable_num(), 0);
    mark.inc_parallel_runnable_num();
    mark.inc_parallel_runnable_num();
    assert_eq!(mark.get_parallel_runnable_num(), 2);
    mark.dec_parallel_runnable_num();
    assert_eq!(mark.get_parallel_runnable_num(), 1);
    mark.set_parallel_runnable_num(u64::MAX);
    mark.inc_parallel_runnable_num();
    assert_eq!(mark.get_parallel_runnable_num(), u64::MAX);
}

#[test]
fn end_of_an_instance_is_reported_to_its_chain() {
    let (sender, receiver) = smol::channel::unbounded::<Instance>();
    let state = Arc::new(AtomicUsize::new(instance_chain::LIVING));
    let mut maintainer = TaskInstancesChainMaintainer::new(sender, state.clone());
    maintainer.push_instance(Instance::new(1, 10));
    maintainer.push_instance(Instance::new(1, 11));
    let mut mark = TaskMark::default();
    mark.set_task_id(1).set_task_instances_chain_maintainer(maintainer);
    let taken = mark.notify_cancel_finish(11, instance::COMPLETED).unwrap();
    assert_eq!(taken.get_record_id(), 11);
    assert_eq!(taken.get_state(), instance::COMPLETED);
    assert!(matches!(
        mark.notify_cancel_finish(11, instance::CANCELLED),
        Err(TaskMarkError::NoInstance(11))
    ));
    // The user's side got both instances, running.
    assert_eq!(receiver.try_recv().unwrap().get_record_id(), 10);
    assert_eq!(receiver.try_recv().unwrap().get_record_id(), 11);
    // Once the user dropped the chain, the mark lets it go.
    state.store(instance_chain::DROPPED, Ordering::Release);
    assert!(matches!(
        mark.notify_cancel_finish(10, instance::CANCELLED),
        Err(TaskMarkError::NoChainMaintainer(10, s)) if s == instance::CANCELLED
    ));
    assert_eq!(state.load(Ordering::Acquire), instance_chain::ABANDONED);
}

#[test]
fn trace_keeps_handles_by_task_and_record() {
    let mut trace = TaskTrace::new();
    for record_id in [5i64, 6, 5] {
        let handle = DelayTaskHandlerBoxBuilder::default()
            .set_task_id(2)
            .set_record_id(record_id)
            .set_start_time(1)
            .set_end_time(Some(4))
            .spawn(create_default_delay_task_handler());
        assert_eq!(handle.get_end_time(), Some(4));
        trace.insert(2, handle);
    }
    assert!(trace.quit_one_task_handler(2, 5).is_ok());
    assert!(trace.quit_one_task_handler(2, 5).is_ok());
    assert!(matches!(
        trace.quit_one_task_handler(2, 5),
        Err(TaskTraceError::NoHandler(2, 5))
    ));
    assert!(trace.quit_one_task_handler(2, 6).is_ok());
    assert!(matches!(
        trace.quit_one_task_handler(3, 6),
        Err(TaskTraceError::NoHandlerList(3))
    ));
    trace.clear();
}

#[test]
fn handler_box_gives_its_handler_once() {
    let mut handle = DelayTaskHandlerBoxBuilder::default()
        .set_task_id(1)
        .spawn(create_default_delay_task_handler());
    assert_eq!(handle.get_task_id(), 1);
    assert_eq!(handle.get_record_id(), 0);
    assert!(handle.get_task_handler().is_some());
    assert!(handle.get_task_handler().is_none());
    assert!(handle.quit().is_ok());
}
