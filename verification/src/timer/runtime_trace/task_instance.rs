//! Running instances of tasks, and the list of them that the event handle
//! keeps for each task that was inserted with a chain of instances.
use vstd::prelude::*;

use super::state;
use event_listener::Event;
use std::sync::atomic::{AtomicUsize, Ordering};
use std::sync::Arc;

verus! {

#[verifier::external_type_specification]
#[verifier::external_body]
pub struct ExEvent(event_listener::Event);

#[verifier::external_type_specification]
#[verifier::external_body]
#[verifier::reject_recursive_types(T)]
pub struct ExAsyncSender<T>(smol::channel::Sender<T>);

/// `Event::new`: an event with no listeners.
#[verifier::external_body]
fn event_new() -> Event {
    Event::new()
}

/// `Event::notify(usize::MAX)`: wakes every listener of the event.
#[verifier::external_body]
fn event_notify_all(event: &Event) {
    event.notify(usize::MAX);
}

/// `Sender::try_send`: hands the instance to the channel unless it is
/// closed. Whether it was taken depends on the receiving side, so nothing is
/// stated.
#[verifier::external_body]
fn sender_try_send(sender: &smol::channel::Sender<Instance>, instance: Instance) {
    let _ = sender.try_send(instance);
}

/// The shared part of an instance: an event that wakes those who wait on
/// the instance, and its state.
#[derive(Debug)]
pub struct InstanceHeader {
    event: Event,
    state: AtomicUsize,
}

/// instance of task running.
#[derive(Debug, Clone)]
pub struct Instance {
    header: Arc<InstanceHeader>,
    task_id: u64,
    record_id: i64,
}

impl Instance {
    /// The id of the task.
    pub closed spec fn spec_task_id(&self) -> u64 {
        self.task_id
    }

    /// The id of the running record.
    pub closed spec fn spec_record_id(&self) -> i64 {
        self.record_id
    }

    /// A running instance of a task's running record.
    pub fn new(task_id: u64, record_id: i64) -> (r: Instance)
        ensures
            r.spec_task_id() == task_id,
            r.spec_record_id() == record_id,
    {
        let header = InstanceHeader { event: event_new(), state: AtomicUsize::new(state::instance::RUNNING) };
        Instance { header: Arc::new(header), task_id, record_id }
    }

    /// Get the id of task.
    pub fn get_task_id(&self) -> (r: u64)
        ensures
            r == self.spec_task_id(),
    {
        self.task_id
    }

    /// Get the id of the running record.
    pub fn get_record_id(&self) -> (r: i64)
        ensures
            r == self.spec_record_id(),
    {
        self.record_id
    }

    /// The same instance for another task.
    pub fn set_task_id(self, task_id: u64) -> (r: Instance)
        ensures
            r.spec_task_id() == task_id,
            r.spec_record_id() == self.spec_record_id(),
            r.spec_event() == self.spec_event(),
    {
        Instance { task_id, ..self }
    }

    /// The same instance for another running record.
    pub fn set_record_id(self, record_id: i64) -> (r: Instance)
        ensures
            r.spec_task_id() == self.spec_task_id(),
            r.spec_record_id() == record_id,
            r.spec_event() == self.spec_event(),
    {
        Instance { record_id, ..self }
    }

    /// Set the state of the instance.
    pub fn set_state(&self, state: usize) {
        self.header.state.store(state, Ordering::Release);
    }

    /// Get state of Instance.
    pub fn get_state(&self) -> usize {
        self.header.state.load(Ordering::Acquire)
    }

    /// The event of the instance.
    pub closed spec fn spec_event(&self) -> Event {
        self.header.event
    }

    /// The event that wakes those who wait on the instance.
    pub fn event(&self) -> (r: &Event)
        ensures
            *r == self.spec_event(),
    {
        &self.header.event
    }

    /// Record the final state of the instance and wake all who wait on it.
    pub fn notify_cancel_finish(&self, state: usize) {
        self.set_state(state);
        event_notify_all(&self.header.event);
    }
}

/// Chain of task run instances.
/// For inner maintain to Running-Task's instance.
#[derive(Debug)]
pub struct TaskInstancesChainMaintainer {
    inner_sender: smol::channel::Sender<Instance>,
    inner_state: Arc<AtomicUsize>,
    inner_list: Vec<Instance>,
}

impl TaskInstancesChainMaintainer {
    /// The instances the maintainer keeps, oldest first.
    pub closed spec fn instances(&self) -> Seq<Instance> {
        self.inner_list@
    }

    /// The channel new instances are handed to.
    pub closed spec fn sender(&self) -> smol::channel::Sender<Instance> {
        self.inner_sender
    }

    /// The state the maintainer shares with the user's chain.
    pub closed spec fn shared_state(&self) -> Arc<AtomicUsize> {
        self.inner_state
    }

    /// A maintainer that sends new instances to `inner_sender` and shares
    /// the state of the chain through `inner_state`.
    pub fn new(inner_sender: smol::channel::Sender<Instance>, inner_state: Arc<AtomicUsize>) -> (r:
        TaskInstancesChainMaintainer)
        ensures
            r.instances() == Seq::<Instance>::empty(),
            r.sender() == inner_sender,
            r.shared_state() == inner_state,
    {
        TaskInstancesChainMaintainer { inner_sender, inner_state, inner_list: Vec::new() }
    }

    /// The state of the chain.
    pub fn get_state(&self) -> usize {
        self.inner_state.load(Ordering::Acquire)
    }

    /// Mark the chain as no longer maintained.
    pub fn abandon(self) {
        self.inner_state.store(state::instance_chain::ABANDONED, Ordering::Release);
    }

    /// Hand a new instance to the chain and keep it.
    pub fn push_instance(&mut self, instance: Instance)
        ensures
            final(self).instances() == old(self).instances().push(instance),
            final(self).sender() == old(self).sender(),
            final(self).shared_state() == old(self).shared_state(),
    {
        sender_try_send(&self.inner_sender, instance.clone());
        self.inner_list.push(instance);
    }

    /// Take out the first kept instance of a running record.
    pub fn take_instance(&mut self, record_id: i64) -> (r: Option<Instance>)
        ensures
            final(self).sender() == old(self).sender(),
            final(self).shared_state() == old(self).shared_state(),
            match r {
                Some(instance) => exists|i: int|
                    0 <= i < old(self).instances().len() && instance == old(self).instances()[i]
                        && instance.spec_record_id() == record_id && (forall|j: int|
                        0 <= j < i ==> #[trigger] old(self).instances()[j].spec_record_id()
                            != record_id) && final(self).instances() == old(self).instances().remove(
                        i,
                    ),
                None => final(self).instances() == old(self).instances() && forall|j: int|
                    0 <= j < old(self).instances().len() ==> #[trigger] old(self).instances()[j].spec_record_id() != record_id,
            },
    {
        let n = self.inner_list.len();
        let mut i: usize = 0;
        while i < n
            invariant
                n == self.inner_list@.len(),
                self.inner_list@ == old(self).inner_list@,
                self.inner_sender == old(self).inner_sender,
                self.inner_state == old(self).inner_state,
                i <= n,
                forall|j: int| 0 <= j < i ==> #[trigger] self.inner_list@[j].record_id != record_id,
            decreases n - i,
        {
            if self.inner_list[i].record_id == record_id {
                let instance = self.inner_list.remove(i);
                proof {
                    assert(old(self).instances()[i as int] == instance);
                    assert(forall|j: int| 0 <= j < i ==> #[trigger] old(self).instances()[j].spec_record_id() != record_id);
                }
                return Some(instance);
            }
            i = i + 1;
        }
        None
    }
}

} // verus!
