//! Internal-task-handle
//! The internal-task-handle, which holds the execution handle of the running task,
//! gives lib the support to exit the task at any time.
use vstd::prelude::*;

use smol::Task as SmolJoinHandler;
use std::collections::HashMap;

verus! {

broadcast use vstd::std_specs::hash::group_hash_axioms;

#[verifier::external_type_specification]
#[verifier::external_body]
pub struct ExAnyhowError(anyhow::Error);

#[verifier::external_type_specification]
#[verifier::external_body]
#[verifier::reject_recursive_types(T)]
#[verifier::reject_recursive_types(M)]
pub struct ExSmolJoinHandler<T, M>(SmolJoinHandler<T, M>);

#[verifier::external_type_specification]
#[verifier::external_body]
#[verifier::reject_recursive_types(T)]
pub struct ExTokioJoinHandle<T>(tokio::task::JoinHandle<T>);

#[verifier::external_type_specification]
#[verifier::external_body]
pub struct ExTokioJoinError(tokio::task::JoinError);

/// You can implement this trait for your type `T`,
/// and then you can define the function that returns the `Box<T> as Box<dyn DelayTaskHandler>` closure,
/// which can be wrapped by the TaskBuilder and then thrown into the time wheel for constant rotation.
pub trait DelayTaskHandler: Send + Sync {
    /// Stopping a running task instance.
    fn quit(self: Box<Self>) -> Result<(), anyhow::Error>;
}

impl DelayTaskHandler for () {
    /// There is nothing to stop: quitting always succeeds.
    fn quit(self: Box<Self>) -> (r: Result<(), anyhow::Error>)
        ensures
            r is Ok,
    {
        Ok(())
    }
}

/// Drop a smol task: dropping a `smol::Task` cancels it, so it stops at its
/// next suspension point.
#[verifier::external_body]
fn smol_task_cancel<T: Send + Sync + 'static>(task: SmolJoinHandler<T>) {
    drop(task);
}

/// `JoinHandle::abort`: the tokio task stops at its next suspension point.
#[verifier::external_body]
fn tokio_join_handle_abort<T: Send + Sync + 'static>(handle: tokio::task::JoinHandle<T>) {
    handle.abort();
}

//When SmolTask is dropped, async task is cancel.
impl<T: Send + Sync + 'static> DelayTaskHandler for SmolJoinHandler<T> {
    /// The task is cancelled; quitting always succeeds.
    fn quit(self: Box<Self>) -> (r: Result<(), anyhow::Error>)
        ensures
            r is Ok,
    {
        smol_task_cancel(*self);
        Ok(())
    }
}

impl<T: Send + Sync + std::fmt::Debug + 'static> DelayTaskHandler for tokio::task::JoinHandle<T> {
    /// The task is aborted; quitting always succeeds.
    fn quit(self: Box<Self>) -> (r: Result<(), anyhow::Error>)
        ensures
            r is Ok,
    {
        tokio_join_handle_abort(*self);
        Ok(())
    }
}

/// A boxed handler of a running task instance.
pub struct SafeStructBoxedDelayTaskHandler(pub Box<dyn DelayTaskHandler>);

impl SafeStructBoxedDelayTaskHandler {
    /// The boxed handler.
    pub fn get_inner(self) -> Box<dyn DelayTaskHandler> {
        self.0
    }
}

/// The handle of a running task instance, with its task id, record id,
/// start time and deadline.
pub struct DelayTaskHandlerBox {
    /// Task Handle is most important part of DelayTaskHandlerBox.
    task_handler: Option<SafeStructBoxedDelayTaskHandler>,
    /// task_id.
    task_id: u64,
    /// Globally unique ID.
    record_id: i64,
    /// it's start_time.
    start_time: u64,
    /// it's end_time.
    end_time: Option<u64>,
}

/// What the trace knows of a running task instance.
pub struct HandleRecord {
    /// The id of the task.
    pub task_id: u64,
    /// The id of the running record.
    pub record_id: i64,
    /// When the instance started.
    pub start_time: u64,
    /// The deadline of the instance, if any.
    pub end_time: Option<u64>,
    /// Whether the handler is still held (not yet quit).
    pub live: bool,
}

impl View for DelayTaskHandlerBox {
    type V = HandleRecord;

    closed spec fn view(&self) -> HandleRecord {
        HandleRecord {
            task_id: self.task_id,
            record_id: self.record_id,
            start_time: self.start_time,
            end_time: self.end_time,
            live: self.task_handler is Some,
        }
    }
}

/// Builder of the handle of a running task instance.
#[derive(Debug, Clone, Copy)]
pub struct DelayTaskHandlerBoxBuilder {
    task_id: u64,
    record_id: i64,
    start_time: u64,
    end_time: Option<u64>,
}

impl Default for DelayTaskHandlerBoxBuilder {
    fn default() -> (r: Self)
        ensures
            r@ == (HandleRecord {
                task_id: 0,
                record_id: 0,
                start_time: 0,
                end_time: None,
                live: false,
            }),
    {
        DelayTaskHandlerBoxBuilder { task_id: 0, record_id: 0, start_time: 0, end_time: None }
    }
}

impl View for DelayTaskHandlerBoxBuilder {
    type V = HandleRecord;

    closed spec fn view(&self) -> HandleRecord {
        HandleRecord {
            task_id: self.task_id,
            record_id: self.record_id,
            start_time: self.start_time,
            end_time: self.end_time,
            live: false,
        }
    }
}

impl DelayTaskHandlerBoxBuilder {
    /// Set the task id.
    pub fn set_task_id(self, task_id: u64) -> (r: Self)
        ensures
            r@ == (HandleRecord { task_id, ..self@ }),
    {
        DelayTaskHandlerBoxBuilder { task_id, ..self }
    }

    /// Set the record id.
    pub fn set_record_id(self, record_id: i64) -> (r: Self)
        ensures
            r@ == (HandleRecord { record_id, ..self@ }),
    {
        DelayTaskHandlerBoxBuilder { record_id, ..self }
    }

    /// Set the start time.
    pub fn set_start_time(self, start_time: u64) -> (r: Self)
        ensures
            r@ == (HandleRecord { start_time, ..self@ }),
    {
        DelayTaskHandlerBoxBuilder { start_time, ..self }
    }

    /// Set the deadline.
    pub fn set_end_time(self, end_time: Option<u64>) -> (r: Self)
        ensures
            r@ == (HandleRecord { end_time, ..self@ }),
    {
        DelayTaskHandlerBoxBuilder { end_time, ..self }
    }

    /// The handle of a running instance, holding its handler.
    pub fn spawn(self, task_handler: Box<dyn DelayTaskHandler>) -> (r: DelayTaskHandlerBox)
        ensures
            r@ == (HandleRecord { live: true, ..self@ }),
    {
        DelayTaskHandlerBox {
            task_handler: Some(SafeStructBoxedDelayTaskHandler(task_handler)),
            task_id: self.task_id,
            record_id: self.record_id,
            start_time: self.start_time,
            end_time: self.end_time,
        }
    }
}

impl DelayTaskHandlerBox {
    /// Take the handler out of the box.
    pub fn get_task_handler(&mut self) -> (r: Option<SafeStructBoxedDelayTaskHandler>)
        ensures
            r is Some == old(self)@.live,
            final(self)@ == (HandleRecord { live: false, ..old(self)@ }),
    {
        self.task_handler.take()
    }

    /// The task id.
    pub fn get_task_id(&self) -> (r: u64)
        ensures
            r == self@.task_id,
    {
        self.task_id
    }

    /// The record id.
    pub fn get_record_id(&self) -> (r: i64)
        ensures
            r == self@.record_id,
    {
        self.record_id
    }

    /// The deadline.
    pub fn get_end_time(&self) -> (r: Option<u64>)
        ensures
            r == self@.end_time,
    {
        self.end_time
    }

    /// Stop the running instance: the handler is taken out and quit. What
    /// quitting gives is up to the handler.
    pub fn quit(&mut self) -> (r: Result<(), anyhow::Error>)
        ensures
            final(self)@ == (HandleRecord { live: false, ..old(self)@ }),
            !old(self)@.live ==> r is Ok,
    {
        if let Some(task_handler) = self.task_handler.take() {
            return task_handler.get_inner().quit();
        }
        Ok(())
    }
}

/// Why a running instance could not be quit.
#[derive(Debug)]
pub enum TaskTraceError {
    /// No handler list for the task.
    NoHandlerList(u64),
    /// No handler with that record id in the task's list.
    NoHandler(u64, i64),
    /// The handler failed to quit.
    QuitFailed(anyhow::Error),
}

/// What quitting the first handle of task `task_id` with `record_id` does
/// to the lists of records: without a list for the task, or without such a
/// record in it, nothing changes and the error says which; otherwise the
/// first such record leaves the list, and the outcome is that of quitting
/// its handler.
pub open spec fn handler_quit(
    old: Map<u64, Seq<HandleRecord>>,
    new: Map<u64, Seq<HandleRecord>>,
    task_id: u64,
    record_id: i64,
    r: Result<(), TaskTraceError>,
) -> bool {
    &&& !old.contains_key(task_id) ==> (r matches Err(TaskTraceError::NoHandlerList(t)) && t
        == task_id && new == old)
    &&& old.contains_key(task_id) ==> {
        ||| exists|i: int|
            0 <= i < old[task_id].len() && #[trigger] old[task_id][i].record_id == record_id && (
            forall|j: int| 0 <= j < i ==> #[trigger] old[task_id][j].record_id != record_id)
                && new == old.insert(task_id, old[task_id].remove(i)) && (r is Ok || r matches Err(
                TaskTraceError::QuitFailed(_),
            ))
        ||| {
            &&& forall|j: int|
                0 <= j < old[task_id].len() ==> #[trigger] old[task_id][j].record_id != record_id
            &&& new == old
            &&& r matches Err(TaskTraceError::NoHandler(t, rid)) && t == task_id && rid == record_id
        }
    }
}

/// The list of records of a task in `lists` (empty where there is none).
pub open spec fn list_in(lists: Map<u64, Seq<HandleRecord>>, task_id: u64) -> Seq<HandleRecord> {
    if lists.contains_key(task_id) {
        lists[task_id]
    } else {
        Seq::empty()
    }
}

/// TaskTrace is contanier that own global task-handle.
pub struct TaskTrace {
    inner: HashMap<u64, Vec<DelayTaskHandlerBox>>,
}

/// The handles of a list, as records.
pub open spec fn records_of(list: Seq<DelayTaskHandlerBox>) -> Seq<HandleRecord> {
    list.map_values(|b: DelayTaskHandlerBox| b@)
}

impl TaskTrace {
    /// The records of the handles held for each task, oldest first.
    pub closed spec fn lists(&self) -> Map<u64, Seq<HandleRecord>> {
        self.inner@.map_values(|l: Vec<DelayTaskHandlerBox>| records_of(l@))
    }

    /// The records of the handles held for a task (empty where there is no
    /// list).
    pub open spec fn list_of(&self, task_id: u64) -> Seq<HandleRecord> {
        list_in(self.lists(), task_id)
    }

    /// An empty trace.
    pub fn new() -> (r: TaskTrace)
        ensures
            r.lists() == Map::<u64, Seq<HandleRecord>>::empty(),
    {
        let r = TaskTrace { inner: HashMap::new() };
        assert(r.lists() =~= Map::<u64, Seq<HandleRecord>>::empty());
        r
    }

    /// Keep the handle of a running instance, after those already kept for
    /// its task.
    pub fn insert(&mut self, task_id: u64, task_handler_box: DelayTaskHandlerBox)
        ensures
            final(self).lists() == old(self).lists().insert(
                task_id,
                old(self).list_of(task_id).push(task_handler_box@),
            ),
    {
        let ghost old_inner = self.inner@;
        let mut list = match self.inner.remove(&task_id) {
            Some(l) => l,
            None => Vec::new(),
        };
        let ghost old_list = list@;
        proof {
            if old_inner.contains_key(task_id) {
                assert(old_list == old_inner[task_id]@);
                assert(old(self).list_of(task_id) == records_of(old_list));
            } else {
                assert(old_list == Seq::<DelayTaskHandlerBox>::empty());
                assert(records_of(old_list) =~= Seq::<HandleRecord>::empty());
            }
        }
        list.push(task_handler_box);
        proof {
            assert(records_of(list@) =~= records_of(old_list).push(task_handler_box@));
        }
        self.inner.insert(task_id, list);
        proof {
            assert(self.inner@ == old_inner.insert(task_id, list));
            assert(self.lists() =~= old(self).lists().insert(
                task_id,
                old(self).list_of(task_id).push(task_handler_box@),
            ));
        }
    }

    /// Quit every held handle and let the trace go.
    pub fn clear(self) {
        let mut inner = self.inner;
        let mut keys: Vec<u64> = Vec::new();
        for k in iter: inner.keys() {
            keys.push(*k);
        }
        let n = keys.len();
        for i in 0..n
            invariant
                n == keys@.len(),
        {
            if let Some(list) = inner.remove(&keys[i]) {
                let mut list = list;
                while list.len() > 0
                    decreases list.len(),
                {
                    let mut task_handler_box = list.remove(0);
                    let _ = task_handler_box.quit();
                }
            }
        }
    }

    /// Remove the first handle held for the task with that record id and
    /// quit it.
    pub fn quit_one_task_handler(&mut self, task_id: u64, record_id: i64) -> (r: Result<
        (),
        TaskTraceError,
    >)
        ensures
            handler_quit(old(self).lists(), final(self).lists(), task_id, record_id, r),
    {
        let ghost old_inner = self.inner@;
        let mut list = match self.inner.remove(&task_id) {
            Some(l) => l,
            None => {
                assert(!old(self).lists().contains_key(task_id));
                assert(self.inner@ =~= old_inner);
                assert(self.lists() =~= old(self).lists());
                return Err(TaskTraceError::NoHandlerList(task_id));
            },
        };
        let ghost old_list = list@;
        assert(old(self).lists()[task_id] == records_of(old_list));
        let n = list.len();
        let mut i: usize = 0;
        while i < n
            invariant
                n == list@.len(),
                list@ == old_list,
                i <= n,
                forall|j: int| 0 <= j < i ==> #[trigger] list@[j]@.record_id != record_id,
            ensures
                i <= n,
                i < n ==> list@[i as int]@.record_id == record_id,
                forall|j: int| 0 <= j < i ==> #[trigger] list@[j]@.record_id != record_id,
            decreases n - i,
        {
            if list[i].record_id == record_id {
                break;
            }
            i = i + 1;
        }
        if i == n {
            self.inner.insert(task_id, list);
            proof {
                assert(self.inner@ =~= old_inner);
                assert forall|j: int|
                    0 <= j < old(self).lists()[task_id].len() implies #[trigger] old(self).lists()[task_id][j].record_id != record_id by {
                    assert(old(self).lists()[task_id][j] == old_list[j]@);
                }
            }
            return Err(TaskTraceError::NoHandler(task_id, record_id));
        }
        let mut task_handler_box = list.remove(i);
        proof {
            assert(records_of(list@) =~= records_of(old_list).remove(i as int));
            assert(records_of(old_list)[i as int] == old_list[i as int]@);
            assert(old(self).lists()[task_id][i as int].record_id == record_id);
            assert forall|j: int| 0 <= j < i implies #[trigger] old(self).lists()[task_id][j].record_id
                != record_id by {
                assert(old(self).lists()[task_id][j] == old_list[j]@);
            }
        }
        self.inner.insert(task_id, list);
        proof {
            assert(self.lists() =~= old(self).lists().insert(
                task_id,
                old(self).lists()[task_id].remove(i as int),
            ));
        }
        match task_handler_box.quit() {
            Ok(()) => Ok(()),
            Err(e) => Err(TaskTraceError::QuitFailed(e)),
        }
    }
}

/// Keeping the handle of a new running instance and then quitting that
/// record (with no earlier record of the same id kept for its task) leaves
/// the task's list as it was (empty where there was none), and the outcome
/// is that of quitting the handler.
pub proof fn lemma_insert_then_quit_restores(
    lists: Map<u64, Seq<HandleRecord>>,
    task_id: u64,
    record: HandleRecord,
    after: Map<u64, Seq<HandleRecord>>,
    r: Result<(), TaskTraceError>,
)
    requires
        forall|j: int|
            0 <= j < list_in(lists, task_id).len() ==> #[trigger] list_in(lists, task_id)[j].record_id
                != record.record_id,
        handler_quit(
            lists.insert(task_id, list_in(lists, task_id).push(record)),
            after,
            task_id,
            record.record_id,
            r,
        ),
    ensures
        after == lists.insert(task_id, list_in(lists, task_id)),
        r is Ok || r matches Err(TaskTraceError::QuitFailed(_)),
{
    let old_list = list_in(lists, task_id);
    let inserted = lists.insert(task_id, old_list.push(record));
    assert(inserted[task_id] == old_list.push(record));
    let n = old_list.len() as int;
    assert(inserted[task_id][n].record_id == record.record_id);
    if forall|j: int|
        0 <= j < inserted[task_id].len() ==> #[trigger] inserted[task_id][j].record_id
            != record.record_id {
        assert(false);
    }
    let i = choose|i: int|
        0 <= i < inserted[task_id].len() && #[trigger] inserted[task_id][i].record_id
            == record.record_id && (forall|j: int|
            0 <= j < i ==> #[trigger] inserted[task_id][j].record_id != record.record_id)
            && after == inserted.insert(task_id, inserted[task_id].remove(i)) && (r is Ok
            || r matches Err(TaskTraceError::QuitFailed(_)));
    assert(i == n) by {
        if i < n {
            assert(inserted[task_id][i] == old_list[i]);
        } else if i > n {
            assert(!(inserted[task_id][n].record_id != record.record_id));
        }
    }
    assert(inserted[task_id].remove(n) =~= old_list);
    assert(after =~= lists.insert(task_id, old_list));
}

} // verus!
