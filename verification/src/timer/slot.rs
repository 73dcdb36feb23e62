//! Slot
//! It is the scale of the internal clock.
use vstd::prelude::*;

use super::task::{Task, TaskView};
use std::collections::HashMap;
use vstd::std_specs::iter::IteratorSpec;

verus! {

broadcast use vstd::std_specs::hash::group_hash_axioms;

/// `HashMap::shrink_to`: lowers the capacity; what the map holds is
/// unchanged.
#[verifier::external_body]
fn hash_map_shrink_to<V>(m: &mut HashMap<u64, V>, min_capacity: usize)
    ensures
        final(m)@ == old(m)@,
{
    m.shrink_to(min_capacity);
}

/// Whether a task is due when the second hand reaches its slot: it has no
/// turns left and is valid.
pub open spec fn arrived<R>(t: Task<R>) -> bool {
    t@.cylinder_line == 0 && t@.valid
}

/// What the second hand passing over a slot does to a task in it: a task
/// with turns left has one turn counted off; others are left as they are.
pub open spec fn ticked<R>(t: Task<R>, u: Task<R>) -> bool {
    &&& t@.cylinder_line == 0 ==> u == t
    &&& t@.cylinder_line > 0 ==> u@ == (TaskView {
        cylinder_line: (t@.cylinder_line - 1) as u64,
        ..t@
    }) && u.spec_routine() == t.spec_routine()
}

/// Slot is based on HashMap, It easy to add it and find it.
pub struct Slot<R> {
    task_map: HashMap<u64, Task<R>>,
}

impl<R> Slot<R> {
    /// The tasks of the slot, by id.
    pub closed spec fn tasks(&self) -> Map<u64, Task<R>> {
        self.task_map@
    }

    /// Every task is filed under its own id and is well formed.
    pub open spec fn wf(&self) -> bool {
        forall|id: u64| #[trigger]
            self.tasks().contains_key(id) ==> self.tasks()[id]@.task_id == id
                && self.tasks()[id].wf()
    }

    /// An empty slot.
    pub fn new() -> (r: Slot<R>)
        ensures
            r.wf(),
            r.tasks() == Map::<u64, Task<R>>::empty(),
    {
        Slot { task_map: HashMap::new() }
    }

    /// Put a task in the slot; a task with the same id is replaced and
    /// given back.
    pub fn add_task(&mut self, task: Task<R>) -> (r: Option<Task<R>>)
        requires
            old(self).wf(),
            task.wf(),
        ensures
            final(self).wf(),
            final(self).tasks() == old(self).tasks().insert(task@.task_id, task),
            r == old(self).tasks().get(task@.task_id),
    {
        let id = task.task_id();
        self.task_map.insert(id, task)
    }

    /// Put the new version of a task in the slot, giving back the version it
    /// replaces, if any.
    pub fn update_task(&mut self, task: Task<R>) -> (r: Option<Task<R>>)
        requires
            old(self).wf(),
            task.wf(),
        ensures
            final(self).wf(),
            final(self).tasks() == old(self).tasks().insert(task@.task_id, task),
            r == old(self).tasks().get(task@.task_id),
    {
        self.add_task(task)
    }

    /// Take a task out of the slot.
    pub fn remove_task(&mut self, task_id: u64) -> (r: Option<Task<R>>)
        requires
            old(self).wf(),
        ensures
            final(self).wf(),
            final(self).tasks() == old(self).tasks().remove(task_id),
            r == old(self).tasks().get(task_id),
            r matches Some(t) ==> t.wf() && t@.task_id == task_id,
    {
        self.task_map.remove(&task_id)
    }

    /// Check and reduce cylinder_line,
    /// Returns a Vec. containing all task ids to be executed.(cylinder_line == 0)
    pub fn arrival_time_tasks(&mut self) -> (r: Vec<u64>)
        requires
            old(self).wf(),
        ensures
            final(self).wf(),
            final(self).tasks().dom() == old(self).tasks().dom(),
            forall|id: u64| #[trigger]
                old(self).tasks().contains_key(id) ==> ticked(
                    old(self).tasks()[id],
                    final(self).tasks()[id],
                ),
            r@.no_duplicates(),
            forall|id: u64|
                #![trigger r@.contains(id)]
                #![trigger arrived(old(self).tasks()[id])]
                r@.contains(id) <==> (old(self).tasks().contains_key(id) && arrived(
                    old(self).tasks()[id],
                )),
    {
        let ghost old_map = self.task_map@;
        let ghost full = vstd::std_specs::hash::spec_keys_iter(&self.task_map).remaining().unref();
        proof {
            assert(full.to_set() == old_map.dom());
            assert(vstd::std_specs::hash::spec_keys_iter(&self.task_map).remaining().no_duplicates());
            assert(full.no_duplicates()) by {
                let rs = vstd::std_specs::hash::spec_keys_iter(&self.task_map).remaining();
                assert forall|a: int, b: int| 0 <= a < b < full.len() implies full[a] != full[b] by {
                    assert(full[a] == *rs[a]);
                    assert(full[b] == *rs[b]);
                }
            }
        }
        let mut ids: Vec<u64> = Vec::new();
        for k in iter: self.task_map.keys()
            invariant
                self.task_map@ == old_map,
                iter.seq().unref() == full,
                ids@ == full.take(iter.index()),
            ensures
                ids@ == full.take(full.len() as int),
        {
            proof {
                assert(*k == full[iter.index()]);
            }
            ids.push(*k);
            proof {
                assert(ids@ =~= full.take(iter.index() + 1));
            }
        }
        proof {
            assert(ids@ =~= full);
        }
        let mut arrived_ids: Vec<u64> = Vec::new();
        let n = ids.len();
        for i in 0..n
            invariant
                n == ids@.len(),
                ids@.to_set() == old_map.dom(),
                ids@.no_duplicates(),
                old(self).wf(),
                old(self).tasks() == old_map,
                self.task_map@.dom() == old_map.dom(),
                self.wf(),
                forall|id: u64| #[trigger]
                    old_map.contains_key(id) ==> (if ids@.take(i as int).contains(id) {
                        ticked(old_map[id], self.task_map@[id])
                    } else {
                        self.task_map@[id] == old_map[id]
                    }),
                arrived_ids@.no_duplicates(),
                forall|id: u64|
                    #![trigger arrived_ids@.contains(id)]
                    #![trigger ids@.take(i as int).contains(id)]
                    arrived_ids@.contains(id) <==> (ids@.take(i as int).contains(id)
                        && arrived(old_map[id])),
        {
            let id = ids[i];
            proof {
                assert(ids@.to_set().contains(id));
                assert(!ids@.take(i as int).contains(id)) by {
                    if ids@.take(i as int).contains(id) {
                        let j = choose|j: int| 0 <= j < i && ids@.take(i as int)[j] == id;
                        assert(ids@[j] == ids@[i as int]);
                    }
                }
                assert(ids@.take(i + 1) =~= ids@.take(i as int).push(id));
            }
            let ghost before = self.task_map@;
            let ghost old_arrived = arrived_ids@;
            if let Some(mut task) = self.task_map.remove(&id) {
                let ghost t0 = task;
                let arrived_now = task.check_arrived();
                proof {
                    assert(ticked(t0, task)) by {
                        if t0@.cylinder_line == 0 {
                        } else {
                        }
                    }
                }
                self.task_map.insert(id, task);
                if arrived_now {
                    arrived_ids.push(id);
                }
                proof {
                    if arrived_now {
                        assert(arrived_ids@ == old_arrived.push(id));
                        assert(!old_arrived.contains(id));
                    } else {
                        assert(arrived_ids@ == old_arrived);
                    }
                }
                proof {
                    assert(self.task_map@ == before.insert(id, task));
                    assert(t0 == old_map[id]);
                    assert(arrived_now == arrived(old_map[id]));
                    assert(ids@.take(i + 1)[i as int] == id);
                    assert forall|x: u64| #[trigger]
                        old_map.contains_key(x) implies (if ids@.take(i + 1).contains(x) {
                        ticked(old_map[x], self.task_map@[x])
                    } else {
                        self.task_map@[x] == old_map[x]
                    }) by {
                        if x != id {
                            assert(ids@.take(i + 1).contains(x) == ids@.take(i as int).contains(x));
                        } else {
                            assert(ids@.take(i + 1).contains(x));
                        }
                    }
                    assert forall|x: u64|
                        #![trigger arrived_ids@.contains(x)]
                        #![trigger ids@.take(i + 1).contains(x)]
                        arrived_ids@.contains(x) <==> (ids@.take(i + 1).contains(x)
                            && arrived(old_map[x])) by {
                        if x != id {
                            assert(ids@.take(i + 1).contains(x) == ids@.take(i as int).contains(x));
                            if arrived_now {
                                assert(arrived_ids@ == old_arrived.push(id));
                                if old_arrived.contains(x) {
                                    let j = choose|j: int| 0 <= j < old_arrived.len() && old_arrived[j] == x;
                                    assert(arrived_ids@[j] == x);
                                }
                                if arrived_ids@.contains(x) {
                                    let j = choose|j: int| 0 <= j < arrived_ids@.len() && arrived_ids@[j] == x;
                                    assert(j < old_arrived.len());
                                    assert(old_arrived[j] == x);
                                }
                            }
                            assert(arrived_ids@.contains(x) == old_arrived.contains(x));
                        } else {
                            assert(ids@.take(i + 1).contains(x));
                            assert(!old_arrived.contains(x));
                            if arrived_now {
                                assert(arrived_ids@[arrived_ids@.len() - 1] == x);
                            }
                        }
                    }
                }
            } else {
                proof {
                    assert(false);
                }
            }
        }
        proof {
            assert(ids@.take(n as int) =~= ids@);
            assert forall|id: u64| #[trigger]
                old(self).tasks().contains_key(id) implies ticked(
                    old(self).tasks()[id],
                    self.tasks()[id],
                ) by {
                assert(ids@.to_set().contains(id));
            }
            assert forall|id: u64|
                #![trigger arrived_ids@.contains(id)]
                #![trigger arrived(old(self).tasks()[id])]
                arrived_ids@.contains(id) <==> (old(self).tasks().contains_key(id)
                    && arrived(old(self).tasks()[id])) by {
                if old(self).tasks().contains_key(id) {
                    assert(ids@.to_set().contains(id));
                }
                if arrived_ids@.contains(id) {
                    assert(ids@.take(n as int).contains(id));
                    assert(ids@.to_set().contains(id));
                }
            }
        }
        arrived_ids
    }

    /// When the operation is finished with the task, shrink the container in time
    /// To avoid the overall time-wheel from occupying too much memory.
    pub fn shrink(&mut self)
        ensures
            final(self).tasks() == old(self).tasks(),
    {
        hash_map_shrink_to(&mut self.task_map, 64);
    }
}

/// Adding a task to a slot that holds no task of its id, then removing that
/// id, gives the task back and leaves the slot as it was.
pub proof fn lemma_add_then_remove<R>(tasks: Map<u64, Task<R>>, task: Task<R>)
    requires
        !tasks.contains_key(task@.task_id),
    ensures
        tasks.insert(task@.task_id, task).get(task@.task_id) == Some(task),
        tasks.insert(task@.task_id, task).remove(task@.task_id) == tasks,
{
    assert(tasks.insert(task@.task_id, task).remove(task@.task_id) =~= tasks);
}

} // verus!
