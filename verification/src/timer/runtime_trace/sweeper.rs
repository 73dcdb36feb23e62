//! Sweeper
//!
//! this is the recource guardian:
//!
//! 1. recycle recource get through small-heap by task setting max-running-time.
//! 2. If the task is not set `max-running-time`, it will be automatically recycled when it finishes running.
use vstd::prelude::*;

verus! {

/// How many units one round of recycling takes at most.
pub const RECYCLE_BATCH: usize = 200;

/// How long to wait (in seconds) before the next round when nothing is
/// kept.
pub const RECYCLE_IDLE_WAIT: u64 = 3;

/// recycle unit.
#[derive(Default, Debug, Copy, Clone)]
pub struct RecycleUnit {
    /// deadline.
    pub deadline: u64,
    /// task-id.
    pub task_id: u64,
    ///record-id.
    pub record_id: i64,
}

impl RecycleUnit {
    /// A unit that times out the instance `record_id` of task `task_id` at
    /// `deadline`.
    pub fn new(deadline: u64, task_id: u64, record_id: i64) -> (r: RecycleUnit)
        ensures
            r == (RecycleUnit { deadline, task_id, record_id }),
    {
        RecycleUnit { deadline, task_id, record_id }
    }
}

impl PartialEq for RecycleUnit {
    /// Two units are equal when their deadlines are.
    fn eq(&self, other: &Self) -> (r: bool) {
        self.deadline == other.deadline
    }
}

impl vstd::std_specs::cmp::PartialEqSpecImpl for RecycleUnit {
    open spec fn obeys_eq_spec() -> bool {
        true
    }

    open spec fn eq_spec(&self, other: &Self) -> bool {
        self.deadline == other.deadline
    }
}

/// The units are kept in order of deadline, earliest first.
pub open spec fn by_deadline(units: Seq<RecycleUnit>) -> bool {
    forall|i: int, j: int| 0 <= i <= j < units.len() ==> #[trigger] units[i].deadline <= #[trigger] units[j].deadline
}

/// RecyclingBins is resource recycler, excute timeout task-handle: it keeps
/// the units of the running instances that have a deadline.
pub struct RecyclingBins {
    /// storage all task-handle in there, in order of deadline.
    recycle_unit_heap: Vec<RecycleUnit>,
}

impl RecyclingBins {
    /// The kept units, earliest deadline first.
    pub closed spec fn units(&self) -> Seq<RecycleUnit> {
        self.recycle_unit_heap@
    }

    /// The units are in order of deadline.
    pub open spec fn wf(&self) -> bool {
        by_deadline(self.units())
    }

    /// construct.
    pub fn new() -> (r: RecyclingBins)
        ensures
            r.wf(),
            r.units() == Seq::<RecycleUnit>::empty(),
    {
        RecyclingBins { recycle_unit_heap: Vec::new() }
    }

    /// Keep a unit: it goes after the units whose deadline is not later and
    /// before the others.
    pub fn add_recycle_unit(&mut self, recycle_unit: RecycleUnit)
        requires
            old(self).wf(),
        ensures
            final(self).wf(),
            exists|k: int|
                0 <= k <= old(self).units().len() && final(self).units() == old(self).units().insert(k, recycle_unit) && (forall|i: int|
                    0 <= i < k ==> #[trigger] old(self).units()[i].deadline
                        <= recycle_unit.deadline) && (forall|i: int|
                    k <= i < old(self).units().len() ==> #[trigger] old(self).units()[i].deadline
                        > recycle_unit.deadline),
    {
        let n = self.recycle_unit_heap.len();
        let mut k: usize = 0;
        while k < n
            invariant
                n == self.recycle_unit_heap@.len(),
                self.recycle_unit_heap@ == old(self).units(),
                k <= n,
                forall|i: int| 0 <= i < k ==> #[trigger] self.recycle_unit_heap@[i].deadline
                    <= recycle_unit.deadline,
            ensures
                k <= n,
                forall|i: int| 0 <= i < k ==> #[trigger] self.recycle_unit_heap@[i].deadline
                    <= recycle_unit.deadline,
                k < n ==> self.recycle_unit_heap@[k as int].deadline > recycle_unit.deadline,
            decreases n - k,
        {
            if self.recycle_unit_heap[k].deadline > recycle_unit.deadline {
                break;
            }
            k = k + 1;
        }
        let ghost before = self.recycle_unit_heap@;
        proof {
            assert forall|i: int| k <= i < n implies #[trigger] before[i].deadline
                > recycle_unit.deadline by {
                assert(before[k as int].deadline <= before[i].deadline);
            }
        }
        self.recycle_unit_heap.insert(k, recycle_unit);
        proof {
            let after = self.recycle_unit_heap@;
            assert forall|i: int, j: int| 0 <= i <= j < after.len() implies #[trigger] after[i].deadline
                <= #[trigger] after[j].deadline by {
                if i < k && j < k {
                    assert(after[i] == before[i] && after[j] == before[j]);
                } else if i < k && j == k {
                    assert(after[i] == before[i]);
                } else if i < k {
                    assert(after[i] == before[i] && after[j] == before[j - 1]);
                } else if i == k && j > k {
                    assert(after[j] == before[j - 1]);
                } else if i > k {
                    assert(after[i] == before[i - 1] && after[j] == before[j - 1]);
                }
            }
        }
    }

    /// One round of recycling at `now`: take out, earliest first, at most
    /// `RECYCLE_BATCH` units whose deadline has come; give them with how many
    /// seconds to wait before the next round (until the earliest deadline
    /// left, or `RECYCLE_IDLE_WAIT` where none is left or the round was
    /// full).
    pub fn recycle(&mut self, now: u64) -> (r: (Vec<RecycleUnit>, u64))
        requires
            old(self).wf(),
        ensures
            final(self).wf(),
            r.0@.len() <= RECYCLE_BATCH,
            old(self).units() == r.0@ + final(self).units(),
            forall|i: int| 0 <= i < r.0@.len() ==> #[trigger] r.0@[i].deadline <= now,
            r.0@.len() < RECYCLE_BATCH ==> (final(self).units().len() == 0 || final(self).units()[0].deadline > now),
            r.1 == if r.0@.len() < RECYCLE_BATCH && final(self).units().len() > 0 {
                (final(self).units()[0].deadline - now) as u64
            } else {
                RECYCLE_IDLE_WAIT
            },
    {
        let mut expired: Vec<RecycleUnit> = Vec::new();
        let mut count: usize = 0;
        let mut wait: Option<u64> = None;
        while count < RECYCLE_BATCH
            invariant_except_break
                wait is None,
            invariant
                count <= RECYCLE_BATCH,
                expired@.len() == count,
                old(self).units() == expired@ + self.recycle_unit_heap@,
                by_deadline(self.recycle_unit_heap@),
                forall|i: int| 0 <= i < expired@.len() ==> #[trigger] expired@[i].deadline <= now,
            ensures
                count <= RECYCLE_BATCH,
                expired@.len() == count,
                old(self).units() == expired@ + self.recycle_unit_heap@,
                by_deadline(self.recycle_unit_heap@),
                forall|i: int| 0 <= i < expired@.len() ==> #[trigger] expired@[i].deadline <= now,
                count < RECYCLE_BATCH ==> (self.recycle_unit_heap@.len() == 0
                    || self.recycle_unit_heap@[0].deadline > now),
                wait == if count < RECYCLE_BATCH && self.recycle_unit_heap@.len() > 0 {
                    Some((self.recycle_unit_heap@[0].deadline - now) as u64)
                } else {
                    None::<u64>
                },
            decreases RECYCLE_BATCH - count,
        {
            if self.recycle_unit_heap.len() == 0 {
                break;
            }
            let deadline = self.recycle_unit_heap[0].deadline;
            if deadline > now {
                wait = Some(deadline - now);
                break;
            }
            let ghost before = self.recycle_unit_heap@;
            let recycle_unit = self.recycle_unit_heap.remove(0);
            expired.push(recycle_unit);
            count = count + 1;
            proof {
                assert(self.recycle_unit_heap@ =~= before.subrange(1, before.len() as int));
                assert(expired@ + self.recycle_unit_heap@ =~= old(self).units());
            }
        }
        let duration = match wait {
            Some(d) => d,
            None => RECYCLE_IDLE_WAIT,
        };
        (expired, duration)
    }
}

/// The units a round gives come out in order of deadline.
pub proof fn lemma_recycled_in_deadline_order(bins: RecyclingBins, recycled: Seq<RecycleUnit>, rest: Seq<RecycleUnit>)
    requires
        bins.wf(),
        bins.units() == recycled + rest,
    ensures
        by_deadline(recycled),
        forall|i: int, j: int| 0 <= i < recycled.len() && 0 <= j < rest.len() ==> #[trigger] recycled[i].deadline <= #[trigger] rest[j].deadline,
{
    assert forall|i: int, j: int| 0 <= i <= j < recycled.len() implies #[trigger] recycled[i].deadline <= #[trigger] recycled[j].deadline by {
        assert(bins.units()[i] == recycled[i] && bins.units()[j] == recycled[j]);
    }
    assert forall|i: int, j: int| 0 <= i < recycled.len() && 0 <= j < rest.len() implies #[trigger] recycled[i].deadline <= #[trigger] rest[j].deadline by {
        assert(bins.units()[i] == recycled[i]);
        assert(bins.units()[recycled.len() + j] == rest[j]);
    }
}

} // verus!
