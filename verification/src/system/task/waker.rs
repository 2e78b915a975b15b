use vstd::prelude::*;

use crate::sync::isr::IsrResult;
use crate::system::task::registry::{Registry, TaskId, TaskSlot, MAX_TASKS};
use crate::system::task::waker_impl::{self, RawWaker};
use crate::system::task::TaskPtr;

verus! {

/// Wakes one task.
#[derive(Clone, Copy, Debug, PartialEq, Eq, Structural)]
pub struct TaskWaker {
    pub id: TaskId,
}

impl TaskWaker {
    pub fn new(id: TaskId) -> (waker: Self)
        ensures
            waker.id == id,
    {
        TaskWaker { id }
    }

    pub fn to_waker(&self) -> (waker: RawWaker)
        ensures
            waker == (RawWaker {
                data: self.id.index() as usize,
                vtable: waker_impl::VTable::Task,
            }),
    {
        waker_impl::new(self.id)
    }

    /// The waker of the task that polls with `waker`. If `waker` does not
    /// say which task that is, the registry is searched for the slot of the
    /// native thread `current`; there is no waker if it has none.
    pub fn from_context(waker: &RawWaker, registry: &Registry, current: TaskPtr) -> (res: Option<
        Self,
    >)
        requires
            waker.vtable == waker_impl::VTable::Task ==> waker.data < MAX_TASKS,
        ensures
            waker.vtable == waker_impl::VTable::Task ==> res is Some && res->Some_0.id.index()
                == waker.data,
            waker.vtable != waker_impl::VTable::Task ==> match res {
                Some(found) => found.id.wf() && crate::system::task::registry::first_owned(
                    registry.slots@,
                    current,
                    MAX_TASKS as int,
                ) == Some(found.id.index()),
                None => crate::system::task::registry::first_owned(
                    registry.slots@,
                    current,
                    MAX_TASKS as int,
                ) is None,
            },
            res matches Some(found) ==> found.id.wf(),
    {
        match waker_impl::task_id(waker) {
            Some(id) => Some(TaskWaker { id }),
            None => {
                // we wake an entire task at once, so if we can't cheaply
                // retrieve the task id from the waker, we can scan the
                // registry:
                match TaskId::current(registry, current) {
                    Some(id) => Some(TaskWaker { id }),
                    None => None,
                }
            },
        }
    }
}

/// Whether bit `index` is set in `bits`.
pub open spec fn bit_set(bits: u32, index: int) -> bool {
    bits & (1u32 << (index as u32)) != 0
}

/// The threads to notify for the set `bits`: for each slot below `limit`
/// whose bit is set and that has an owner, the owner, in ascending order of
/// slots.
pub open spec fn wakeable(bits: u32, slots: Seq<TaskSlot>, limit: int) -> Seq<TaskPtr>
    decreases limit,
{
    if limit <= 0 {
        Seq::empty()
    } else if bit_set(bits, limit - 1) && slots[limit - 1].ptr is Some {
        wakeable(bits, slots, limit - 1).push(slots[limit - 1].ptr->Some_0)
    } else {
        wakeable(bits, slots, limit - 1)
    }
}

/// A set of tasks that wait to be woken, one bit per task id.
pub struct TaskWakerSet {
    bits: u32,
}

impl TaskWakerSet {
    pub closed spec fn bits(&self) -> u32 {
        self.bits
    }

    /// Whether the task of slot `index` waits to be woken.
    pub open spec fn contains(&self, index: int) -> bool {
        bit_set(self.bits(), index)
    }

    pub fn new() -> (set: Self)
        ensures
            set.bits() == 0,
            forall|index: int| 0 <= index < MAX_TASKS ==> !#[trigger] set.contains(index),
    {
        assert forall|index: int| 0 <= index < MAX_TASKS implies !bit_set(0u32, index) by {
            let shift = index as u32;
            assert(0u32 & (1u32 << shift) == 0) by (bit_vector);
        }
        TaskWakerSet { bits: 0 }
    }

    /// Adds the task of `waker` to the set. Adding a task that is in the set
    /// changes nothing.
    pub fn add_task(&mut self, waker: &TaskWaker)
        requires
            waker.id.wf(),
        ensures
            final(self).bits() == old(self).bits() | (1u32 << (waker.id.index() as u32)),
            forall|index: int|
                0 <= index < MAX_TASKS ==> (#[trigger] final(self).contains(index) <==> (index
                    == waker.id.index() || old(self).contains(index))),
    {
        let task_bit = waker.id.as_bit();
        let ghost before = self.bits;
        self.bits = self.bits | task_bit;
        assert forall|index: int| 0 <= index < MAX_TASKS implies (#[trigger] self.contains(index)
            <==> (index == waker.id.index() || bit_set(before, index))) by {
            let shift = index as u32;
            let own = waker.id.index() as u32;
            assert(((before | (1u32 << own)) & (1u32 << shift) != 0) <==> (shift == own || (before
                & (1u32 << shift) != 0))) by (bit_vector)
                requires
                    shift < 32,
                    own < 32,
            ;
        }
    }

    /// Empties the set and hands out the threads to notify: the owners of
    /// the slots of the tasks that were in the set. A task that has left its
    /// slot since it was added is passed over.
    pub fn take_wakeable(&mut self, registry: &Registry) -> (tasks: Vec<TaskPtr>)
        ensures
            final(self).bits() == 0,
            tasks@ == wakeable(old(self).bits(), registry.slots@, MAX_TASKS as int),
    {
        let bitset = self.bits;
        self.bits = 0;

        let mut tasks: Vec<TaskPtr> = Vec::new();
        let mut num: usize = 0;
        while num < MAX_TASKS
            invariant
                num <= MAX_TASKS,
                tasks@ == wakeable(bitset, registry.slots@, num as int),
            decreases MAX_TASKS - num,
        {
            let id = TaskId::new(num);
            if (bitset & id.as_bit()) != 0 {
                match id.slot(registry).load() {
                    Some(task) => {
                        tasks.push(task);
                    },
                    None => {},
                }
            }
            num += 1;
        }
        tasks
    }

    /// Empties the set and hands out the threads to notify.
    pub fn wake_all(&mut self, registry: &Registry) -> (tasks: Vec<TaskPtr>)
        ensures
            final(self).bits() == 0,
            tasks@ == wakeable(old(self).bits(), registry.slots@, MAX_TASKS as int),
    {
        self.take_wakeable(registry)
    }

    /// Empties the set and hands out the threads to notify from interrupt
    /// context.
    pub fn wake_from_isr(&mut self, registry: &Registry) -> (tasks: Vec<TaskPtr>)
        ensures
            final(self).bits() == 0,
            tasks@ == wakeable(old(self).bits(), registry.slots@, MAX_TASKS as int),
    {
        self.take_wakeable(registry)
    }
}

/// Whether any of the first `limit` flags is set.
pub open spec fn any_set(flags: Seq<bool>, limit: int) -> bool
    decreases limit,
{
    if limit <= 0 {
        false
    } else {
        any_set(flags, limit - 1) || flags[limit - 1]
    }
}

/// What waking from interrupt context comes to, given what each
/// notification said about the need for a context switch: a switch is
/// needed if any notification needs one.
pub fn woken_from_isr<E>(need_wake: &[bool]) -> (res: IsrResult<(), E>)
    ensures
        res.result == Ok::<(), E>(()),
        res.need_wake == any_set(need_wake@, need_wake@.len() as int),
{
    let mut result: IsrResult<(), E> = IsrResult::ok((), false);
    let mut i: usize = 0;
    while i < need_wake.len()
        invariant
            i <= need_wake@.len(),
            result.result == Ok::<(), E>(()),
            result.need_wake == any_set(need_wake@, i as int),
        decreases need_wake@.len() - i,
    {
        result = result.chain(IsrResult::ok((), need_wake[i]));
        i += 1;
    }
    result
}

/// A task that is added to a set is in it, and a wake empties the set:
/// nothing is woken twice for one registration.
pub proof fn lemma_wakeable_of_empty(slots: Seq<TaskSlot>, limit: int)
    requires
        0 <= limit <= MAX_TASKS,
    ensures
        wakeable(0u32, slots, limit) == Seq::<TaskPtr>::empty(),
    decreases limit,
{
    if limit > 0 {
        lemma_wakeable_of_empty(slots, limit - 1);
        let shift = (limit - 1) as u32;
        assert(0u32 & (1u32 << shift) == 0) by (bit_vector);
    }
}

/// Waking after a task has left its slot notifies nobody for that task.
pub proof fn lemma_wake_after_exit(bits: u32, slots: Seq<TaskSlot>, limit: int, task: TaskPtr)
    requires
        0 <= limit <= MAX_TASKS,
        limit <= slots.len(),
        forall|i: int| 0 <= i < limit ==> (#[trigger] slots[i]).ptr != Some(task),
    ensures
        !wakeable(bits, slots, limit).contains(task),
    decreases limit,
{
    if limit > 0 {
        lemma_wake_after_exit(bits, slots, limit - 1, task);
        let rest = wakeable(bits, slots, limit - 1);
        if bit_set(bits, limit - 1) && slots[limit - 1].ptr is Some {
            let owner = slots[limit - 1].ptr->Some_0;
            assert forall|k: int| 0 <= k < rest.push(owner).len() implies rest.push(owner)[k]
                != task by {
                if k < rest.len() {
                    assert(rest.contains(rest[k]));
                }
            }
        }
    }
}

} // verus!
