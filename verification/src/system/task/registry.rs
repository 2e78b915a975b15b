use vstd::prelude::*;

use crate::system::task::TaskPtr;

verus! {

/// The number of task slots, and of bits in a waker set.
pub const MAX_TASKS: usize = 32;

/// One slot of the registry: the native thread of the task that owns the
/// slot, or nothing.
#[derive(Clone, Copy, Debug, PartialEq, Eq, Structural)]
pub struct TaskSlot {
    pub ptr: Option<TaskPtr>,
}

impl TaskSlot {
    pub fn empty() -> (slot: Self)
        ensures
            slot.ptr is None,
    {
        TaskSlot { ptr: None }
    }

    pub fn load(&self) -> (task: Option<TaskPtr>)
        ensures
            task == self.ptr,
    {
        self.ptr
    }

    pub fn clear(&mut self)
        ensures
            final(self).ptr is None,
    {
        self.ptr = None;
    }

    /// Takes the slot for `task` if nobody owns it; an owned slot stays as
    /// it is.
    pub fn try_claim(&mut self, task: TaskPtr) -> (res: Result<(), ()>)
        ensures
            res is Ok <==> old(self).ptr is None,
            res is Ok ==> final(self).ptr == Some(task),
            res is Err ==> final(self).ptr == old(self).ptr,
    {
        match self.ptr {
            None => {
                self.ptr = Some(task);
                Ok(())
            },
            Some(_) => Err(()),
        }
    }
}

/// The table of task slots.
pub struct Registry {
    pub slots: [TaskSlot; MAX_TASKS],
}

/// Identifies a task slot.
#[derive(Clone, Copy, Debug, PartialEq, Eq, Structural)]
pub struct TaskId(u8);

/// The lowest slot below `limit` that is free, if any.
pub open spec fn first_free(slots: Seq<TaskSlot>, limit: int) -> Option<int>
    decreases limit,
{
    if limit <= 0 {
        None
    } else {
        match first_free(slots, limit - 1) {
            Some(found) => Some(found),
            None => if slots[limit - 1].ptr is None {
                Some(limit - 1)
            } else {
                None
            },
        }
    }
}

/// The lowest slot below `limit` that `task` owns, if any.
pub open spec fn first_owned(slots: Seq<TaskSlot>, task: TaskPtr, limit: int) -> Option<int>
    decreases limit,
{
    if limit <= 0 {
        None
    } else {
        match first_owned(slots, task, limit - 1) {
            Some(found) => Some(found),
            None => if slots[limit - 1].ptr == Some(task) {
                Some(limit - 1)
            } else {
                None
            },
        }
    }
}

/// The registry is full exactly when no slot is free, and the slot that is
/// found free is the lowest free one.
pub proof fn lemma_first_free(slots: Seq<TaskSlot>, limit: int)
    requires
        0 <= limit <= slots.len(),
    ensures
        first_free(slots, limit) is None <==> forall|i: int|
            0 <= i < limit ==> (#[trigger] slots[i]).ptr is Some,
        first_free(slots, limit) matches Some(found) ==> 0 <= found < limit && slots[found].ptr
            is None && forall|i: int| 0 <= i < found ==> (#[trigger] slots[i]).ptr is Some,
    decreases limit,
{
    if limit > 0 {
        lemma_first_free(slots, limit - 1);
    }
}

impl Registry {
    /// A registry in which every slot is free.
    pub fn new() -> (registry: Self)
        ensures
            forall|i: int| 0 <= i < MAX_TASKS ==> (#[trigger] registry.slots@[i]).ptr is None,
    {
        Registry { slots: [TaskSlot { ptr: None };MAX_TASKS] }
    }
}

impl TaskId {
    /// The number of the slot.
    pub closed spec fn index(&self) -> int {
        self.0 as int
    }

    /// A task id names one of the `MAX_TASKS` slots.
    pub open spec fn wf(&self) -> bool {
        0 <= self.index() < MAX_TASKS
    }

    /// Two ids of the same slot are the same id.
    pub proof fn lemma_index_injective(self, other: TaskId)
        requires
            self.index() == other.index(),
        ensures
            self == other,
    {
    }

    pub fn new(num: usize) -> (id: Self)
        requires
            num < MAX_TASKS,
        ensures
            id.wf(),
            id.index() == num,
    {
        TaskId(num as u8)
    }

    /// The id of the slot that `task` owns, the lowest if it owns several.
    pub fn current(registry: &Registry, task: TaskPtr) -> (id: Option<Self>)
        ensures
            match id {
                Some(id) => id.wf() && first_owned(registry.slots@, task, MAX_TASKS as int)
                    == Some(id.index()),
                None => first_owned(registry.slots@, task, MAX_TASKS as int) is None,
            },
    {
        let mut num: usize = 0;
        while num < MAX_TASKS
            invariant
                num <= MAX_TASKS,
                first_owned(registry.slots@, task, num as int) is None,
            decreases MAX_TASKS - num,
        {
            let id = TaskId::new(num);
            match id.slot(registry).load() {
                Some(owner) => {
                    if owner.0 == task.0 {
                        proof {
                            lemma_first_owned_stays(
                                registry.slots@,
                                task,
                                num as int + 1,
                                MAX_TASKS as int,
                            );
                        }
                        return Some(id);
                    }
                },
                None => {},
            }
            num += 1;
        }
        None
    }

    /// The id that a waker keeps in its data word.
    pub fn from_opaque_ptr(opaque: usize) -> (id: Self)
        requires
            opaque < MAX_TASKS,
        ensures
            id.wf(),
            id.index() == opaque,
    {
        TaskId::new(opaque)
    }

    /// The data word of a waker for this id.
    pub fn as_opaque_ptr(self) -> (opaque: usize)
        ensures
            opaque == self.index(),
    {
        self.0 as usize
    }

    /// The slot of this id.
    pub fn slot<'a>(&self, registry: &'a Registry) -> (slot: &'a TaskSlot)
        requires
            self.wf(),
        ensures
            *slot == registry.slots@[self.index()],
    {
        &registry.slots[self.0 as usize]
    }

    /// The bit of this id in a waker set.
    pub fn as_bit(&self) -> (bit: u32)
        requires
            self.wf(),
        ensures
            bit == 1u32 << (self.index() as u32),
            bit != 0,
    {
        let shift = self.0 as u32;
        assert(1u32 << shift != 0) by (bit_vector)
            requires
                shift < 32,
        ;
        1u32 << shift
    }

    /// Every id, in ascending order.
    pub fn iter() -> (ids: Vec<TaskId>)
        ensures
            ids@.len() == MAX_TASKS,
            forall|i: int| 0 <= i < MAX_TASKS ==> (#[trigger] ids@[i]).index() == i,
    {
        let mut ids: Vec<TaskId> = Vec::new();
        let mut num: usize = 0;
        while num < MAX_TASKS
            invariant
                num <= MAX_TASKS,
                ids@.len() == num,
                forall|i: int| 0 <= i < num ==> (#[trigger] ids@[i]).index() == i,
            decreases MAX_TASKS - num,
        {
            ids.push(TaskId::new(num));
            num += 1;
        }
        ids
    }
}

/// Once the lowest owned slot is found below some limit, a higher limit
/// finds the same slot.
pub proof fn lemma_first_owned_stays(slots: Seq<TaskSlot>, task: TaskPtr, low: int, high: int)
    requires
        0 <= low <= high,
        first_owned(slots, task, low) is Some,
    ensures
        first_owned(slots, task, high) == first_owned(slots, task, low),
    decreases high - low,
{
    if low < high {
        lemma_first_owned_stays(slots, task, low, high - 1);
    }
}

/// Once the lowest free slot is found below some limit, a higher limit finds
/// the same slot.
pub proof fn lemma_first_free_stays(slots: Seq<TaskSlot>, low: int, high: int)
    requires
        0 <= low <= high,
        first_free(slots, low) is Some,
    ensures
        first_free(slots, high) == first_free(slots, low),
    decreases high - low,
{
    if low < high {
        lemma_first_free_stays(slots, low, high - 1);
    }
}

/// A task's claim on a slot of the registry.
pub struct TaskRegistration {
    id: TaskId,
}

impl TaskRegistration {
    pub closed spec fn spec_id(&self) -> TaskId {
        self.id
    }

    /// Claims the lowest free slot for `task`. There is no registration, and
    /// nothing changes, when every slot is taken.
    pub fn new_for_current_task(registry: &mut Registry, task: TaskPtr) -> (res: Option<Self>)
        ensures
            match res {
                Some(registration) => {
                    &&& registration.spec_id().wf()
                    &&& first_free(old(registry).slots@, MAX_TASKS as int) == Some(
                        registration.spec_id().index(),
                    )
                    &&& final(registry).slots@ == old(registry).slots@.update(
                        registration.spec_id().index(),
                        TaskSlot { ptr: Some(task) },
                    )
                },
                None => {
                    &&& first_free(old(registry).slots@, MAX_TASKS as int) is None
                    &&& final(registry).slots@ == old(registry).slots@
                },
            },
    {
        let mut num: usize = 0;
        while num < MAX_TASKS
            invariant
                num <= MAX_TASKS,
                registry.slots@ == old(registry).slots@,
                first_free(registry.slots@, num as int) is None,
            decreases MAX_TASKS - num,
        {
            let id = TaskId::new(num);
            let mut slot = registry.slots[num];
            if slot.try_claim(task).is_ok() {
                registry.slots[num] = slot;
                proof {
                    lemma_first_free_stays(old(registry).slots@, num as int + 1, MAX_TASKS as int);
                }
                return Some(TaskRegistration { id });
            }
            num += 1;
        }
        None
    }

    #[verifier::when_used_as_spec(spec_id)]
    pub fn id(&self) -> (id: TaskId)
        ensures
            id == self.spec_id(),
    {
        self.id
    }

    /// Gives the slot back when the task's unit of work is done.
    pub fn release(self, registry: &mut Registry)
        requires
            self.spec_id().wf(),
        ensures
            final(registry).slots@ == old(registry).slots@.update(
                self.spec_id().index(),
                TaskSlot { ptr: None },
            ),
    {
        registry.slots[self.id.0 as usize] = TaskSlot::empty();
    }
}

} // verus!
