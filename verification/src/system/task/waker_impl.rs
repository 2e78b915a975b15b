use vstd::prelude::*;

use crate::system::task::registry::{TaskId, MAX_TASKS};

verus! {

/// Whose table of functions a raw waker carries.
#[derive(Clone, Copy, Debug, PartialEq, Eq, Structural)]
pub enum VTable {
    /// The table of this module: the data word is a task id.
    Task,
    /// Somebody else's table: the data word means nothing here.
    Foreign,
}

/// A waker as its two words.
#[derive(Clone, Copy, Debug, PartialEq, Eq, Structural)]
pub struct RawWaker {
    pub data: usize,
    pub vtable: VTable,
}

/// The raw waker of a task.
pub fn new(id: TaskId) -> (waker: RawWaker)
    ensures
        waker == (RawWaker { data: id.index() as usize, vtable: VTable::Task }),
{
    RawWaker { data: id.as_opaque_ptr(), vtable: VTable::Task }
}

/// Whether the waker was made by `new`.
pub fn same_vtable(waker: &RawWaker) -> (same: bool)
    ensures
        same == (waker.vtable == VTable::Task),
{
    match waker.vtable {
        VTable::Task => true,
        VTable::Foreign => false,
    }
}

/// The task that a waker made by `new` wakes; nothing for any other waker.
pub fn task_id(waker: &RawWaker) -> (id: Option<TaskId>)
    requires
        waker.vtable == VTable::Task ==> waker.data < MAX_TASKS,
    ensures
        id is Some <==> waker.vtable == VTable::Task,
        id matches Some(id) ==> id.wf() && id.index() == waker.data,
{
    if same_vtable(waker) {
        Some(TaskId::from_opaque_ptr(waker.data))
    } else {
        None
    }
}

/// Cloning a waker copies its two words.
pub fn clone(data: usize) -> (waker: RawWaker)
    ensures
        waker == (RawWaker { data, vtable: VTable::Task }),
{
    RawWaker { data, vtable: VTable::Task }
}

/// A task id survives the trip through a waker.
pub proof fn lemma_waker_round_trip(id: TaskId, waker: RawWaker)
    requires
        id.wf(),
        waker == (RawWaker { data: id.index() as usize, vtable: VTable::Task }),
    ensures
        waker.vtable == VTable::Task,
        waker.data < MAX_TASKS,
        waker.data == id.index(),
{
}

} // verus!
