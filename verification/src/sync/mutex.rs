use vstd::prelude::*;

use crate::system::task::execute::Polled;
use crate::system::task::registry::{Registry, MAX_TASKS};
use crate::system::task::waker::{wakeable, TaskWaker, TaskWakerSet};
use crate::system::task::TaskPtr;

verus! {

/// A lock for state that tasks share: one owner at a time, not reentrant.
/// A task that finds it taken waits to be woken and tries again.
pub struct TaskMutex<T> {
    flag: bool,
    notify: TaskWakerSet,
    inner: T,
}

/// Proof of having taken a `TaskMutex`. It is given back to unlock.
pub struct TaskMutexGuard {
    token: (),
}

impl<T> TaskMutex<T> {
    /// Whether the mutex is taken.
    pub closed spec fn locked(&self) -> bool {
        self.flag
    }

    /// The value that the mutex guards.
    pub closed spec fn view(&self) -> T {
        self.inner
    }

    /// The set of tasks that wait for the mutex, one bit per task.
    pub closed spec fn waiting(&self) -> u32 {
        self.notify.bits()
    }

    pub fn new(value: T) -> (mutex: Self)
        ensures
            !mutex.locked(),
            mutex@ == value,
            mutex.waiting() == 0,
    {
        TaskMutex { flag: false, notify: TaskWakerSet::new(), inner: value }
    }

    /// A poll for the mutex: takes it if it is free, and otherwise puts the
    /// polling task among those that wait for it.
    pub fn poll_lock(&mut self, waker: &TaskWaker) -> (polled: Polled<TaskMutexGuard>)
        requires
            waker.id.wf(),
        ensures
            final(self).locked(),
            final(self)@ == old(self)@,
            polled is Ready <==> !old(self).locked(),
            polled is Ready ==> final(self).waiting() == old(self).waiting(),
            polled is Pending ==> final(self).waiting() == old(self).waiting() | (1u32 << (
            waker.id.index() as u32)),
    {
        let taken = self.flag;
        self.flag = true;
        if taken {
            self.notify.add_task(waker);
            Polled::Pending
        } else {
            Polled::Ready(TaskMutexGuard { token: () })
        }
    }

    /// The guarded value, for the holder of the mutex.
    pub fn get(&self, guard: &TaskMutexGuard) -> (value: &T)
        ensures
            *value == self@,
    {
        &self.inner
    }

    /// Replaces the guarded value, for the holder of the mutex.
    pub fn set(&mut self, guard: &TaskMutexGuard, value: T)
        ensures
            final(self)@ == value,
            final(self).locked() == old(self).locked(),
            final(self).waiting() == old(self).waiting(),
    {
        self.inner = value;
    }

    /// Gives the mutex back and hands out the threads to notify: the tasks
    /// that waited for it.
    pub fn unlock(&mut self, guard: TaskMutexGuard, registry: &Registry) -> (wake: Vec<TaskPtr>)
        ensures
            !final(self).locked(),
            final(self)@ == old(self)@,
            final(self).waiting() == 0,
            wake@ == wakeable(old(self).waiting(), registry.slots@, MAX_TASKS as int),
    {
        self.flag = false;
        self.notify.wake_all(registry)
    }
}

} // verus!
