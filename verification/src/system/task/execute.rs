use vstd::prelude::*;

use crate::system::task::registry::{Registry, TaskRegistration, TaskSlot, MAX_TASKS};
use crate::system::task::waker::TaskWaker;
use crate::system::task::TaskPtr;

verus! {

/// What a poll of a unit of work reports.
pub enum Polled<R> {
    /// The unit of work is complete.
    Ready(R),
    /// The unit of work cannot go on for now.
    Pending,
}

/// What the driver of a task does after a poll.
pub enum Step<R> {
    /// Block the native thread until it is notified, then poll again.
    Park,
    /// Leave the registry and end the native thread.
    Finish(R),
}

/// A task that is being driven: its claim on a registry slot and the waker
/// that its polls are given.
pub struct Execution {
    registration: TaskRegistration,
    waker: TaskWaker,
}

impl Execution {
    pub closed spec fn registration(&self) -> TaskRegistration {
        self.registration
    }

    pub closed spec fn spec_waker(&self) -> TaskWaker {
        self.waker
    }

    pub open spec fn wf(&self) -> bool {
        &&& self.registration().spec_id().wf()
        &&& self.spec_waker().id == self.registration().spec_id()
    }

    /// Begins to drive a unit of work on the native thread `task`: claims
    /// the lowest free slot of the registry. There is nothing to drive, and
    /// nothing changes, when every slot is taken.
    pub fn execute(registry: &mut Registry, task: TaskPtr) -> (res: Option<Self>)
        ensures
            match res {
                Some(execution) => {
                    &&& execution.wf()
                    &&& crate::system::task::registry::first_free(
                        old(registry).slots@,
                        MAX_TASKS as int,
                    ) == Some(execution.registration().spec_id().index())
                    &&& final(registry).slots@ == old(registry).slots@.update(
                        execution.registration().spec_id().index(),
                        TaskSlot { ptr: Some(task) },
                    )
                },
                None => {
                    &&& crate::system::task::registry::first_free(
                        old(registry).slots@,
                        MAX_TASKS as int,
                    ) is None
                    &&& final(registry).slots@ == old(registry).slots@
                },
            },
    {
        match TaskRegistration::new_for_current_task(registry, task) {
            Some(registration) => {
                let waker = TaskWaker::new(registration.id());
                Some(Execution { registration, waker })
            },
            None => None,
        }
    }

    /// The waker to poll with.
    #[verifier::when_used_as_spec(spec_waker)]
    pub fn waker(&self) -> (waker: TaskWaker)
        ensures
            waker == self.spec_waker(),
    {
        self.waker
    }

    /// What to do after a poll: a unit of work that is not complete parks
    /// the thread, and that is the only point where it is suspended; one
    /// that is complete finishes with its result.
    pub fn after_poll<R>(&self, polled: Polled<R>) -> (step: Step<R>)
        ensures
            match polled {
                Polled::Ready(ret) => step == Step::Finish(ret),
                Polled::Pending => step is Park,
            },
    {
        match polled {
            Polled::Ready(ret) => Step::Finish(ret),
            Polled::Pending => Step::Park,
        }
    }

    /// Ends the task: its slot is free again.
    pub fn finish(self, registry: &mut Registry)
        requires
            self.wf(),
        ensures
            final(registry).slots@ == old(registry).slots@.update(
                self.registration().spec_id().index(),
                TaskSlot { ptr: None },
            ),
    {
        self.registration.release(registry);
    }
}

} // verus!
