use vstd::prelude::*;

verus! {

/// Counts how many holders want the scheduler suspended.
pub struct SuspendCount {
    count: usize,
}

/// Keeps the scheduler suspended until it is given back.
pub struct Suspend(());

impl SuspendCount {
    pub closed spec fn view(&self) -> usize {
        self.count
    }

    pub fn new() -> (count: Self)
        ensures
            count@ == 0,
    {
        SuspendCount { count: 0 }
    }

    /// One more holder. Says whether the scheduler is to be suspended now,
    /// which is so for the first holder only.
    pub fn suspend(&mut self) -> (res: (Suspend, bool))
        requires
            old(self)@ < usize::MAX,
        ensures
            final(self)@ == old(self)@ + 1,
            res.1 == (old(self)@ == 0),
    {
        let prev = self.count;
        self.count = prev + 1;
        (Suspend(()), prev == 0)
    }

    /// One holder less. Says whether the scheduler is to be resumed now,
    /// which is so for the last holder only.
    pub fn resume(&mut self, holder: Suspend) -> (resume: bool)
        requires
            old(self)@ > 0,
        ensures
            final(self)@ == old(self)@ - 1,
            resume == (old(self)@ == 1),
    {
        let prev = self.count;
        self.count = prev - 1;
        prev == 1
    }
}

} // verus!
