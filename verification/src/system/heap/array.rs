use vstd::prelude::*;

verus! {

/// An array of slots on the heap, each of which holds an item or nothing.
/// It does not say which slots are live once it is given up: that is for
/// its user to know.
pub struct RawHeapArray<T> {
    slots: Vec<Option<T>>,
}

impl<T> RawHeapArray<T> {
    pub closed spec fn view(&self) -> Seq<Option<T>> {
        self.slots@
    }

    /// An array of `len` slots that hold nothing.
    pub fn allocate(len: usize) -> (array: Self)
        ensures
            array@.len() == len,
            forall|i: int| 0 <= i < len ==> (#[trigger] array@[i]) is None,
    {
        let mut slots: Vec<Option<T>> = Vec::new();
        let mut i: usize = 0;
        while i < len
            invariant
                i <= len,
                slots@.len() == i,
                forall|k: int| 0 <= k < i ==> (#[trigger] slots@[k]) is None,
            decreases len - i,
        {
            slots.push(None);
            i += 1;
        }
        RawHeapArray { slots }
    }

    pub fn len(&self) -> (len: usize)
        ensures
            len == self@.len(),
    {
        self.slots.len()
    }

    /// Puts an item into a slot and hands out what the slot held.
    pub fn replace(&mut self, index: usize, item: Option<T>) -> (previous: Option<T>)
        requires
            index < old(self)@.len(),
        ensures
            previous == old(self)@[index as int],
            final(self)@ == old(self)@.update(index as int, item),
    {
        let mut item = item;
        core::mem::swap(&mut self.slots[index], &mut item);
        item
    }
}

} // verus!
