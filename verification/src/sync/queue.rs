use std::collections::VecDeque;
use vstd::prelude::*;

use crate::sync::isr::IsrResult;
use crate::system::heap::MallocError;
use crate::system::task::execute::Polled;
use crate::system::task::registry::{Registry, MAX_TASKS};
use crate::system::task::waker::{wakeable, TaskWaker, TaskWakerSet};
use crate::system::task::TaskPtr;

verus! {

/// Liveness bit of the receiving side.
pub const RX_ALIVE: u32 = 0x01;

/// Liveness bit of the sending side.
pub const TX_ALIVE: u32 = 0x02;

#[derive(Clone, Copy, Debug, PartialEq, Eq, Structural)]
pub enum AllocQueueError {
    /// The queue could not be created.
    QueueCreate,
    /// There was no memory for the shared block.
    Malloc(MallocError),
}

impl AllocQueueError {
    pub fn from_malloc_error(err: MallocError) -> (res: Self)
        ensures
            res == AllocQueueError::Malloc(err),
    {
        AllocQueueError::Malloc(err)
    }
}

/// The liveness bits after the side `side` has let go.
pub open spec fn flags_after_drop(flags: u32, side: u32) -> u32 {
    flags & !side
}

/// Whether the side `side` is the last to let go, so that the shared block
/// is to be freed.
pub open spec fn drop_frees(flags: u32, side: u32) -> bool {
    flags & !side == 0
}

/// Of two sides that hold a block, whichever lets go first leaves the block
/// alive, and the one that lets go second frees it: the block is freed
/// once, after both, in either order.
pub proof fn lemma_freed_once_after_both(first: u32, second: u32)
    by (bit_vector)
    requires
        first != 0,
        second != 0,
        first & second == 0,
    ensures
        !drop_frees(first | second, first),
        flags_after_drop(first | second, first) == second,
        drop_frees(flags_after_drop(first | second, first), second),
        flags_after_drop(flags_after_drop(first | second, first), second) == 0,
{
}

/// The two sides of a channel are such a pair.
pub proof fn lemma_channel_sides()
    ensures
        TX_ALIVE != 0,
        RX_ALIVE != 0,
        TX_ALIVE & RX_ALIVE == 0,
        RX_ALIVE | TX_ALIVE == TX_ALIVE | RX_ALIVE,
{
    assert(0x02u32 & 0x01u32 == 0) by (bit_vector);
    assert(0x01u32 | 0x02u32 == 0x02u32 | 0x01u32) by (bit_vector);
}

/// What a send attempt comes to.
pub struct Sent<T> {
    /// The item comes back when the queue was full.
    pub result: Result<(), T>,
    /// The threads to notify: the receivers that waited, after a success.
    pub wake: Vec<TaskPtr>,
}

/// What a send that makes room for itself comes to.
pub struct Overwritten<T> {
    /// The oldest item, which had to go when the queue was full.
    pub dropped: Option<T>,
    /// The threads to notify: the receivers that waited.
    pub wake: Vec<TaskPtr>,
}

/// What a receive attempt hands out when there is an item.
pub struct Received<T> {
    pub item: T,
    /// The threads to notify: the senders that waited for room.
    pub wake: Vec<TaskPtr>,
}

/// The block that both ends of a channel share: the queued items, the
/// liveness bits of the two ends, and the tasks that wait on either end.
pub struct Shared<T> {
    items: VecDeque<T>,
    capacity: usize,
    flags: u32,
    notify_rx: TaskWakerSet,
    notify_tx: TaskWakerSet,
}

/// Makes the shared block of a channel that holds up to `capacity` items.
/// A channel without room cannot be made.
pub fn channel<T>(capacity: usize) -> (res: Result<Shared<T>, AllocQueueError>)
    ensures
        res is Ok <==> capacity > 0,
        res matches Ok(shared) ==> shared.wf() && shared@ == Seq::<T>::empty() && shared.capacity()
            == capacity && shared.flags() == TX_ALIVE | RX_ALIVE && shared.waiting_rx() == 0
            && shared.waiting_tx() == 0,
        res matches Err(err) ==> err == AllocQueueError::QueueCreate,
{
    if capacity == 0 {
        return Err(AllocQueueError::QueueCreate);
    }
    Ok(
        Shared {
            items: VecDeque::new(),
            capacity,
            flags: TX_ALIVE | RX_ALIVE,
            notify_rx: TaskWakerSet::new(),
            notify_tx: TaskWakerSet::new(),
        },
    )
}

impl<T> Shared<T> {
    /// The queued items, oldest first.
    pub closed spec fn view(&self) -> Seq<T> {
        self.items@
    }

    pub closed spec fn capacity(&self) -> usize {
        self.capacity
    }

    /// The liveness bits.
    pub closed spec fn flags(&self) -> u32 {
        self.flags
    }

    /// The set of tasks that wait to receive, one bit per task.
    pub closed spec fn waiting_rx(&self) -> u32 {
        self.notify_rx.bits()
    }

    /// The set of tasks that wait for room to send, one bit per task.
    pub closed spec fn waiting_tx(&self) -> u32 {
        self.notify_tx.bits()
    }

    /// There is room for at least one item, and never more items than room.
    pub open spec fn wf(&self) -> bool {
        0 < self.capacity() && self@.len() <= self.capacity()
    }

    /// Queues the item unless the queue is full; a success wakes the
    /// receivers that waited.
    pub fn try_send(&mut self, item: T, registry: &Registry) -> (sent: Sent<T>)
        requires
            old(self).wf(),
        ensures
            final(self).wf(),
            final(self).capacity() == old(self).capacity(),
            final(self).flags() == old(self).flags(),
            final(self).waiting_tx() == old(self).waiting_tx(),
            sent.result is Ok <==> old(self)@.len() < old(self).capacity(),
            sent.result is Ok ==> final(self)@ == old(self)@.push(item) && final(self).waiting_rx() == 0 && sent.wake@ == wakeable(
                old(self).waiting_rx(),
                registry.slots@,
                MAX_TASKS as int,
            ),
            sent.result is Err ==> sent.result->Err_0 == item && final(self)@ == old(self)@
                && final(self).waiting_rx() == old(self).waiting_rx() && sent.wake@.len() == 0,
    {
        if self.items.len() < self.capacity {
            self.items.push_back(item);
            let wake = self.notify_rx.wake_all(registry);
            Sent { result: Ok(()), wake }
        } else {
            Sent { result: Err(item), wake: Vec::new() }
        }
    }

    /// Queues the item from interrupt context unless the queue is full; a
    /// success wakes the receivers that waited.
    pub fn send_from_isr(&mut self, item: T, registry: &Registry) -> (sent: Sent<T>)
        requires
            old(self).wf(),
        ensures
            final(self).wf(),
            final(self).capacity() == old(self).capacity(),
            final(self).flags() == old(self).flags(),
            final(self).waiting_tx() == old(self).waiting_tx(),
            sent.result is Ok <==> old(self)@.len() < old(self).capacity(),
            sent.result is Ok ==> final(self)@ == old(self)@.push(item) && final(self).waiting_rx() == 0 && sent.wake@ == wakeable(
                old(self).waiting_rx(),
                registry.slots@,
                MAX_TASKS as int,
            ),
            sent.result is Err ==> sent.result->Err_0 == item && final(self)@ == old(self)@
                && final(self).waiting_rx() == old(self).waiting_rx() && sent.wake@.len() == 0,
    {
        if self.items.len() < self.capacity {
            self.items.push_back(item);
            let wake = self.notify_rx.wake_from_isr(registry);
            Sent { result: Ok(()), wake }
        } else {
            Sent { result: Err(item), wake: Vec::new() }
        }
    }

    /// Queues the item from interrupt context in any case: a full queue
    /// gives up its oldest item to make room. The receivers that waited are
    /// woken.
    pub fn send_overwriting_from_isr(&mut self, item: T, registry: &Registry) -> (sent: Overwritten<
        T,
    >)
        requires
            old(self).wf(),
        ensures
            final(self).wf(),
            final(self).capacity() == old(self).capacity(),
            final(self).flags() == old(self).flags(),
            final(self).waiting_tx() == old(self).waiting_tx(),
            final(self).waiting_rx() == 0,
            sent.wake@ == wakeable(old(self).waiting_rx(), registry.slots@, MAX_TASKS as int),
            if old(self)@.len() == old(self).capacity() {
                sent.dropped == Some(old(self)@[0]) && final(self)@ == old(self)@.drop_first().push(
                    item,
                )
            } else {
                sent.dropped is None && final(self)@ == old(self)@.push(item)
            },
    {
        // pop an item from the front of the queue if it's full:
        let dropped = if self.items.len() == self.capacity {
            self.items.pop_front()
        } else {
            None
        };
        self.items.push_back(item);
        let wake = self.notify_rx.wake_from_isr(registry);
        Overwritten { dropped, wake }
    }

    /// Takes the oldest item, if there is one, and wakes the senders that
    /// waited for room.
    pub fn try_receive(&mut self, registry: &Registry) -> (received: Option<Received<T>>)
        requires
            old(self).wf(),
        ensures
            final(self).wf(),
            final(self).capacity() == old(self).capacity(),
            final(self).flags() == old(self).flags(),
            final(self).waiting_rx() == old(self).waiting_rx(),
            received is Some <==> old(self)@.len() > 0,
            received matches Some(received) ==> received.item == old(self)@[0] && final(self)@
                == old(self)@.drop_first() && final(self).waiting_tx() == 0 && received.wake@
                == wakeable(old(self).waiting_tx(), registry.slots@, MAX_TASKS as int),
            received is None ==> final(self)@ == old(self)@ && final(self).waiting_tx() == old(self).waiting_tx(),
    {
        match self.items.pop_front() {
            Some(item) => {
                let wake = self.notify_tx.wake_all(registry);
                Some(Received { item, wake })
            },
            None => None,
        }
    }

    /// A poll for an item: receives one if there is one, and otherwise puts
    /// the polling task among those that wait to receive.
    pub fn poll_receive(&mut self, waker: &TaskWaker, registry: &Registry) -> (polled: Polled<
        Received<T>,
    >)
        requires
            old(self).wf(),
            waker.id.wf(),
        ensures
            final(self).wf(),
            final(self).capacity() == old(self).capacity(),
            final(self).flags() == old(self).flags(),
            polled is Ready <==> old(self)@.len() > 0,
            polled matches Polled::Ready(received) ==> received.item == old(self)@[0] && final(self)@ == old(self)@.drop_first() && final(self).waiting_tx() == 0 && final(self).waiting_rx() == old(self).waiting_rx() && received.wake@ == wakeable(
                old(self).waiting_tx(),
                registry.slots@,
                MAX_TASKS as int,
            ),
            polled is Pending ==> final(self)@ == old(self)@ && final(self).waiting_tx() == old(self).waiting_tx() && final(self).waiting_rx() == old(self).waiting_rx() | (1u32 << (
            waker.id.index() as u32)),
    {
        match self.try_receive(registry) {
            Some(received) => Polled::Ready(received),
            None => {
                self.notify_rx.add_task(waker);
                Polled::Pending
            },
        }
    }

    /// How many more items the queue takes.
    pub fn available(&self) -> (room: usize)
        requires
            self.wf(),
        ensures
            room == self.capacity() - self@.len(),
    {
        self.capacity - self.items.len()
    }

    /// A poll for room: ready if the queue takes an item, and otherwise puts
    /// the polling task among those that wait for room.
    pub fn poll_reserve(&mut self, waker: &TaskWaker) -> (polled: Polled<()>)
        requires
            old(self).wf(),
            waker.id.wf(),
        ensures
            final(self).wf(),
            final(self)@ == old(self)@,
            final(self).capacity() == old(self).capacity(),
            final(self).flags() == old(self).flags(),
            final(self).waiting_rx() == old(self).waiting_rx(),
            polled is Ready <==> old(self)@.len() < old(self).capacity(),
            polled is Ready ==> final(self).waiting_tx() == old(self).waiting_tx(),
            polled is Pending ==> final(self).waiting_tx() == old(self).waiting_tx() | (1u32 << (
            waker.id.index() as u32)),
    {
        if self.available() > 0 {
            Polled::Ready(())
        } else {
            self.notify_tx.add_task(waker);
            Polled::Pending
        }
    }

    /// The receiving side lets go. Says whether the block is to be freed.
    pub fn drop_rx(&mut self) -> (free: bool)
        ensures
            final(self).flags() == flags_after_drop(old(self).flags(), RX_ALIVE),
            free == drop_frees(old(self).flags(), RX_ALIVE),
            final(self)@ == old(self)@,
            final(self).capacity() == old(self).capacity(),
    {
        self.drop_side(RX_ALIVE)
    }

    /// The sending side lets go. Says whether the block is to be freed.
    pub fn drop_tx(&mut self) -> (free: bool)
        ensures
            final(self).flags() == flags_after_drop(old(self).flags(), TX_ALIVE),
            free == drop_frees(old(self).flags(), TX_ALIVE),
            final(self)@ == old(self)@,
            final(self).capacity() == old(self).capacity(),
    {
        self.drop_side(TX_ALIVE)
    }

    fn drop_side(&mut self, flags: u32) -> (free: bool)
        ensures
            final(self).flags == flags_after_drop(old(self).flags, flags),
            free == drop_frees(old(self).flags, flags),
            final(self).items == old(self).items,
            final(self).capacity == old(self).capacity,
    {
        let prev = self.flags;
        self.flags = prev & !flags;
        let current = prev & !flags;
        current == 0
    }
}

/// What sending from interrupt context comes to for the interrupt handler,
/// given what each notification said about the need for a context switch.
pub fn sent_from_isr<T>(result: Result<(), T>, need_wake: &[bool]) -> (res: IsrResult<(), T>)
    ensures
        res.result == result,
        res.need_wake == (result is Ok && crate::system::task::waker::any_set(
            need_wake@,
            need_wake@.len() as int,
        )),
{
    match result {
        Ok(done) => {
            let woken: IsrResult<(), T> = crate::system::task::waker::woken_from_isr(need_wake);
            woken.chain(IsrResult::ok(done, false))
        },
        Err(item) => IsrResult::err(item, false),
    }
}

/// What a queue holds after the items of `sent` were sent to it one after
/// another, each taken only while there was room.
pub open spec fn after_sends<T>(items: Seq<T>, capacity: nat, sent: Seq<T>) -> Seq<T>
    decreases sent.len(),
{
    if sent.len() == 0 {
        items
    } else {
        let before = after_sends(items, capacity, sent.drop_last());
        if before.len() < capacity {
            before.push(sent.last())
        } else {
            before
        }
    }
}

/// Items that all find room in an empty queue are queued in the order in
/// which they were sent, which is the order in which receives hand them
/// out: the first receive hands out the first item sent, and leaves the
/// rest in order.
pub proof fn lemma_fifo_order<T>(capacity: nat, sent: Seq<T>)
    requires
        sent.len() <= capacity,
    ensures
        after_sends(Seq::<T>::empty(), capacity, sent) == sent,
        sent.len() > 0 ==> sent.drop_first() == sent.subrange(1, sent.len() as int),
    decreases sent.len(),
{
    if sent.len() > 0 {
        lemma_fifo_order(capacity, sent.drop_last());
        assert(sent.drop_last().push(sent.last()) =~= sent);
    }
}

} // verus!
