use heapless::Deque;
use vstd::prelude::*;

use crate::app::consts::MAX_QUEUED_PACKETS;
use crate::app::packet::Audio;
use crate::stats::{Report, Stats};

verus! {

/// `heapless::Deque`, a double-ended queue of fixed capacity. Nothing is
/// known of a value of it but what the functions below say.
#[verifier::external_type_specification]
#[verifier::external_body]
#[verifier::reject_recursive_types(T)]
pub struct ExDeque<T, const N: usize>(Deque<T, N>);

/// The items that a deque of packet slots holds, front first.
pub uninterp spec fn deque_items(queue: Deque<Option<Audio>, MAX_QUEUED_PACKETS>) -> Seq<
    Option<Audio>,
>;

/// `Deque::default`: a deque that holds nothing.
#[verifier::external_body]
fn deque_default() -> (queue: Deque<Option<Audio>, MAX_QUEUED_PACKETS>)
    ensures
        deque_items(queue).len() == 0,
{
    Deque::default()
}

/// `Deque::capacity`: the most items the deque can hold, which is the
/// number its type is made with.
#[verifier::external_body]
fn deque_capacity(queue: &Deque<Option<Audio>, MAX_QUEUED_PACKETS>) -> (capacity: usize)
    ensures
        capacity == MAX_QUEUED_PACKETS,
{
    queue.capacity()
}

/// `Deque::len`: how many items the deque holds.
#[verifier::external_body]
fn deque_len(queue: &Deque<Option<Audio>, MAX_QUEUED_PACKETS>) -> (len: usize)
    ensures
        len == deque_items(*queue).len(),
{
    queue.len()
}

/// `Deque::push_back`: appends the item unless the deque is full, in which
/// case the deque stays as it is and the item comes back.
#[verifier::external_body]
fn deque_push_back(queue: &mut Deque<Option<Audio>, MAX_QUEUED_PACKETS>, item: Option<Audio>) -> (res:
    Result<(), Option<Audio>>)
    ensures
        res is Ok <==> deque_items(*old(queue)).len() < MAX_QUEUED_PACKETS,
        res is Ok ==> deque_items(*final(queue)) == deque_items(*old(queue)).push(item),
        res is Err ==> res->Err_0 == item && deque_items(*final(queue)) == deque_items(
            *old(queue),
        ),
{
    queue.push_back(item)
}

/// `Deque::pop_front`: removes and returns the front item, or returns `None`
/// and changes nothing when the deque is empty.
#[verifier::external_body]
fn deque_pop_front(queue: &mut Deque<Option<Audio>, MAX_QUEUED_PACKETS>) -> (res: Option<
    Option<Audio>,
>)
    ensures
        res is Some <==> deque_items(*old(queue)).len() > 0,
        res is Some ==> res->Some_0 == deque_items(*old(queue))[0] && deque_items(*final(queue))
            == deque_items(*old(queue)).drop_first(),
        res is None ==> deque_items(*final(queue)) == deque_items(*old(queue)),
{
    queue.pop_front()
}

/// `Deque::as_mut_slices`: two slices that together are the deque's items in
/// order; what is written through them is what the deque then holds.
#[verifier::external_body]
fn deque_as_mut_slices(queue: &mut Deque<Option<Audio>, MAX_QUEUED_PACKETS>) -> (slices: (
    &mut [Option<Audio>],
    &mut [Option<Audio>],
))
    ensures
        slices.0@ + slices.1@ == deque_items(*old(queue)),
        deque_items(*final(queue)) == final(slices.0)@ + final(slices.1)@,
{
    queue.as_mut_slices()
}

/// Why a sequence number has no slot in the window.
#[derive(Clone, Copy, Debug, PartialEq, Eq, Structural)]
pub enum NoSlot {
    /// The sequence number lies before the head of the window.
    InPast,
    /// The sequence number lies at or beyond the end of the window.
    TooFarInFuture,
}

/// What became of a packet whose sequence number has a slot.
#[derive(Clone, Copy, Debug, PartialEq, Eq, Structural)]
pub enum Inserted {
    /// The slot was empty and now holds the packet.
    Stored,
    /// The slot already held a packet, which stays; the new one is dropped.
    Duplicate,
}

/// The statistics after a packet has met with `admission` at the jitter
/// buffer: a packet inside the window counts as on time, whether it is kept
/// or is a duplicate; one before the window counts as late, and one beyond
/// it as early.
pub open spec fn counted(before: Report, admission: Result<Inserted, NoSlot>) -> Report {
    match admission {
        Ok(_) => Report {
            audio_packets_received_on_time: ((before.audio_packets_received_on_time + 1)
                % 0x1_0000_0000) as u32,
            ..before
        },
        Err(NoSlot::InPast) => Report {
            audio_packets_received_late: ((before.audio_packets_received_late + 1)
                % 0x1_0000_0000) as u32,
            ..before
        },
        Err(NoSlot::TooFarInFuture) => Report {
            audio_packets_received_early: ((before.audio_packets_received_early + 1)
                % 0x1_0000_0000) as u32,
            ..before
        },
    }
}

/// Counts what became of a packet at the jitter buffer.
pub fn count_admission(stats: &mut Stats, admission: Result<Inserted, NoSlot>)
    ensures
        final(stats)@ == counted(old(stats)@, admission),
{
    match admission {
        Ok(_) => {
            stats.audio_packets_received_on_time.increment();
        },
        Err(NoSlot::InPast) => {
            stats.audio_packets_received_late.increment();
        },
        Err(NoSlot::TooFarInFuture) => {
            stats.audio_packets_received_early.increment();
        },
    }
}

/// The reorder window as a value: the sequence number of its first slot and
/// one optional packet per slot.
pub ghost struct Window {
    pub head_seq: u64,
    pub slots: Seq<Option<Audio>>,
}

impl Window {
    /// A window has exactly `MAX_QUEUED_PACKETS` slots.
    pub open spec fn wf(self) -> bool {
        self.slots.len() == MAX_QUEUED_PACKETS
    }

    /// The window that starts at `start_seq` and holds nothing.
    pub open spec fn empty(start_seq: u64) -> Window {
        Window { head_seq: start_seq, slots: Seq::new(MAX_QUEUED_PACKETS as nat, |i: int| None) }
    }

    /// Whether `seq` falls inside the window.
    pub open spec fn admits(self, seq: u64) -> bool {
        self.head_seq <= seq < self.head_seq + MAX_QUEUED_PACKETS
    }

    /// The slot of `seq`, or the reason it has none.
    pub open spec fn slot_of(self, seq: u64) -> Result<int, NoSlot> {
        if seq < self.head_seq {
            Err(NoSlot::InPast)
        } else if seq - self.head_seq >= MAX_QUEUED_PACKETS {
            Err(NoSlot::TooFarInFuture)
        } else {
            Ok(seq - self.head_seq)
        }
    }

    /// What inserting a packet with sequence number `seq` reports.
    pub open spec fn admission(self, seq: u64) -> Result<Inserted, NoSlot> {
        match self.slot_of(seq) {
            Ok(idx) => if self.slots[idx] is None {
                Ok(Inserted::Stored)
            } else {
                Ok(Inserted::Duplicate)
            },
            Err(reason) => Err(reason),
        }
    }

    /// The window after a packet arrives: the packet fills its slot if it has
    /// one and the slot is empty; otherwise nothing changes.
    pub open spec fn insert(self, packet: Audio) -> Window {
        if self.admission(packet.seq()) == Ok::<Inserted, NoSlot>(Inserted::Stored) {
            Window {
                head_seq: self.head_seq,
                slots: self.slots.update(packet.seq() - self.head_seq, Some(packet)),
            }
        } else {
            self
        }
    }

    /// The window after packets arrive one after another.
    pub open spec fn insert_all(self, packets: Seq<Audio>) -> Window
        decreases packets.len(),
    {
        if packets.len() == 0 {
            self
        } else {
            self.insert_all(packets.drop_last()).insert(packets.last())
        }
    }

    /// What the next pop hands out.
    pub open spec fn front(self) -> Option<Audio> {
        self.slots[0]
    }

    /// The window after a pop: it has moved on by one sequence number, and
    /// its last slot is empty.
    pub open spec fn pop(self) -> Window {
        Window { head_seq: (self.head_seq + 1) as u64, slots: self.slots.drop_first().push(None) }
    }
}

/// The earliest packet of `packets` whose sequence number is `seq`.
pub open spec fn first_with_seq(packets: Seq<Audio>, seq: int) -> Option<Audio>
    decreases packets.len(),
{
    if packets.len() == 0 {
        None
    } else {
        match first_with_seq(packets.drop_last(), seq) {
            Some(packet) => Some(packet),
            None => if packets.last().seq() == seq {
                Some(packets.last())
            } else {
                None
            },
        }
    }
}

/// One insertion, case by case: a packet outside the window changes
/// nothing; a packet inside it fills its slot when the slot is empty; and a
/// slot that is taken keeps the packet that came first.
pub proof fn lemma_insert_cases(window: Window, packet: Audio)
    requires
        window.wf(),
    ensures
        window.insert(packet).wf(),
        window.insert(packet).head_seq == window.head_seq,
        !window.admits(packet.seq()) ==> window.insert(packet) == window,
        window.admits(packet.seq()) && window.slots[packet.seq() - window.head_seq] is None
            ==> window.insert(packet).slots == window.slots.update(
            packet.seq() - window.head_seq,
            Some(packet),
        ),
        window.admits(packet.seq()) && window.slots[packet.seq() - window.head_seq] is Some
            ==> window.insert(packet) == window,
        window.insert(packet).slots.contains(Some(packet)) && !window.slots.contains(Some(packet))
            ==> window.admits(packet.seq()),
{
    if window.insert(packet).slots.contains(Some(packet)) && !window.slots.contains(Some(packet)) {
        assert(window.insert(packet) != window);
    }
}

/// After any run of insertions the window has not moved, and each slot holds
/// what it held before the run or, if it was empty, the first packet of the
/// run that carries the slot's sequence number. So a packet is kept exactly
/// when its sequence number is inside the window as it arrives and no
/// earlier packet has taken its slot.
pub proof fn lemma_insert_all_first_wins(window: Window, packets: Seq<Audio>)
    requires
        window.wf(),
    ensures
        window.insert_all(packets).wf(),
        window.insert_all(packets).head_seq == window.head_seq,
        forall|i: int|
            0 <= i < MAX_QUEUED_PACKETS ==> #[trigger] window.insert_all(packets).slots[i] == (
            if window.slots[i] is Some {
                window.slots[i]
            } else {
                first_with_seq(packets, window.head_seq + i)
            }),
    decreases packets.len(),
{
    if packets.len() > 0 {
        lemma_insert_all_first_wins(window, packets.drop_last());
        lemma_insert_cases(window.insert_all(packets.drop_last()), packets.last());
    }
}

/// A pop moves the window on by exactly one sequence number, whether or not
/// its first slot held a packet.
pub proof fn lemma_pop_advances(window: Window)
    requires
        window.wf(),
        window.head_seq < u64::MAX,
    ensures
        window.pop().wf(),
        window.pop().head_seq == window.head_seq + 1,
        forall|i: int|
            0 <= i < MAX_QUEUED_PACKETS - 1 ==> #[trigger] window.pop().slots[i] == window.slots[i
                + 1],
        window.pop().slots[MAX_QUEUED_PACKETS - 1] is None,
{
}

/// The jitter buffer: a bounded window of packet slots indexed by sequence
/// number. Only a prefix of the window is kept in the deque; the slots
/// behind it are empty.
pub struct Shared {
    queue: Deque<Option<Audio>, MAX_QUEUED_PACKETS>,
    /// The seq of the first packet in the queue, the rest are implied
    head_seq: u64,
}

impl Shared {
    /// The part of the window that the deque holds.
    pub closed spec fn stored(&self) -> Seq<Option<Audio>> {
        deque_items(self.queue)
    }

    pub closed spec fn spec_head_seq(&self) -> u64 {
        self.head_seq
    }

    /// The deque never holds more than the window has slots.
    pub open spec fn wf(&self) -> bool {
        self.stored().len() <= MAX_QUEUED_PACKETS
    }

    /// The window that this buffer stands for.
    pub open spec fn view(&self) -> Window {
        Window {
            head_seq: self.spec_head_seq(),
            slots: Seq::new(
                MAX_QUEUED_PACKETS as nat,
                |i: int|
                    if i < self.stored().len() {
                        self.stored()[i]
                    } else {
                        None
                    },
            ),
        }
    }

    pub fn new(start_seq: u64) -> (shared: Shared)
        ensures
            shared.wf(),
            shared@ == Window::empty(start_seq),
    {
        let shared = Shared { queue: deque_default(), head_seq: start_seq };
        assert(shared@.slots =~= Window::empty(start_seq).slots);
        shared
    }

    /// The sequence number of the window's first slot.
    #[verifier::when_used_as_spec(spec_head_seq)]
    pub fn head_seq(&self) -> (seq: u64)
        ensures
            seq == self.spec_head_seq(),
    {
        self.head_seq
    }

    /// The first sequence number beyond the window, unless that number does
    /// not fit in 64 bits.
    pub fn tail_seq(&self) -> (seq: Option<u64>)
        ensures
            seq == if self@.head_seq + MAX_QUEUED_PACKETS <= u64::MAX {
                Some((self@.head_seq + MAX_QUEUED_PACKETS) as u64)
            } else {
                None
            },
    {
        self.head_seq.checked_add(deque_capacity(&self.queue) as u64)
    }

    /// Puts the packet into the slot of its sequence number. The first
    /// packet to arrive for a slot stays; a packet without a slot is
    /// dropped with the reason.
    pub fn insert_packet(&mut self, packet: Audio) -> (res: Result<Inserted, NoSlot>)
        requires
            old(self).wf(),
        ensures
            final(self).wf(),
            res == old(self)@.admission(packet.seq()),
            res is Ok <==> old(self)@.admits(packet.seq()),
            final(self)@ == old(self)@.insert(packet),
    {
        let packet_seq = packet.header().seq;
        let res = match self.queue_slot_mut(packet_seq) {
            Ok(slot) => {
                if slot.is_none() {
                    *slot = Some(packet);
                    Ok(Inserted::Stored)
                } else {
                    Ok(Inserted::Duplicate)
                }
            },
            Err(reason) => Err(reason),
        };
        assert(self@.slots =~= old(self)@.insert(packet).slots);
        res
    }

    /// Takes the packet out of the first slot, if there is one, and moves the
    /// window on by one sequence number either way.
    pub fn pop_front(&mut self) -> (packet: Option<Audio>)
        requires
            old(self).wf(),
            old(self)@.head_seq < u64::MAX,
        ensures
            final(self).wf(),
            packet == old(self)@.front(),
            final(self)@ == old(self)@.pop(),
            final(self)@.head_seq == old(self)@.head_seq + 1,
    {
        let front = deque_pop_front(&mut self.queue);
        self.head_seq = self.head_seq + 1;
        assert(self@.slots =~= old(self)@.pop().slots);
        match front {
            Some(slot) => slot,
            None => None,
        }
    }

    /// The slot of `seq`, grown into the deque if the deque did not reach it.
    fn queue_slot_mut(&mut self, seq: u64) -> (res: Result<&mut Option<Audio>, NoSlot>)
        requires
            old(self).wf(),
        ensures
            match res {
                Ok(slot) => {
                    &&& old(self)@.slot_of(seq) is Ok
                    &&& *slot == old(self)@.slots[old(self)@.slot_of(seq)->Ok_0]
                    &&& final(self).wf()
                    &&& final(self)@.head_seq == old(self)@.head_seq
                    &&& final(self)@.slots == old(self)@.slots.update(
                        old(self)@.slot_of(seq)->Ok_0,
                        *final(slot),
                    )
                },
                Err(reason) => {
                    &&& old(self)@.slot_of(seq) == Err::<int, NoSlot>(reason)
                    &&& final(self).wf()
                    &&& final(self)@ == old(self)@
                },
            },
    {
        let diff = match seq.checked_sub(self.head_seq) {
            Some(diff) => diff,
            None => { return Err(NoSlot::InPast); },
        };

        if diff >= deque_capacity(&self.queue) as u64 {
            return Err(NoSlot::TooFarInFuture);
        }
        let idx = diff as usize;

        // expand deq if needed so we can take mut ref
        while deque_len(&self.queue) <= idx
            invariant
                idx < MAX_QUEUED_PACKETS,
                self.wf(),
                self@ == old(self)@,
            decreases MAX_QUEUED_PACKETS - self.stored().len(),
        {
            let ghost before = self@;
            let pushed = deque_push_back(&mut self.queue, None);
            assert(pushed is Ok);
            assert(self@.slots =~= before.slots);
        }

        let ghost grown = self.stored();
        let slices = deque_as_mut_slices(&mut self.queue);

        if idx < slices.0.len() {
            Ok(&mut slices.0[idx])
        } else {
            let left = slices.0.len();
            Ok(&mut slices.1[idx - left])
        }
    }
}

} // verus!
