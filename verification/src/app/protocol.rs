use vstd::prelude::*;

use crate::platform::net::NetError;
use crate::sync::queue::AllocQueueError;
use crate::stats::{Report, Stats};
use crate::sync::queue::Shared;
use crate::system::heap::MallocError;
use crate::system::task::registry::{Registry, MAX_TASKS};
use crate::system::task::waker::wakeable;
use crate::system::task::TaskPtr;

verus! {

/// The alignment that the start of a packet must have to be read in place.
pub const ALIGN: usize = 8;

/// How many packets wait between the network callback and the receiving
/// task at most.
pub const PACKET_QUEUE_CAPACITY: usize = 16;

/// Why the receiver could not be bound to its multicast group.
#[derive(Clone, Copy, Debug, PartialEq, Eq, Structural)]
pub enum BindError {
    NewSocket(NetError),
    AllocatePacketQueue(AllocQueueError),
    SetOnReceiveCallback(MallocError),
    BindSocket(NetError),
    JoinMulticastGroup(NetError),
}

/// Whether a packet buffer that starts at `address` has to be copied to an
/// aligned place before it is read.
pub fn align_packet_buffer(address: usize) -> (copy: bool)
    ensures
        copy == (address % ALIGN != 0),
{
    let align_offset = address % ALIGN;
    align_offset != 0
}

/// The statistics after a packet has arrived from the network and has, or
/// has not, found room in the queue to the receiving task.
pub open spec fn arrived(before: Report, queued: bool) -> Report {
    Report {
        wifi_packets_received: ((before.wifi_packets_received + 1) % 0x1_0000_0000) as u32,
        packets_dropped_in_protocol_queue: if queued {
            before.packets_dropped_in_protocol_queue
        } else {
            ((before.packets_dropped_in_protocol_queue + 1) % 0x1_0000_0000) as u32
        },
        ..before
    }
}

/// What the network callback does with a packet: counts it and queues it
/// for the receiving task, which is woken. A packet that finds the queue
/// full is dropped and counted as dropped: the receiving task is failing
/// to keep up, and the callback must not wait. Hands out the threads to
/// notify.
pub fn on_receive<T>(
    queue: &mut Shared<T>,
    packet: T,
    registry: &Registry,
    stats: &mut Stats,
) -> (wake: Vec<TaskPtr>)
    requires
        old(queue).wf(),
    ensures
        final(queue).wf(),
        final(queue).capacity() == old(queue).capacity(),
        final(queue).flags() == old(queue).flags(),
        final(queue).waiting_tx() == old(queue).waiting_tx(),
        final(stats)@ == arrived(old(stats)@, old(queue)@.len() < old(queue).capacity()),
        if old(queue)@.len() < old(queue).capacity() {
            &&& final(queue)@ == old(queue)@.push(packet)
            &&& final(queue).waiting_rx() == 0
            &&& wake@ == wakeable(old(queue).waiting_rx(), registry.slots@, MAX_TASKS as int)
        } else {
            &&& final(queue)@ == old(queue)@
            &&& final(queue).waiting_rx() == old(queue).waiting_rx()
            &&& wake@.len() == 0
        },
{
    stats.wifi_packets_received.increment();
    let sent = queue.try_send(packet, registry);
    match sent.result {
        Ok(()) => {},
        Err(_) => {
            // the app task must be failing to keep up, nothing we can do
            // here but drop the packet
            stats.packets_dropped_in_protocol_queue.increment();
        },
    }
    sent.wake
}

} // verus!
