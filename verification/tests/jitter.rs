use bark_core::app::consts::MAX_QUEUED_PACKETS;
use bark_core::app::packet::{Audio, AudioPacketHeader, SessionId, SAMPLES_PER_PACKET};
use bark_core::app::queue::{Inserted, NoSlot, Shared};

fn packet(seq: u64, mark: u32) -> Audio {
    Audio::new(AudioPacketHeader { sid: SessionId(1), seq }, [mark; SAMPLES_PER_PACKET])
}

fn pop_seq(queue: &mut Shared) -> Option<u64> {
    queue.pop_front().map(|p| p.header().seq)
}

#[test]
fn reorders_by_sequence_number() {
    let mut queue = Shared::new(5);
    for seq in [5u64, 6, 8, 7] {
        assert_eq!(queue.insert_packet(packet(seq, 0)), Ok(Inserted::Stored));
    }
    let mut popped = Vec::new();
    for _ in 0..4 {
        popped.push(pop_seq(&mut queue));
    }
    assert_eq!(popped, vec![Some(5), Some(6), Some(7), Some(8)]);
}

#[test]
fn packet_before_the_window_is_in_past() {
    let mut queue = Shared::new(5);
    assert_eq!(queue.insert_packet(packet(4, 0)), Err(NoSlot::InPast));
    assert_eq!(queue.insert_packet(packet(0, 0)), Err(NoSlot::InPast));
    assert_eq!(pop_seq(&mut queue), None);
}

#[test]
fn packet_at_the_end_of_the_window_is_too_far() {
    let mut queue = Shared::new(5);
    let last = 5 + MAX_QUEUED_PACKETS as u64 - 1;
    assert_eq!(queue.insert_packet(packet(last, 0)), Ok(Inserted::Stored));
    assert_eq!(queue.insert_packet(packet(last + 1, 0)), Err(NoSlot::TooFarInFuture));
    assert_eq!(queue.insert_packet(packet(u64::MAX, 0)), Err(NoSlot::TooFarInFuture));
    assert_eq!(queue.insert_packet(packet(5 + (1u64 << 32), 0)), Err(NoSlot::TooFarInFuture));
}

#[test]
fn first_packet_of_a_slot_wins() {
    let mut queue = Shared::new(10);
    assert_eq!(queue.insert_packet(packet(11, 0xaaaa)), Ok(Inserted::Stored));
    assert_eq!(queue.insert_packet(packet(11, 0xbbbb)), Ok(Inserted::Duplicate));
    assert_eq!(pop_seq(&mut queue), None);
    let kept = queue.pop_front().expect("slot 11 holds a packet");
    assert_eq!(kept.buffer()[0], 0xaaaa);
}

#[test]
fn pop_moves_the_head_by_one_with_or_without_packet() {
    let mut queue = Shared::new(100);
    assert_eq!(queue.head_seq(), 100);
    assert_eq!(pop_seq(&mut queue), None);
    assert_eq!(queue.head_seq(), 101);
    assert_eq!(queue.insert_packet(packet(101, 0)), Ok(Inserted::Stored));
    assert_eq!(pop_seq(&mut queue), Some(101));
    assert_eq!(queue.head_seq(), 102);
    assert_eq!(queue.insert_packet(packet(101, 0)), Err(NoSlot::InPast));
}

#[test]
fn window_slides_with_pops() {
    let mut queue = Shared::new(0);
    let cap = MAX_QUEUED_PACKETS as u64;
    assert_eq!(queue.insert_packet(packet(cap, 0)), Err(NoSlot::TooFarInFuture));
    assert_eq!(pop_seq(&mut queue), None);
    assert_eq!(queue.insert_packet(packet(cap, 0)), Ok(Inserted::Stored));
    for _ in 1..cap {
        assert_eq!(pop_seq(&mut queue), None);
    }
    assert_eq!(pop_seq(&mut queue), Some(cap));
}

#[test]
fn tail_seq_is_head_plus_capacity() {
    assert_eq!(Shared::new(5).tail_seq(), Some(5 + MAX_QUEUED_PACKETS as u64));
    assert_eq!(Shared::new(u64::MAX).tail_seq(), None);
}
