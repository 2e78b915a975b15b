use bark_core::sync::ringbuffer::{copy_from_split, copy_to_split, RingBuffer};

#[test]
fn round_trip_of_chunks() {
    let mut ring: RingBuffer<u8, 16> = RingBuffer::new();
    assert_eq!(ring.write(&[1, 2, 3]), 3);
    assert_eq!(ring.write(&[4, 5, 6, 7]), 4);
    assert_eq!(ring.write(&[]), 0);
    assert_eq!(ring.write(&[8, 9, 10, 11, 12, 13, 14, 15]), 8);
    let mut out = [0u8; 15];
    assert_eq!(ring.read(&mut out), 15);
    assert_eq!(out, [1, 2, 3, 4, 5, 6, 7, 8, 9, 10, 11, 12, 13, 14, 15]);
}

#[test]
fn full_ring_takes_nothing_and_keeps_unread_data() {
    let mut ring: RingBuffer<u8, 4> = RingBuffer::new();
    assert_eq!(ring.write(&[1, 2, 3, 4, 5]), 3);
    assert_eq!(ring.write(&[9, 9]), 0);
    let mut out = [0u8; 8];
    assert_eq!(ring.read(&mut out), 3);
    assert_eq!(out, [1, 2, 3, 0, 0, 0, 0, 0]);
}

#[test]
fn wraps_around() {
    let mut ring: RingBuffer<u8, 4> = RingBuffer::new();
    let mut out = [0u8; 2];
    assert_eq!(ring.write(&[1, 2, 3]), 3);
    assert_eq!(ring.read(&mut out), 2);
    assert_eq!(out, [1, 2]);
    assert_eq!(ring.write(&[4, 5, 6]), 2);
    let mut out = [0u8; 4];
    assert_eq!(ring.read(&mut out), 3);
    assert_eq!(out, [3, 4, 5, 0]);
    assert_eq!(ring.read(&mut out), 0);
}

#[test]
fn read_in_place_hands_out_two_runs() {
    let mut ring: RingBuffer<u8, 4> = RingBuffer::new();
    let mut out = [0u8; 3];
    ring.write(&[1, 2, 3]);
    ring.read(&mut out);
    ring.write(&[4, 5]);
    let used = ring.read_in_place(|left, right| {
        assert_eq!(left, &[4]);
        assert_eq!(right, &[5]);
        1
    });
    assert_eq!(used, 1);
    assert_eq!(ring.read(&mut out), 1);
    assert_eq!(out[0], 5);
}

#[test]
fn fill_fills_the_space_and_reset_empties() {
    let mut ring: RingBuffer<u16, 5> = RingBuffer::new_with_buffer([0; 5]);
    assert_eq!(ring.buffer_len(), 5);
    ring.write(&[7]);
    ring.fill(9);
    assert_eq!(ring.write(&[1]), 0);
    let mut out = [0u16; 5];
    assert_eq!(ring.read(&mut out), 4);
    assert_eq!(out, [7, 9, 9, 9, 0]);
    ring.fill(3);
    ring.reset();
    assert_eq!(ring.read(&mut out), 0);
}

#[test]
fn split_copies() {
    let mut left = [0u8; 2];
    let mut right = [0u8; 3];
    assert_eq!(copy_to_split(&[1, 2, 3, 4], &mut left, &mut right), 4);
    assert_eq!((left, right), ([1, 2], [3, 4, 0]));
    assert_eq!(copy_to_split(&[1, 2, 3, 4, 5, 6, 7], &mut left, &mut right), 5);
    let mut dst = [0u8; 4];
    assert_eq!(copy_from_split(&[1, 2], &[3], &mut dst), 3);
    assert_eq!(dst, [1, 2, 3, 0]);
    let mut dst = [0u8; 2];
    assert_eq!(copy_from_split(&[1], &[2, 3], &mut dst), 2);
    assert_eq!(dst, [1, 2]);
}
