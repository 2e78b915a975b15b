use bark_core::app::packet::{Audio, AudioPacketHeader, SessionId, FRAMES_PER_PACKET, SAMPLES_PER_PACKET};
use bark_core::app::queue::Shared;
use bark_core::app::stream::{convint8, render, run_stream, Playback};
use bark_core::platform::dac::{descriptor_frames, on_convert_done, poll_write, DmaFrame, Frame};
use bark_core::stats::Stats;
use bark_core::sync::ringbuffer::RingBuffer;

fn conv(x: f32) -> i8 {
    convint8(x.to_bits())
}

#[test]
fn zero_converts_to_zero() {
    assert_eq!(conv(0.0), 0);
    assert_eq!(conv(-0.0), 0);
}

#[test]
fn full_scale_converts_to_extremes() {
    assert_eq!(conv(1.0), 127);
    assert_eq!(conv(-1.0), -127);
}

#[test]
fn out_of_range_clips() {
    assert_eq!(conv(1.5), 127);
    assert_eq!(conv(2.0), 127);
    assert_eq!(conv(-3.0), -127);
    assert_eq!(conv(1000.0), 127);
    assert_eq!(conv(f32::INFINITY), 127);
    assert_eq!(conv(f32::NEG_INFINITY), -127);
}

#[test]
fn exact_values_in_range() {
    assert_eq!(conv(0.5), 63);
    assert_eq!(conv(-0.5), -63);
    assert_eq!(conv(0.25), 31);
    assert_eq!(conv(0.75), 95);
    assert_eq!(conv(0.0078125), 0);
    assert_eq!(conv(0.015625), 1);
    assert_eq!(conv(0.001), 0);
    assert_eq!(conv(f32::MIN_POSITIVE), 0);
}

#[test]
fn conversion_is_monotonic_on_a_sweep() {
    let mut last = -127i8;
    let mut x = -2.0f32;
    while x <= 2.0 {
        let y = conv(x);
        assert!(y >= last, "{} -> {} after {}", x, y, last);
        last = y;
        x += 0.001;
    }
    assert_eq!(last, 127);
}

#[test]
fn render_converts_frames_and_counts() {
    let mut stats = Stats::new();
    let mut samples = [0u32; SAMPLES_PER_PACKET];
    samples[0] = 1.0f32.to_bits();
    samples[1] = (-0.5f32).to_bits();
    samples[2 * (FRAMES_PER_PACKET - 1)] = 0.25f32.to_bits();
    let packet = Audio::new(AudioPacketHeader { sid: SessionId(9), seq: 0 }, samples);
    let frames = render(&Some(packet), &mut stats);
    assert_eq!(frames[0], Frame(127, -63));
    assert_eq!(frames[1], Frame(0, 0));
    assert_eq!(frames[FRAMES_PER_PACKET - 1], Frame(31, 0));
    let silent = render(&None, &mut stats);
    assert!(silent.iter().all(|f| *f == Frame(0, 0)));
    let report = stats.take();
    assert_eq!((report.stream_hit, report.stream_miss), (1, 1));
}

#[test]
fn playback_round_exits_when_disconnected() {
    let mut stats = Stats::new();
    let mut queue = Shared::new(3);
    assert!(matches!(run_stream(true, &mut queue, &mut stats), Playback::Exit));
    assert_eq!(queue.head_seq(), 3);
    assert!(matches!(run_stream(false, &mut queue, &mut stats), Playback::Write(_)));
    assert_eq!(queue.head_seq(), 4);
    assert_eq!(stats.take().stream_miss, 1);
}

#[test]
fn dma_frame_encoding() {
    assert_eq!(DmaFrame::from_frame(Frame(0, 0)), DmaFrame(0x8000, 0x8000));
    assert_eq!(DmaFrame::from_frame(Frame(127, -127)), DmaFrame(0xff00, 0x0100));
    assert_eq!(DmaFrame::from_frame(Frame(-128, -1)), DmaFrame(0x0000, 0x7f00));
    assert_eq!(DmaFrame::default(), DmaFrame(0x8000, 0x8000));
    assert_eq!(descriptor_frames(512), 128);
}

#[test]
fn interrupt_drains_ring_and_pads_with_silence() {
    let mut ring: RingBuffer<Frame, 8> = RingBuffer::new_with_buffer([Frame(0, 0); 8]);
    let mut stats = Stats::new();
    assert_eq!(poll_write(&mut ring, &[Frame(1, 2), Frame(3, 4), Frame(5, 6)]), Some(3));
    let mut output = [DmaFrame(0, 0); 5];
    assert_eq!(on_convert_done(&mut ring, &mut output, &mut stats), 3);
    assert_eq!(
        output,
        [
            DmaFrame(0x8100, 0x8200),
            DmaFrame(0x8300, 0x8400),
            DmaFrame(0x8500, 0x8600),
            DmaFrame(0x8000, 0x8000),
            DmaFrame(0x8000, 0x8000),
        ]
    );
    let report = stats.take();
    assert_eq!((report.dac_frames_sent, report.dac_underruns), (3, 1));
}

#[test]
fn interrupt_without_underrun_leaves_the_rest_in_the_ring() {
    let mut ring: RingBuffer<Frame, 8> = RingBuffer::new_with_buffer([Frame(0, 0); 8]);
    let mut stats = Stats::new();
    let frames = [Frame(1, 1), Frame(2, 2), Frame(3, 3), Frame(4, 4), Frame(5, 5)];
    assert_eq!(poll_write(&mut ring, &frames), Some(5));
    let mut output = [DmaFrame(0, 0); 2];
    assert_eq!(on_convert_done(&mut ring, &mut output, &mut stats), 2);
    assert_eq!(output, [DmaFrame(0x8100, 0x8100), DmaFrame(0x8200, 0x8200)]);
    let report = stats.take();
    assert_eq!((report.dac_frames_sent, report.dac_underruns), (2, 0));
    let mut rest = [Frame(0, 0); 4];
    assert_eq!(ring.read(&mut rest), 3);
    assert_eq!(rest[0], Frame(3, 3));
}

#[test]
fn write_to_full_ring_is_pending() {
    let mut ring: RingBuffer<Frame, 2> = RingBuffer::new_with_buffer([Frame(0, 0); 2]);
    assert_eq!(poll_write(&mut ring, &[Frame(1, 1), Frame(2, 2)]), Some(1));
    assert_eq!(poll_write(&mut ring, &[Frame(2, 2)]), None);
    assert_eq!(poll_write(&mut ring, &[]), None);
}
