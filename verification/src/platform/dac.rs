//! Sample formats of the onboard converter and the hand-over of frames to
//! its DMA descriptors.
//!
//! Only 8 bit output is supported.

use vstd::prelude::*;

use crate::stats::Stats;
use crate::sync::isr::IsrResult;
use crate::sync::ringbuffer::{min_nat, RingBuffer};

verus! {

pub const DMA_BUFFER_COUNT: usize = 4;

pub const DMA_BUFFER_SIZE: usize = 512;

/// Bytes that one frame takes in a DMA descriptor.
pub const DMA_FRAME_BYTES: usize = 4;

/// One stereo frame of signed 8-bit samples.
#[derive(Clone, Copy, Debug, Default, PartialEq, Eq, Structural)]
pub struct Frame(pub i8, pub i8);

// we write 16 bit samples to the DAC, although we only have 8 bit resolution.
// we add a 0x80 bias to i8 samples in conversion to u8, then left shift by 8
// to get the final output sample.
#[derive(Clone, Copy, Debug, PartialEq, Eq, Structural)]
pub struct DmaFrame(pub u16, pub u16);

/// The output code of a signed sample: the sample moved up by 128, in the
/// high byte of 16 bits.
pub open spec fn dma_sample(sample: i8) -> u16 {
    ((sample + 128) * 256) as u16
}

/// The output frame of a frame.
pub open spec fn dma_frame(frame: Frame) -> DmaFrame {
    DmaFrame(dma_sample(frame.0), dma_sample(frame.1))
}

/// The output frame of silence: both channels at mid-scale.
pub open spec fn dma_silence() -> DmaFrame {
    DmaFrame(0x8000, 0x8000)
}

fn convert_sample(sample: i8) -> (code: u16)
    ensures
        code == dma_sample(sample),
{
    let biased = 0x80u8.wrapping_add_signed(sample);
    let wide = biased as u16;
    assert(wide == sample + 128);
    assert(wide << 8 == wide * 256) by (bit_vector)
        requires
            wide < 256,
    ;
    wide << 8
}

impl Default for DmaFrame {
    fn default() -> (frame: Self)
        ensures
            frame == dma_silence(),
    {
        DmaFrame(0x8000, 0x8000)
    }
}

impl DmaFrame {
    /// Converts a frame to the converter's encoding.
    pub fn from_frame(value: Frame) -> (frame: Self)
        ensures
            frame == dma_frame(value),
    {
        let l = convert_sample(value.0);
        let r = convert_sample(value.1);
        DmaFrame(l, r)
    }
}

/// Silence is what the frame of two zero samples converts to.
pub proof fn lemma_silence_is_zero_frame()
    ensures
        dma_frame(Frame(0, 0)) == dma_silence(),
{
}

/// The conversion keeps the order of samples.
pub proof fn lemma_dma_sample_monotonic(a: i8, b: i8)
    requires
        a <= b,
    ensures
        dma_sample(a) <= dma_sample(b),
{
}

/// The frames that a descriptor of `output_len` frames gets when `waiting`
/// is what the ring holds: the oldest frames converted, then silence.
pub open spec fn drained(waiting: Seq<Frame>, output_len: nat) -> Seq<DmaFrame> {
    Seq::new(
        output_len,
        |i: int|
            if i < waiting.len() {
                dma_frame(waiting[i])
            } else {
                dma_silence()
            },
    )
}

/// How many frames a descriptor of `buf_size` bytes holds.
pub fn descriptor_frames(buf_size: usize) -> (frames: usize)
    ensures
        frames == buf_size / DMA_FRAME_BYTES,
{
    buf_size / DMA_FRAME_BYTES
}

/// What the converter's "buffer consumed" interrupt does: moves as many
/// frames as the descriptor holds from the ring into it, converted, and
/// fills what is left of it with silence. A descriptor that could not be
/// filled from the ring counts as an underrun. Returns how many frames came
/// from the ring.
pub fn on_convert_done<const N: usize>(
    ring: &mut RingBuffer<Frame, N>,
    output: &mut [DmaFrame],
    stats: &mut Stats,
) -> (sent: usize)
    requires
        old(ring).wf(),
    ensures
        final(ring).wf(),
        sent == min_nat(old(output)@.len(), old(ring)@.len()),
        final(ring)@ == old(ring)@.skip(sent as int),
        final(output)@ == drained(old(ring)@, old(output)@.len()),
        final(stats)@ == (crate::stats::Report {
            dac_frames_sent: ((old(stats)@.dac_frames_sent + (sent as int % 0x1_0000_0000))
                % 0x1_0000_0000) as u32,
            dac_underruns: if sent < old(output)@.len() {
                ((old(stats)@.dac_underruns + 1) % 0x1_0000_0000) as u32
            } else {
                old(stats)@.dac_underruns
            },
            ..old(stats)@
        }),
{
    let ghost waiting = ring@;
    let total = output.len();

    // copy from ringbuffer to output buffer, converting the sample format
    // on the fly:
    let (slice1, slice2) = ring.reader_slices();

    // copy from slice1 first:
    let n1 = if total < slice1.len() {
        total
    } else {
        slice1.len()
    };
    let mut i: usize = 0;
    while i < n1
        invariant
            i <= n1 <= slice1@.len(),
            n1 <= total == output@.len(),
            slice1@ + slice2@ == waiting,
            forall|j: int| 0 <= j < i ==> output@[j] == dma_frame(waiting[j]),
        decreases n1 - i,
    {
        assert(waiting[i as int] == slice1@[i as int]);
        output[i] = DmaFrame::from_frame(slice1[i]);
        i += 1;
    }

    // copy from slice2, offsetting into output to keep indices neat
    let rest = total - n1;
    let n2 = if rest < slice2.len() {
        rest
    } else {
        slice2.len()
    };
    let mut k: usize = 0;
    while k < n2
        invariant
            k <= n2 <= slice2@.len(),
            n1 + n2 <= total == output@.len(),
            n1 <= slice1@.len(),
            n2 > 0 ==> n1 == slice1@.len(),
            slice1@ + slice2@ == waiting,
            forall|j: int| 0 <= j < n1 + k ==> output@[j] == dma_frame(waiting[j]),
        decreases n2 - k,
    {
        assert(waiting[n1 + k] == slice2@[k as int]);
        output[n1 + k] = DmaFrame::from_frame(slice2[k]);
        k += 1;
    }

    // how many frames we read:
    let n = n1 + n2;
    ring.advance_reader(n);

    // fill any remaining buffer with silence:
    if n < total {
        let mut i: usize = n;
        while i < total
            invariant
                n <= i <= total == output@.len(),
                forall|j: int| 0 <= j < n ==> output@[j] == dma_frame(waiting[j]),
                forall|j: int| n <= j < i ==> output@[j] == dma_silence(),
            decreases total - i,
        {
            output[i] = DmaFrame::default();
            i += 1;
        }
        stats.dac_underruns.increment();
    }
    stats.dac_frames_sent.add((n as u64 % 0x1_0000_0000u64) as u32);
    assert(output@ =~= drained(waiting, total as nat));
    n
}

/// What a write into the ring comes to for the task that writes: nothing
/// written means the task has to wait for the next interrupt.
pub fn poll_write<const N: usize>(ring: &mut RingBuffer<Frame, N>, data: &[Frame]) -> (written:
    Option<usize>)
    requires
        old(ring).wf(),
    ensures
        final(ring).wf(),
        final(ring)@ == crate::sync::ringbuffer::ring_write(old(ring)@, N as nat, data@),
        written == if min_nat(data@.len(), old(ring).space()) == 0 {
            None
        } else {
            Some(min_nat(data@.len(), old(ring).space()) as usize)
        },
{
    let n = ring.write(data);
    if n == 0 {
        None
    } else {
        Some(n)
    }
}

/// What the interrupt handler returns to the driver: whether waking the
/// writers calls for a context switch.
pub fn context_switch_needed<E>(woken: &IsrResult<(), E>) -> (need: bool)
    ensures
        need == woken.need_wake,
{
    woken.need_wake
}

} // verus!
