use vstd::prelude::*;

use crate::app::consts::DELAY_START_PACKETS;
use crate::app::packet::{Audio, SessionId, Time, FRAMES_PER_PACKET, SAMPLES_PER_PACKET};
use crate::app::queue::{count_admission, counted, Shared, Window};
use crate::app::timing::Timing;
use crate::platform::dac::Frame;
use crate::stats::Stats;
use crate::system::heap::MallocError;
use crate::system::task::{new, SpawnError, TaskBuilder};

verus! {

/// Name of the task that plays a stream.
pub const STREAM_TASK_NAME: &'static str = "bark::stream";

/// Priority of the task that plays a stream.
pub const STREAM_TASK_PRIORITY: u32 = 16;

/// Where a stream stands in its life: it buffers until it has received more
/// than `DELAY_START_PACKETS` packets, and then plays for good.
#[derive(Clone, Copy, Debug, PartialEq, Eq, Structural)]
pub enum BufferStart {
    ReceivingPackets(usize),
    Started,
}

impl BufferStart {
    /// Whether the audio packet that arrives in this state starts playback.
    pub open spec fn starts(self) -> bool {
        self matches BufferStart::ReceivingPackets(count) && count + 1 > DELAY_START_PACKETS
    }

    /// The state after an audio packet has arrived in this state.
    pub open spec fn step(self) -> BufferStart {
        match self {
            BufferStart::ReceivingPackets(count) => if count + 1 > DELAY_START_PACKETS {
                BufferStart::Started
            } else {
                BufferStart::ReceivingPackets((count + 1) as usize)
            },
            BufferStart::Started => BufferStart::Started,
        }
    }

    /// The state after `packets` audio packets have arrived at a new stream.
    pub open spec fn after(packets: nat) -> BufferStart
        decreases packets,
    {
        if packets == 0 {
            BufferStart::ReceivingPackets(0)
        } else {
            Self::after((packets - 1) as nat).step()
        }
    }
}

/// A stream that has received `packets` audio packets is still buffering if
/// `packets` is at most `DELAY_START_PACKETS`, and has started otherwise.
/// Playback starts with one packet only: the first that takes the count
/// over the threshold.
pub proof fn lemma_starts_exactly_once(packets: nat)
    ensures
        BufferStart::after(packets) == if packets <= DELAY_START_PACKETS {
            BufferStart::ReceivingPackets(packets as usize)
        } else {
            BufferStart::Started
        },
        BufferStart::after(packets).starts() <==> packets == DELAY_START_PACKETS,
    decreases packets,
{
    if packets > 0 {
        lemma_starts_exactly_once((packets - 1) as nat);
    }
}

#[derive(Clone, Copy, Debug, PartialEq, Eq, Structural)]
pub enum NewStreamError {
    AllocatePacketQueue(MallocError),
    SpawnAudioTask(SpawnError),
}

impl NewStreamError {
    pub fn from_malloc_error(err: MallocError) -> (res: Self)
        ensures
            res == NewStreamError::AllocatePacketQueue(err),
    {
        NewStreamError::AllocatePacketQueue(err)
    }

    pub fn from_spawn_error(err: SpawnError) -> (res: Self)
        ensures
            res == NewStreamError::SpawnAudioTask(err),
    {
        NewStreamError::SpawnAudioTask(err)
    }
}

/// The task that is to play a stream: high priority, on the second core.
pub open spec fn stream_task() -> TaskBuilder {
    TaskBuilder {
        name: STREAM_TASK_NAME,
        stack_bytes: crate::system::task::DEFAULT_STACK_SIZE,
        priority: STREAM_TASK_PRIORITY,
        core: 1,
    }
}

/// One session of audio: its jitter buffer, what is known of its clock, and
/// whether it has started to play.
pub struct Stream {
    sid: SessionId,
    timing: Timing,
    queue: Shared,
    start: BufferStart,
}

impl Stream {
    pub closed spec fn spec_sid(&self) -> SessionId {
        self.sid
    }

    pub closed spec fn timing(&self) -> Timing {
        self.timing
    }

    /// The stream's jitter buffer.
    pub closed spec fn window(&self) -> Window {
        self.queue@
    }

    pub closed spec fn start(&self) -> BufferStart {
        self.start
    }

    /// A stream that buffers has not counted past the threshold.
    pub closed spec fn wf(&self) -> bool {
        &&& self.queue.wf()
        &&& self.start matches BufferStart::ReceivingPackets(count) ==> count
            <= DELAY_START_PACKETS
    }

    /// A stream for session `sid` whose first expected packet is `seq`. It
    /// has received nothing and is buffering.
    pub fn new(sid: SessionId, seq: u64) -> (stream: Self)
        ensures
            stream.wf(),
            stream.spec_sid() == sid,
            stream.window() == Window::empty(seq),
            stream.start() == BufferStart::ReceivingPackets(0),
            stream.timing().latest is None,
    {
        Stream {
            sid,
            timing: Timing::default(),
            queue: Shared::new(seq),
            start: BufferStart::ReceivingPackets(0),
        }
    }

    #[verifier::when_used_as_spec(spec_sid)]
    pub fn sid(&self) -> (sid: SessionId)
        ensures
            sid == self.spec_sid(),
    {
        self.sid
    }

    /// Whether playback has started.
    pub fn started(&self) -> (started: bool)
        ensures
            started == (self.start() == BufferStart::Started),
    {
        match self.start {
            BufferStart::Started => true,
            BufferStart::ReceivingPackets(_) => false,
        }
    }

    /// Takes in a time packet, whatever the state of the stream.
    pub fn receive_time(&mut self, packet: Time)
        requires
            old(self).wf(),
        ensures
            final(self).wf(),
            final(self).timing().latest == Some(packet),
            final(self).spec_sid() == old(self).spec_sid(),
            final(self).window() == old(self).window(),
            final(self).start() == old(self).start(),
    {
        self.timing.receive_packet(packet);
    }

    /// Takes in an audio packet: it goes to the jitter buffer, what becomes
    /// of it there is counted, and the packet itself is counted while the
    /// stream buffers. The packet that takes that count over
    /// `DELAY_START_PACKETS` starts playback: the task to spawn for it is
    /// handed out, and the stream has started.
    pub fn receive_audio(&mut self, packet: Audio, stats: &mut Stats) -> (spawn: Option<
        TaskBuilder,
    >)
        requires
            old(self).wf(),
        ensures
            final(self).wf(),
            final(self).window() == old(self).window().insert(packet),
            final(stats)@ == counted(old(stats)@, old(self).window().admission(packet.seq())),
            final(self).start() == old(self).start().step(),
            spawn is Some <==> old(self).start().starts(),
            spawn is Some ==> spawn->Some_0 == stream_task(),
            final(self).spec_sid() == old(self).spec_sid(),
            final(self).timing() == old(self).timing(),
    {
        let admission = self.queue.insert_packet(packet);
        count_admission(stats, admission);

        match self.start {
            BufferStart::ReceivingPackets(count) => {
                let count = count + 1;
                if count > DELAY_START_PACKETS {
                    Some(self.start_task())
                } else {
                    self.start = BufferStart::ReceivingPackets(count);
                    None
                }
            },
            BufferStart::Started => None,
        }
    }

    fn start_task(&mut self) -> (task: TaskBuilder)
        ensures
            task == stream_task(),
            final(self).start == BufferStart::Started,
            final(self).sid == old(self).sid,
            final(self).timing == old(self).timing,
            final(self).queue == old(self).queue,
    {
        let task = new(STREAM_TASK_NAME).priority(STREAM_TASK_PRIORITY).use_alternate_core();
        self.start = BufferStart::Started;
        task
    }

    /// The sequence number of the next packet to play.
    pub fn head_seq(&self) -> (seq: u64)
        ensures
            seq == self.window().head_seq,
    {
        self.queue.head_seq()
    }

    /// Takes the next packet for playback out of the jitter buffer.
    pub fn pop_front(&mut self) -> (packet: Option<Audio>)
        requires
            old(self).wf(),
            old(self).window().head_seq < u64::MAX,
        ensures
            final(self).wf(),
            packet == old(self).window().front(),
            final(self).window() == old(self).window().pop(),
            final(self).start() == old(self).start(),
            final(self).spec_sid() == old(self).spec_sid(),
            final(self).timing() == old(self).timing(),
    {
        self.queue.pop_front()
    }
}

/// The 8-bit magnitude of the sample whose bit pattern without the sign is
/// `magnitude_bits`: nothing below 2^-7, full scale from 1.0 up, and in
/// between the mantissa with its leading one, moved right by the distance
/// of the exponent from the bias, less a quarter of the lowest output step.
pub open spec fn sample_magnitude(magnitude_bits: u32) -> u32 {
    let frac = (magnitude_bits & 0x7fffff) | 0x800000;
    let exp = (magnitude_bits >> 23) & 0xff;
    if exp < 0x78 {
        0
    } else if exp > 0x7f {
        127
    } else {
        let scaled = ((frac >> ((0x7fu32 - exp) as u32)) - 0x100) as u32 >> 16;
        if scaled > 127 {
            127
        } else {
            scaled
        }
    }
}

/// The signed 8-bit sample for the single-precision bit pattern `bits`.
pub open spec fn spec_convint8(bits: u32) -> i8 {
    if (bits >> 31) != 0 {
        (-(sample_magnitude(bits & 0x7fff_ffff) as int)) as i8
    } else {
        sample_magnitude(bits & 0x7fff_ffff) as i8
    }
}

/// The position of a bit pattern in the order of the numbers that the
/// patterns stand for: magnitudes count up, and a set sign bit mirrors them.
pub open spec fn sample_order(bits: u32) -> int {
    if (bits >> 31) != 0 {
        -((bits & 0x7fff_ffff) as int)
    } else {
        (bits & 0x7fff_ffff) as int
    }
}

proof fn lemma_magnitude_bounds(m: u32)
    by (bit_vector)
    ensures
        sample_magnitude(m) <= 127,
        m == 0 ==> sample_magnitude(m) == 0,
{
}

proof fn lemma_magnitude_monotonic(a: u32, b: u32)
    by (bit_vector)
    requires
        a <= b,
        b <= 0x7fff_ffff,
    ensures
        sample_magnitude(a) <= sample_magnitude(b),
{
}

/// A greater number never converts to a lesser sample.
pub proof fn lemma_convint8_monotonic(a: u32, b: u32)
    requires
        sample_order(a) <= sample_order(b),
    ensures
        spec_convint8(a) <= spec_convint8(b),
{
    let ma = a & 0x7fff_ffff;
    let mb = b & 0x7fff_ffff;
    assert(ma <= 0x7fff_ffff && mb <= 0x7fff_ffff) by (bit_vector)
        requires
            ma == a & 0x7fff_ffff,
            mb == b & 0x7fff_ffff,
    ;
    lemma_magnitude_bounds(ma);
    lemma_magnitude_bounds(mb);
    if ma <= mb {
        lemma_magnitude_monotonic(ma, mb);
    } else {
        lemma_magnitude_monotonic(mb, ma);
    }
}

/// Every sample lies between the negative and the positive full scale.
pub proof fn lemma_convint8_range(bits: u32)
    ensures
        -127 <= spec_convint8(bits) <= 127,
{
    lemma_magnitude_bounds(bits & 0x7fff_ffff);
}

/// Converts a single-precision bit pattern to a signed 8-bit sample.
#[verifier::when_used_as_spec(spec_convint8)]
pub fn convint8(bits: u32) -> (sample: i8)
    ensures
        sample == spec_convint8(bits),
{
    // extract fields from f32
    let frac = bits & 0x7fffff;
    let exp = (bits >> 23) & 0xff;
    let sign: i8 = if (bits >> 31) != 0 {
        -1
    } else {
        1
    };
    proof {
        let m = bits & 0x7fff_ffff;
        assert(m & 0x7fffff == bits & 0x7fffff && (m >> 23) & 0xff == (bits >> 23) & 0xff)
            by (bit_vector)
            requires
                m == bits & 0x7fff_ffff,
        ;
        lemma_magnitude_bounds(m);
    }

    // special case to make our lives easier (zero has a very different
    // canonical form than other floats in [-1.0, 1.0])
    if exp == 0 && frac == 0 {
        return 0;
    }
    // OR on implicit top 1 bit

    let frac = frac | 0x800000;

    if exp < 0x78 {
        // very small
        return 0;
    }
    if exp > 0x7f {
        // clip
        return 127 * sign;
    }
    assert(exp <= 0x7f);
    let shift = 0x7f - exp;
    assert(frac >> shift >= 0x100 && ((frac >> shift) - 0x100) as u32 >> 16 <= 0xff)
        by (bit_vector)
        requires
            shift <= 7,
            frac == (bits & 0x7fffff) | 0x800000,
    ;
    let normal = frac >> shift;
    let scaled = (normal - 0x100) >> 16;
    let magnitude: i8 = if scaled > 127 {
        127
    } else {
        scaled as i8
    };
    sign * magnitude
}

/// The frames of a block of interleaved samples: left and right sample of
/// each frame, converted.
pub open spec fn frames_of(samples: Seq<u32>) -> Seq<Frame> {
    Seq::new(
        FRAMES_PER_PACKET as nat,
        |i: int| Frame(spec_convint8(samples[i * 2]), spec_convint8(samples[i * 2 + 1])),
    )
}

/// A block of samples that are all zero.
pub open spec fn silence() -> Seq<u32> {
    Seq::new(SAMPLES_PER_PACKET as nat, |i: int| 0u32)
}

/// The samples to play for what the jitter buffer handed out: the packet's,
/// or silence where there is no packet.
pub open spec fn samples_to_play(packet: Option<Audio>) -> Seq<u32> {
    match packet {
        Some(packet) => packet.samples(),
        None => silence(),
    }
}

/// The statistics after a packet, or the lack of one, has been played.
pub open spec fn played(before: crate::stats::Report, hit: bool) -> crate::stats::Report {
    if hit {
        crate::stats::Report {
            stream_hit: ((before.stream_hit + 1) % 0x1_0000_0000) as u32,
            ..before
        }
    } else {
        crate::stats::Report {
            stream_miss: ((before.stream_miss + 1) % 0x1_0000_0000) as u32,
            ..before
        }
    }
}

/// Converts what the jitter buffer handed out to the frames to play, and
/// counts a hit for a packet and a miss for a gap.
pub fn render(packet: &Option<Audio>, stats: &mut Stats) -> (frames: [Frame; FRAMES_PER_PACKET])
    ensures
        frames@ == frames_of(samples_to_play(*packet)),
        final(stats)@ == played(old(stats)@, packet is Some),
{
    match packet {
        Some(_) => {
            stats.stream_hit.increment();
        },
        None => {
            stats.stream_miss.increment();
        },
    }

    let silent = [0u32;SAMPLES_PER_PACKET];
    let audio: &[u32; SAMPLES_PER_PACKET] = match packet {
        Some(packet) => packet.buffer(),
        None => &silent,
    };
    assert(audio@ =~= samples_to_play(*packet));

    let mut buff = [Frame(0, 0);FRAMES_PER_PACKET];
    let mut i: usize = 0;
    while i < FRAMES_PER_PACKET
        invariant
            i <= FRAMES_PER_PACKET,
            audio@ == samples_to_play(*packet),
            audio@.len() == SAMPLES_PER_PACKET,
            forall|k: int|
                0 <= k < i ==> buff@[k] == Frame(
                    spec_convint8(audio@[k * 2]),
                    spec_convint8(audio@[k * 2 + 1]),
                ),
        decreases FRAMES_PER_PACKET - i,
    {
        let l = convint8(audio[i * 2]);
        let r = convint8(audio[i * 2 + 1]);
        buff[i] = Frame(l, r);
        i += 1;
    }
    assert(buff@ =~= frames_of(samples_to_play(*packet)));
    buff
}

/// What the playback task does next.
pub enum Playback {
    /// The stream is gone: the task ends.
    Exit,
    /// These frames are to be written to the converter.
    Write([Frame; FRAMES_PER_PACKET]),
}

/// One round of the playback task. If the other side of the jitter buffer
/// has gone, the task is to end and nothing changes. Otherwise the next
/// slot is popped and rendered.
pub fn run_stream(disconnected: bool, queue: &mut Shared, stats: &mut Stats) -> (next: Playback)
    requires
        old(queue).wf(),
        old(queue)@.head_seq < u64::MAX,
    ensures
        final(queue).wf(),
        disconnected ==> next is Exit && final(queue)@ == old(queue)@ && final(stats)@ == old(stats)@,
        !disconnected ==> next is Write && next->Write_0@ == frames_of(
            samples_to_play(old(queue)@.front()),
        ) && final(queue)@ == old(queue)@.pop() && final(stats)@ == played(
            old(stats)@,
            old(queue)@.front() is Some,
        ),
{
    if disconnected {
        return Playback::Exit;
    }
    let packet = queue.pop_front();
    Playback::Write(render(&packet, stats))
}

} // verus!
