use vstd::prelude::*;

verus! {

/// Frames per second of every stream.
pub const SAMPLE_RATE: u32 = 48000;

/// Interleaved channels per frame.
pub const CHANNELS: usize = 2;

/// Frames carried by one audio packet.
pub const FRAMES_PER_PACKET: usize = 120;

/// Samples carried by one audio packet, all channels together.
pub const SAMPLES_PER_PACKET: usize = 240;

/// Identifies one playback session; a later session has a greater id.
#[derive(Clone, Copy, Debug, PartialEq, Eq, Structural)]
pub struct SessionId(pub i64);

/// A point in time in microseconds.
#[derive(Clone, Copy, Debug, PartialEq, Eq, Structural)]
pub struct TimestampMicros(pub u64);

/// What an audio packet says about itself.
#[derive(Clone, Copy, Debug, PartialEq, Eq, Structural)]
pub struct AudioPacketHeader {
    pub sid: SessionId,
    pub seq: u64,
}

/// One packet of interleaved samples. A sample is held as the bit pattern of
/// an IEEE-754 single-precision number.
#[derive(Clone, Copy, Debug)]
pub struct Audio {
    header: AudioPacketHeader,
    buffer: [u32; SAMPLES_PER_PACKET],
}

impl Audio {
    pub closed spec fn spec_header(&self) -> AudioPacketHeader {
        self.header
    }

    /// The samples, in order.
    pub closed spec fn samples(&self) -> Seq<u32> {
        self.buffer@
    }

    /// The packet's sequence number.
    pub open spec fn seq(&self) -> u64 {
        self.spec_header().seq
    }

    pub fn new(header: AudioPacketHeader, buffer: [u32; SAMPLES_PER_PACKET]) -> (packet: Audio)
        ensures
            packet.spec_header() == header,
            packet.samples() == buffer@,
    {
        Audio { header, buffer }
    }

    #[verifier::when_used_as_spec(spec_header)]
    pub fn header(&self) -> (header: AudioPacketHeader)
        ensures
            header == self.spec_header(),
    {
        self.header
    }

    pub fn buffer(&self) -> (buffer: &[u32; SAMPLES_PER_PACKET])
        ensures
            buffer@ == self.samples(),
    {
        &self.buffer
    }

    pub proof fn lemma_samples_len(&self)
        ensures
            self.samples().len() == SAMPLES_PER_PACKET,
    {
    }
}

/// Where a time packet stands in its round trip.
#[derive(Clone, Copy, Debug, PartialEq, Eq, Structural)]
pub enum TimePhase {
    /// Sent out by the stream; the receiver has yet to stamp it.
    Broadcast,
    /// Stamped by the receiver and on its way back.
    ReceiverReply,
    /// Stamped once more by the stream and returned to the receiver.
    StreamReply,
}

/// A packet of the clock exchange between a stream and a receiver.
#[derive(Clone, Copy, Debug, PartialEq, Eq, Structural)]
pub struct Time {
    pub sid: SessionId,
    pub phase: Option<TimePhase>,
    pub stream_1: TimestampMicros,
    pub receive_2: TimestampMicros,
    pub stream_3: TimestampMicros,
}

/// A packet, by kind.
#[derive(Clone, Copy, Debug)]
pub enum PacketKind {
    Audio(Audio),
    Time(Time),
    /// A kind that the receiver has no use for.
    Other,
}

} // verus!
