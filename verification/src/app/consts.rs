use vstd::prelude::*;

use crate::app::packet::{FRAMES_PER_PACKET, SAMPLE_RATE};

verus! {

/// Number of slots in the jitter buffer's reorder window.
pub const MAX_QUEUED_PACKETS: usize = 50;

/// Target start-up buffering delay.
pub const DELAY_START_MS: usize = 50;

/// The start-up delay counted in frames.
pub const DELAY_START_SAMPLES: usize = 2400;

/// The start-up delay counted in packets: a stream starts playing once it
/// has received more packets than this.
pub const DELAY_START_PACKETS: usize = 20;

/// The packet count that covers `delay_ms` milliseconds of audio, rounded down.
pub open spec fn delay_packets(delay_ms: nat, sample_rate: nat, frames_per_packet: nat) -> nat
    recommends
        frames_per_packet > 0,
{
    ((delay_ms * sample_rate) / 1000) / frames_per_packet
}

/// The start-up constants agree with the stream's sample rate and packet size.
pub proof fn lemma_delay_start_consts()
    ensures
        DELAY_START_SAMPLES == (DELAY_START_MS * SAMPLE_RATE) / 1000,
        DELAY_START_PACKETS == DELAY_START_SAMPLES / FRAMES_PER_PACKET,
        DELAY_START_PACKETS == delay_packets(
            DELAY_START_MS as nat,
            SAMPLE_RATE as nat,
            FRAMES_PER_PACKET as nat,
        ),
{
}

} // verus!
