use vstd::prelude::*;

verus! {

/// A 32-bit event counter that is read by taking its value, which resets it.
pub struct Counter {
    value: u32,
}

impl Counter {
    /// The number of events counted since the last `take`, modulo 2^32.
    pub closed spec fn view(&self) -> u32 {
        self.value
    }

    pub fn new() -> (counter: Self)
        ensures
            counter@ == 0,
    {
        Counter { value: 0 }
    }

    /// Counts one event.
    pub fn increment(&mut self)
        ensures
            final(self)@ == (old(self)@ + 1) % 0x1_0000_0000,
    {
        self.add(1);
    }

    /// Counts `n` events. The count wraps around at 2^32.
    pub fn add(&mut self, n: u32)
        ensures
            final(self)@ == (old(self)@ + n) % 0x1_0000_0000,
    {
        self.value = self.value.wrapping_add(n);
    }

    /// Hands out the count and starts again from zero.
    pub fn take(&mut self) -> (count: u32)
        ensures
            count == old(self)@,
            final(self)@ == 0,
    {
        let count = self.value;
        self.value = 0;
        count
    }
}

/// The counters that the receiver keeps for periodic reporting.
pub struct Stats {
    pub wifi_packets_received: Counter,
    pub packets_dropped_in_protocol_queue: Counter,
    pub audio_packets_received_on_time: Counter,
    pub audio_packets_received_late: Counter,
    pub audio_packets_received_early: Counter,
    pub stream_hit: Counter,
    pub stream_miss: Counter,
    pub dac_frames_sent: Counter,
    pub dac_underruns: Counter,
}

/// The counts of one reporting period.
#[derive(Clone, Copy, Debug, PartialEq, Eq, Structural)]
pub struct Report {
    pub wifi_packets_received: u32,
    pub packets_dropped_in_protocol_queue: u32,
    pub audio_packets_received_on_time: u32,
    pub audio_packets_received_late: u32,
    pub audio_packets_received_early: u32,
    pub stream_hit: u32,
    pub stream_miss: u32,
    pub dac_frames_sent: u32,
    pub dac_underruns: u32,
}

impl Stats {
    /// What the counters hold.
    pub open spec fn view(&self) -> Report {
        Report {
            wifi_packets_received: self.wifi_packets_received@,
            packets_dropped_in_protocol_queue: self.packets_dropped_in_protocol_queue@,
            audio_packets_received_on_time: self.audio_packets_received_on_time@,
            audio_packets_received_late: self.audio_packets_received_late@,
            audio_packets_received_early: self.audio_packets_received_early@,
            stream_hit: self.stream_hit@,
            stream_miss: self.stream_miss@,
            dac_frames_sent: self.dac_frames_sent@,
            dac_underruns: self.dac_underruns@,
        }
    }

    /// The report of a period in which nothing happened.
    pub open spec fn zero() -> Report {
        Report {
            wifi_packets_received: 0,
            packets_dropped_in_protocol_queue: 0,
            audio_packets_received_on_time: 0,
            audio_packets_received_late: 0,
            audio_packets_received_early: 0,
            stream_hit: 0,
            stream_miss: 0,
            dac_frames_sent: 0,
            dac_underruns: 0,
        }
    }

    pub fn new() -> (stats: Self)
        ensures
            stats@ == Self::zero(),
    {
        Stats {
            wifi_packets_received: Counter::new(),
            packets_dropped_in_protocol_queue: Counter::new(),
            audio_packets_received_on_time: Counter::new(),
            audio_packets_received_late: Counter::new(),
            audio_packets_received_early: Counter::new(),
            stream_hit: Counter::new(),
            stream_miss: Counter::new(),
            dac_frames_sent: Counter::new(),
            dac_underruns: Counter::new(),
        }
    }

    /// Takes every counter: hands out the counts of the period that ends
    /// now, and starts the next period from zero.
    pub fn take(&mut self) -> (report: Report)
        ensures
            report == old(self)@,
            final(self)@ == Self::zero(),
    {
        Report {
            wifi_packets_received: self.wifi_packets_received.take(),
            packets_dropped_in_protocol_queue: self.packets_dropped_in_protocol_queue.take(),
            audio_packets_received_on_time: self.audio_packets_received_on_time.take(),
            audio_packets_received_late: self.audio_packets_received_late.take(),
            audio_packets_received_early: self.audio_packets_received_early.take(),
            stream_hit: self.stream_hit.take(),
            stream_miss: self.stream_miss.take(),
            dac_frames_sent: self.dac_frames_sent.take(),
            dac_underruns: self.dac_underruns.take(),
        }
    }
}

} // verus!
