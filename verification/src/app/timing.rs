use vstd::prelude::*;

use crate::app::packet::Time;

verus! {

/// What the receiver knows of the stream's clock: the latest completed
/// round trip of time packets.
#[derive(Clone, Copy, Debug, PartialEq, Eq, Structural)]
pub struct Timing {
    pub latest: Option<Time>,
}

impl Default for Timing {
    fn default() -> (timing: Self)
        ensures
            timing.latest is None,
    {
        Timing { latest: None }
    }
}

impl Timing {
    /// Takes in a time packet: it becomes the latest round trip.
    pub fn receive_packet(&mut self, packet: Time)
        ensures
            final(self).latest == Some(packet),
    {
        self.latest = Some(packet);
    }
}

} // verus!
