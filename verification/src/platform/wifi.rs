use vstd::prelude::*;
use vstd::string::StringSliceAdditionalSpecFns;

verus! {

/// Where the wifi link stands.
#[derive(Clone, Copy, Debug, PartialEq, Eq, Structural)]
pub enum WifiState {
    Uninit,
    Started,
    Online,
    Disconnected,
}

/// An event of the wifi driver.
#[derive(Clone, Copy, Debug, PartialEq, Eq, Structural)]
pub enum WifiEvent {
    /// The station has started.
    StationStart,
    /// The station has lost its access point.
    StationDisconnected,
    /// Any other event.
    Other,
}

/// An event of the network stack.
#[derive(Clone, Copy, Debug, PartialEq, Eq, Structural)]
pub enum IpEvent {
    /// The station has got an address.
    StationGotIp,
    /// Any other event.
    Other,
}

/// The state that an event of the wifi driver puts the link in; nothing for
/// an event that does not change it.
pub fn on_wifi_event(msg: WifiEvent) -> (state: Option<WifiState>)
    ensures
        state == match msg {
            WifiEvent::StationStart => Some(WifiState::Started),
            WifiEvent::StationDisconnected => Some(WifiState::Disconnected),
            WifiEvent::Other => None,
        },
{
    match msg {
        WifiEvent::StationStart => Some(WifiState::Started),
        WifiEvent::StationDisconnected => Some(WifiState::Disconnected),
        WifiEvent::Other => None,
    }
}

/// The state that an event of the network stack puts the link in; nothing
/// for an event that does not change it.
pub fn on_ip_event(msg: IpEvent) -> (state: Option<WifiState>)
    ensures
        state == match msg {
            IpEvent::StationGotIp => Some(WifiState::Online),
            IpEvent::Other => None,
        },
{
    match msg {
        IpEvent::StationGotIp => Some(WifiState::Online),
        IpEvent::Other => None,
    }
}

/// A field of `size` bytes filled from `bytes`: as many of them as fit,
/// then zeros.
pub open spec fn spec_fixed(bytes: Seq<u8>, size: nat) -> Seq<u8> {
    Seq::new(
        size,
        |i: int|
            if i < bytes.len() {
                bytes[i]
            } else {
                0u8
            },
    )
}

/// The fixed-size field of a driver configuration for a string: its bytes,
/// cut to the size of the field or padded with zeros.
pub fn fixed<const N: usize>(s: &str) -> (buff: [u8; N])
    ensures
        buff@ == spec_fixed(s.spec_bytes(), N as nat),
{
    let mut buff = [0u8;N];
    let bytes = s.as_bytes();
    let len = if N < bytes.len() {
        N
    } else {
        bytes.len()
    };
    let mut i: usize = 0;
    while i < len
        invariant
            i <= len <= N,
            len <= bytes@.len(),
            buff@.len() == N,
            forall|k: int| 0 <= k < i ==> buff@[k] == bytes@[k],
            forall|k: int| i <= k < N ==> buff@[k] == 0,
        decreases len - i,
    {
        buff[i] = bytes[i];
        i += 1;
    }
    assert(buff@ =~= spec_fixed(s.spec_bytes(), N as nat));
    buff
}

} // verus!
