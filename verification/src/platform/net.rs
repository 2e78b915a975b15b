use vstd::prelude::*;

use crate::system::heap::MallocError;

verus! {

/// An error code of the network stack. Zero is no error.
#[derive(Clone, Copy, Debug, PartialEq, Eq, Structural)]
pub struct LwipError(i8);

#[derive(Clone, Copy, Debug, PartialEq, Eq, Structural)]
pub enum NetError {
    NoNetif,
    NewSocket,
    Alloc(MallocError),
    Lwip(LwipError),
}

impl NetError {
    pub fn from_malloc_error(err: MallocError) -> (res: Self)
        ensures
            res == NetError::Alloc(err),
    {
        NetError::Alloc(err)
    }

    pub fn from_lwip_error(err: LwipError) -> (res: Self)
        ensures
            res == NetError::Lwip(err),
    {
        NetError::Lwip(err)
    }
}

impl LwipError {
    pub closed spec fn spec_code(&self) -> i8 {
        self.0
    }

    #[verifier::when_used_as_spec(spec_code)]
    pub fn code(&self) -> (code: i8)
        ensures
            code == self.spec_code(),
    {
        self.0
    }

    /// Turns a return code of the network stack into a result: zero is
    /// success, anything else the error of that code.
    pub fn check(rc: i8) -> (res: Result<(), Self>)
        ensures
            res is Ok <==> rc == 0,
            res matches Err(err) ==> err.spec_code() == rc,
    {
        match rc {
            0 => Ok(()),
            _ => Err(LwipError(rc)),
        }
    }
}

/// The address word of the network stack for four octets: the first octet
/// in the lowest byte.
pub open spec fn spec_ip4_addr(octets: Seq<u8>) -> u32 {
    (octets[0] as int + octets[1] as int * 0x100 + octets[2] as int * 0x1_0000 + octets[3] as int
        * 0x100_0000) as u32
}

/// The address word of the network stack for an address given as its four
/// octets.
pub fn rust_to_esp_ipv4_addr(octets: [u8; 4]) -> (addr: u32)
    ensures
        addr == spec_ip4_addr(octets@),
{
    let o0 = octets[0] as u32;
    let o1 = octets[1] as u32;
    let o2 = octets[2] as u32;
    let o3 = octets[3] as u32;
    assert((o3 << 24) | (o2 << 16) | (o1 << 8) | (o0 << 0) == o0 + o1 * 0x100 + o2 * 0x1_0000 + o3
        * 0x100_0000) by (bit_vector)
        requires
            o0 < 256,
            o1 < 256,
            o2 < 256,
            o3 < 256,
    ;
    (o3 << 24) | (o2 << 16) | (o1 << 8) | (o0 << 0)
}

/// The four octets of an address word of the network stack.
pub fn esp_to_rust_ipv4_addr(addr: u32) -> (octets: [u8; 4])
    ensures
        spec_ip4_addr(octets@) == addr,
        octets@[0] == addr % 0x100,
        octets@[1] == (addr / 0x100) % 0x100,
        octets@[2] == (addr / 0x1_0000) % 0x100,
        octets@[3] == addr / 0x100_0000,
{
    assert((addr >> 0) & 0xff == addr % 0x100 && (addr >> 8) & 0xff == (addr / 0x100) % 0x100 && (
    addr >> 16) & 0xff == (addr / 0x1_0000) % 0x100 && (addr >> 24) & 0xff == addr / 0x100_0000)
        by (bit_vector);
    let octet0 = ((addr >> 0) & 0xff) as u8;
    let octet1 = ((addr >> 8) & 0xff) as u8;
    let octet2 = ((addr >> 16) & 0xff) as u8;
    let octet3 = ((addr >> 24) & 0xff) as u8;
    [octet0, octet1, octet2, octet3]
}

/// Octets and address words stand for each other one to one.
pub proof fn lemma_ip4_addr_round_trip(octets: Seq<u8>)
    requires
        octets.len() == 4,
    ensures
        spec_ip4_addr(octets) % 0x100 == octets[0],
        (spec_ip4_addr(octets) / 0x100) % 0x100 == octets[1],
        (spec_ip4_addr(octets) / 0x1_0000) % 0x100 == octets[2],
        spec_ip4_addr(octets) / 0x100_0000 == octets[3],
{
}

} // verus!
