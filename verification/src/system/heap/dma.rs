use vstd::prelude::*;

verus! {

/// A buffer for DMA transfers.
pub struct DmaBuffer {
    bytes: Vec<u8>,
}

/// A buffer for DMA transfers whose bytes have yet to be written.
pub struct DmaBufferUninit {
    len: usize,
}

/// There was no DMA-capable memory for a request of this many bytes.
#[derive(Clone, Copy, Debug, PartialEq, Eq, Structural)]
pub struct DmaAllocError {
    pub bytes: usize,
}

/// What an allocation of `size` bytes of DMA-capable memory comes to, given
/// the address that the allocator returned: a null address is a failure.
pub fn allocate(address: usize, size: usize) -> (res: Result<DmaBufferUninit, DmaAllocError>)
    ensures
        res is Ok <==> address != 0,
        res matches Ok(buffer) ==> buffer.spec_len() == size,
        res matches Err(err) ==> err.bytes == size,
{
    if address == 0 {
        Err(DmaAllocError { bytes: size })
    } else {
        Ok(DmaBufferUninit { len: size })
    }
}

impl DmaBuffer {
    pub closed spec fn view(&self) -> Seq<u8> {
        self.bytes@
    }

    pub fn len(&self) -> (len: usize)
        ensures
            len == self@.len(),
    {
        self.bytes.len()
    }

    pub fn bytes(&self) -> (bytes: &[u8])
        ensures
            bytes@ == self@,
    {
        self.bytes.as_slice()
    }

    /// Writes one byte of the buffer.
    pub fn set(&mut self, index: usize, byte: u8)
        requires
            index < old(self)@.len(),
        ensures
            final(self)@ == old(self)@.update(index as int, byte),
    {
        self.bytes[index] = byte;
    }
}

impl DmaBufferUninit {
    pub closed spec fn spec_len(&self) -> usize {
        self.len
    }

    #[verifier::when_used_as_spec(spec_len)]
    pub fn len(&self) -> (len: usize)
        ensures
            len == self.spec_len(),
    {
        self.len
    }

    /// The buffer with every byte zero.
    pub fn zeroed(self) -> (buffer: DmaBuffer)
        ensures
            buffer@ == Seq::new(self.spec_len() as nat, |i: int| 0u8),
    {
        let mut bytes: Vec<u8> = Vec::new();
        let mut i: usize = 0;
        while i < self.len
            invariant
                i <= self.len,
                bytes@ == Seq::new(i as nat, |k: int| 0u8),
            decreases self.len - i,
        {
            bytes.push(0);
            assert(bytes@ =~= Seq::new((i + 1) as nat, |k: int| 0u8));
            i += 1;
        }
        DmaBuffer { bytes }
    }
}

} // verus!
