use vstd::prelude::*;

pub mod array;
pub mod dma;

verus! {

/// The allocator had no memory for a request of this many bytes.
#[derive(Clone, Copy, Debug, PartialEq, Eq, Structural)]
pub struct MallocError {
    pub bytes: usize,
}

/// What an allocation of `bytes` bytes comes to, given the address that
/// the allocator returned: a null address is a failure.
pub fn check_alloc(address: usize, bytes: usize) -> (res: Result<usize, MallocError>)
    ensures
        res == if address == 0 {
            Err::<usize, MallocError>(MallocError { bytes })
        } else {
            Ok::<usize, MallocError>(address)
        },
{
    if address == 0 {
        Err(MallocError { bytes })
    } else {
        Ok(address)
    }
}

} // verus!
