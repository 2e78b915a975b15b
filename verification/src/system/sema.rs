use vstd::prelude::*;

verus! {

/// The kernel had no mutex to give.
#[derive(Clone, Copy, Debug, PartialEq, Eq, Structural)]
pub struct AllocMutexError;

/// What creating a kernel mutex comes to, given the handle that the kernel
/// returned: a null handle is a failure.
pub fn check_handle(handle: usize) -> (res: Result<usize, AllocMutexError>)
    ensures
        res == if handle == 0 {
            Err::<usize, AllocMutexError>(AllocMutexError)
        } else {
            Ok::<usize, AllocMutexError>(handle)
        },
{
    if handle == 0 {
        Err(AllocMutexError)
    } else {
        Ok(handle)
    }
}

} // verus!
