use vstd::prelude::*;

verus! {

/// What an operation done in interrupt context hands back: its result, and
/// whether the interrupt handler must ask for a context switch on return.
#[must_use]
pub struct IsrResult<T, E> {
    pub result: Result<T, E>,
    pub need_wake: bool,
}

impl<E> Default for IsrResult<(), E> {
    fn default() -> (res: Self)
        ensures
            res.result == Ok::<(), E>(()),
            !res.need_wake,
    {
        IsrResult::ok((), false)
    }
}

impl<T, E> IsrResult<T, E> {
    pub fn ok(value: T, need_wake: bool) -> (res: Self)
        ensures
            res.result == Ok::<T, E>(value),
            res.need_wake == need_wake,
    {
        IsrResult { result: Ok(value), need_wake }
    }

    pub fn err(err: E, need_wake: bool) -> (res: Self)
        ensures
            res.result == Err::<T, E>(err),
            res.need_wake == need_wake,
    {
        IsrResult { result: Err(err), need_wake }
    }

    /// Applies `func` to the value of a success; an error and the wake flag
    /// pass through.
    pub fn map<U, F: FnOnce(T) -> U>(self, func: F) -> (res: IsrResult<U, E>)
        requires
            self.result is Ok ==> func.requires((self.result->Ok_0,)),
        ensures
            res.need_wake == self.need_wake,
            self.result is Ok ==> res.result is Ok && func.ensures(
                (self.result->Ok_0,),
                res.result->Ok_0,
            ),
            self.result is Err ==> res.result is Err && res.result->Err_0 == self.result->Err_0,
    {
        let need_wake = self.need_wake;
        let result = match self.result {
            Ok(value) => Ok(func(value)),
            Err(err) => Err(err),
        };
        IsrResult { result, need_wake }
    }

    /// Follows this operation by `other`: the result is that of `other`, and
    /// a wake is needed if either operation needs one.
    pub fn chain<U, F>(self, other: IsrResult<U, F>) -> (res: IsrResult<U, F>)
        ensures
            res.result == other.result,
            res.need_wake == (self.need_wake || other.need_wake),
    {
        IsrResult { result: other.result, need_wake: self.need_wake || other.need_wake }
    }
}

} // verus!
