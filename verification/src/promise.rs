//! A promise: either a value already there, or a pending operation that
//! produces a new promise when retried.
use vstd::prelude::*;

verus! {

/// A pending operation of a promise with values of type `T`: retrying it
/// gives the next promise.
pub trait Retry<T>: Sized {
    fn retry(&self) -> Promise<T, Self>;
}

/// A value, or the operation to retry to get one.
pub enum Promise<T, R> {
    Fulfilled(T),
    Pending(R),
}

impl<T, R: Retry<T>> Promise<T, R> {
    /// Chains `f` after the promise: a fulfilled promise passes its value to
    /// `f`, whose promise is the result; a pending one is retried once
    /// instead, the retry's promise is the result, and `f` is dropped.
    pub fn then<F: FnOnce(T) -> Promise<T, R>>(self, f: F) -> (r: Promise<T, R>)
        requires
            match self {
                Promise::Fulfilled(v) => f.requires((v,)),
                Promise::Pending(_) => true,
            },
        ensures
            match self {
                Promise::Fulfilled(v) => f.ensures((v,), r),
                Promise::Pending(op) => call_ensures(R::retry, (&op,), r),
            },
    {
        match self {
            Promise::Fulfilled(s) => f(s),
            Promise::Pending(op) => op.retry(),
        }
    }
}

} // verus!
