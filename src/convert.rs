use crate::chain::chain_of;
use crate::error::{TACommandError, TAResult};
use vstd::prelude::*;

verus! {

/// Relies on std's reflexive `From`: converting a value into its own type
/// returns it unchanged.
pub assume_specification<X>[ <X as std::convert::From<X>>::from ](x: X) -> (r: X)
    ensures
        r == x,
;

/// Turns a value into a command's result.
pub trait IntoTAResult<T>: Sized {
    /// Whether `r` is what this value turns into.
    spec fn converts_to(self, r: TAResult<T>) -> bool;

    fn into_ta_result(self) -> (r: TAResult<T>)
        ensures
            self.converts_to(r),
    ;
}

/// A success passes through unchanged; a failure is converted into an
/// `anyhow::Error` by `Into` and wrapped as a boundary error.
impl<T, E> IntoTAResult<T> for Result<T, E> where E: Into<anyhow::Error> {
    open spec fn converts_to(self, r: TAResult<T>) -> bool {
        match self {
            Ok(v) => r == Ok::<T, TACommandError>(v),
            Err(e) => r matches Err(b) && call_ensures(
                <E as Into<anyhow::Error>>::into,
                (e,),
                b.0,
            ),
        }
    }

    fn into_ta_result(self) -> (r: TAResult<T>) {
        match self {
            Ok(v) => Ok(v),
            Err(e) => Err(TACommandError(e.into())),
        }
    }
}

/// An error held outright becomes a failed result that wraps it.
impl<T> IntoTAResult<T> for anyhow::Error {
    open spec fn converts_to(self, r: TAResult<T>) -> bool {
        r == Err::<T, TACommandError>(TACommandError(self))
    }

    fn into_ta_result(self) -> (r: TAResult<T>) {
        Err(TACommandError(self))
    }
}

/// Turns an error into a failed command result with an empty success type.
pub trait IntoEmptyTAResult<T>: Sized {
    /// Whether `r` is what this value turns into.
    spec fn converts_to_empty(self, r: TAResult<T>) -> bool;

    fn into_ta_empty_result(self) -> (r: TAResult<T>)
        ensures
            self.converts_to_empty(r),
    ;
}

impl IntoEmptyTAResult<()> for anyhow::Error {
    open spec fn converts_to_empty(self, r: TAResult<()>) -> bool {
        r == Err::<(), TACommandError>(TACommandError(self))
    }

    fn into_ta_empty_result(self) -> (r: TAResult<()>) {
        Err(TACommandError(self))
    }
}

/// A successful result converts to the same success.
pub proof fn lemma_success_unchanged<T, E: Into<anyhow::Error>>(v: T, r: TAResult<T>)
    requires
        Ok::<T, E>(v).converts_to(r),
    ensures
        r == Ok::<T, TACommandError>(v),
{
}

/// A failed result whose error is an `anyhow::Error` converts to a boundary
/// error over that same error, so with the same chain of messages.
pub proof fn lemma_failure_keeps_chain<T>(e: anyhow::Error, r: TAResult<T>)
    requires
        Err::<T, anyhow::Error>(e).converts_to(r),
    ensures
        r matches Err(b) && b.0 == e && b.chain() == chain_of(e),
{
}

} // verus!
