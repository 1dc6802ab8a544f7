//! Transposing an [`Either`] of `Result`s into a `Result` of an `Either`.

use crate::convert::spec_tag_ok;
use crate::Either;
use crate::Either::{Left, Right};
use vstd::prelude::*;

verus! {

impl<L, R, E> Either<Result<L, E>, Result<R, E>> {
    /// Transposes an `Either` of `Result`s with one error type into a
    /// `Result` of an `Either`: `Left(Ok(x))` gives `Ok(Left(x))`,
    /// `Right(Ok(x))` gives `Ok(Right(x))`, and an `Err(e)` on either side
    /// gives `Err(e)`.
    #[inline]
    pub fn transpose(self) -> (res: Result<Either<L, R>, E>)
        ensures
            res == spec_tag_ok(self),
    {
        match self {
            Left(Ok(x)) => Ok(Left(x)),
            Right(Ok(x)) => Ok(Right(x)),
            Left(Err(x)) | Right(Err(x)) => Err(x),
        }
    }
}

} // verus!
