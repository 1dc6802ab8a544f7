//! Transposing an [`Either`] of `Option`s into an `Option` of an `Either`.

use crate::convert::spec_transpose_option;
use crate::Either;
use crate::Either::{Left, Right};
use vstd::prelude::*;

verus! {

impl<L, R> Either<Option<L>, Option<R>> {
    /// Transposes an `Either` of `Option`s into an `Option` of an `Either`:
    /// `Left(Some(x))` gives `Some(Left(x))`, `Right(Some(x))` gives
    /// `Some(Right(x))`, and a `None` on either side gives `None`.
    #[inline]
    #[must_use]
    pub fn transpose(self) -> (res: Option<Either<L, R>>)
        ensures
            res == spec_transpose_option(self),
    {
        match self {
            Left(Some(x)) => Some(Left(x)),
            Right(Some(x)) => Some(Right(x)),
            Left(None) | Right(None) => None,
        }
    }
}

} // verus!
