//! The side of an error that neither side made.
//!
//! An `Either<L, R>` of two error types stands for an error of the left
//! source or of the right one, and its side says which. Some errors have no
//! source to say it for: a message of the caller's, a field found missing
//! while reading. Such an error is made as an `L` and goes to the left.
//!
//! The choice of side is arbitrary, and it is fixed: whoever looks at the
//! side of an error may rely on it.

use crate::Either;
use crate::Either::Left;
use vstd::prelude::*;

verus! {

/// Puts an error that was made here, and reported by neither side, on the
/// left.
#[inline]
#[must_use]
pub fn made_here<L, R>(error: L) -> (res: Either<L, R>)
    ensures
        res == Either::<L, R>::Left(error),
{
    Left(error)
}

} // verus!
