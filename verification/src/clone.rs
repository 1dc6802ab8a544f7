//! `Clone` for [`Either`]: the clone is on the side of its source and holds
//! a clone of its value.

use crate::Either;
use crate::Either::{Left, Right};
use vstd::prelude::*;

verus! {

impl<L: Clone, R: Clone> Clone for Either<L, R> {
    /// Clones the contained value and puts it back on the same side.
    #[inline]
    fn clone(&self) -> (res: Self)
        ensures
            match *self {
                Left(x) => res matches Left(y) && cloned(x, y),
                Right(x) => res matches Right(y) && cloned(x, y),
            },
    {
        match self {
            Left(x) => Left(x.clone()),
            Right(x) => Right(x.clone()),
        }
    }

    /// Makes `self` a clone of `source`, dropping what it contained.
    #[inline]
    fn clone_from(&mut self, source: &Self)
        ensures
            match *source {
                Left(x) => *final(self) matches Left(y) && cloned(x, y),
                Right(x) => *final(self) matches Right(y) && cloned(x, y),
            },
    {
        *self = source.clone();
    }
}

} // verus!
