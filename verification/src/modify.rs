//! Replacing the contained value.
//!
//! The `insert` family works through `&mut self` and hands back a mutable
//! reference to the value that is then contained; its contracts tie the
//! `Either` after the borrow to what the caller leaves behind that
//! reference. The `*_with` and `*_and_modify` family has to move the old
//! value into a function of the caller, so it takes the `Either` by value and
//! returns the new one: `x = x.left_or_insert_with(f)`.

use crate::Either;
use crate::Either::{Left, Right};
use vstd::prelude::*;

verus! {

impl<L, R> Either<L, R> {
    /// Makes the value a `Left(value)`, dropping what was contained, and
    /// returns a mutable reference to the new contained value.
    #[inline]
    pub fn insert_left(&mut self, value: L) -> (res: &mut L)
        ensures
            *res == value,
            *final(self) == Either::<L, R>::Left(*final(res)),
    {
        *self = Left(value);
        match self {
            Left(x) => x,
            Right(_) => unreached(),
        }
    }

    /// Makes the value a `Right(value)`, dropping what was contained, and
    /// returns a mutable reference to the new contained value.
    #[inline]
    pub fn insert_right(&mut self, value: R) -> (res: &mut R)
        ensures
            *res == value,
            *final(self) == Either::<L, R>::Right(*final(res)),
    {
        *self = Right(value);
        match self {
            Left(_) => unreached(),
            Right(x) => x,
        }
    }

    /// Keeps a `Left` as it is and turns a `Right` into `Left(value)`;
    /// returns a mutable reference to the value that is then on the left.
    #[inline]
    pub fn left_or_insert(&mut self, value: L) -> (res: &mut L)
        ensures
            *res == (match *old(self) {
                Left(x) => x,
                Right(_) => value,
            }),
            *final(self) == Either::<L, R>::Left(*final(res)),
    {
        match self {
            Left(x) => x,
            Right(_) => self.insert_left(value),
        }
    }

    /// Keeps a `Right` as it is and turns a `Left` into `Right(value)`;
    /// returns a mutable reference to the value that is then on the right.
    #[inline]
    pub fn right_or_insert(&mut self, value: R) -> (res: &mut R)
        ensures
            *res == (match *old(self) {
                Left(_) => value,
                Right(x) => x,
            }),
            *final(self) == Either::<L, R>::Right(*final(res)),
    {
        match self {
            Left(_) => self.insert_right(value),
            Right(x) => x,
        }
    }

    /// Keeps a `Left` as it is and turns a `Right(x)` into `Left(f(x))`.
    ///
    /// The result is always a `Left`. `f` is called only on a `Right`, and
    /// receives the old value, which is thereby consumed exactly once.
    #[inline]
    #[must_use]
    pub fn left_or_insert_with<F>(self, f: F) -> (res: Self) where F: FnOnce(R) -> L
        requires
            self matches Right(x) ==> f.requires((x,)),
        ensures
            match self {
                Left(x) => res == Either::<L, R>::Left(x),
                Right(x) => res matches Left(y) && f.ensures((x,), y),
            },
    {
        match self {
            Left(x) => Left(x),
            Right(x) => Left(f(x)),
        }
    }

    /// Keeps a `Right` as it is and turns a `Left(x)` into `Right(f(x))`.
    ///
    /// The result is always a `Right`. `f` is called only on a `Left`, and
    /// receives the old value, which is thereby consumed exactly once.
    #[inline]
    #[must_use]
    pub fn right_or_insert_with<F>(self, f: F) -> (res: Self) where F: FnOnce(L) -> R
        requires
            self matches Left(x) ==> f.requires((x,)),
        ensures
            match self {
                Left(x) => res matches Right(y) && f.ensures((x,), y),
                Right(x) => res == Either::<L, R>::Right(x),
            },
    {
        match self {
            Left(x) => Right(f(x)),
            Right(x) => Right(x),
        }
    }

    /// Replaces a `Left(x)` by `f(x)`, which may be on either side; a
    /// `Right` stays as it is and `f` is not called.
    #[inline]
    #[must_use]
    pub fn left_and_modify<F>(self, f: F) -> (res: Self) where F: FnOnce(L) -> Self
        requires
            self matches Left(x) ==> f.requires((x,)),
        ensures
            match self {
                Left(x) => f.ensures((x,), res),
                Right(_) => res == self,
            },
    {
        match self {
            Left(x) => f(x),
            Right(x) => Right(x),
        }
    }

    /// Replaces a `Right(x)` by `f(x)`, which may be on either side; a
    /// `Left` stays as it is and `f` is not called.
    #[inline]
    #[must_use]
    pub fn right_and_modify<F>(self, f: F) -> (res: Self) where F: FnOnce(R) -> Self
        requires
            self matches Right(x) ==> f.requires((x,)),
        ensures
            match self {
                Left(_) => res == self,
                Right(x) => f.ensures((x,), res),
            },
    {
        match self {
            Left(x) => Left(x),
            Right(x) => f(x),
        }
    }
}

} // verus!
