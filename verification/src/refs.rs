//! Borrowing the contained value without moving it.
//!
//! Each function hands out a reference to the value of the side that is
//! present. For the mutable forms the contract ties the `Either` after the
//! borrow to what the caller leaves behind the returned reference.

use crate::Either;
use crate::Either::{Left, Right};
use core::ops::{Deref, DerefMut};
use vstd::prelude::*;

verus! {

impl<L, R> Either<L, R> {
    /// Converts from `&Either<L, R>` to `Either<&L, &R>`.
    #[inline]
    #[must_use]
    pub fn as_ref(&self) -> (res: Either<&L, &R>)
        ensures
            match *self {
                Left(x) => res == Either::<&L, &R>::Left(&x),
                Right(x) => res == Either::<&L, &R>::Right(&x),
            },
    {
        match self {
            Left(x) => Left(x),
            Right(x) => Right(x),
        }
    }

    /// Converts from `&mut Either<L, R>` to `Either<&mut L, &mut R>`.
    ///
    /// The side cannot change through the result: whatever is written
    /// through the returned reference becomes the new contained value.
    #[inline]
    #[must_use]
    pub fn as_mut(&mut self) -> (res: Either<&mut L, &mut R>)
        ensures
            match *old(self) {
                Left(x) => res matches Left(y) && *y == x && *final(self) == Either::<L, R>::Left(
                    *final(y),
                ),
                Right(x) => res matches Right(y) && *y == x && *final(self) == Either::<
                    L,
                    R,
                >::Right(*final(y)),
            },
    {
        match self {
            Left(x) => Left(x),
            Right(x) => Right(x),
        }
    }

    /// Converts from `&Either<L, R>` to `Either<&L::Target, &R::Target>`,
    /// dereferencing the contained value once.
    #[inline]
    #[must_use]
    pub fn as_deref(&self) -> (res: Either<&L::Target, &R::Target>) where L: Deref, R: Deref
        ensures
            match *self {
                Left(x) => res matches Left(y) && call_ensures(<L as Deref>::deref, (&x,), y),
                Right(x) => res matches Right(y) && call_ensures(<R as Deref>::deref, (&x,), y),
            },
    {
        match self {
            Left(x) => Left(x.deref()),
            Right(x) => Right(x.deref()),
        }
    }

    /// Converts from `&mut Either<L, R>` to
    /// `Either<&mut L::Target, &mut R::Target>`, dereferencing the contained
    /// value once.
    ///
    /// The reference handed out is on the same side. It stands for the one
    /// that the contained value's own `deref_mut` returns for a mutable
    /// borrow of that value: both point to the same value, and what the
    /// caller leaves behind the one is left behind the other. The `Either`
    /// keeps its side, and holds afterwards what the borrow of the contained
    /// value leaves behind.
    #[inline]
    #[must_use]
    pub fn as_deref_mut(&mut self) -> (res: Either<&mut L::Target, &mut R::Target>) where
        L: DerefMut,
        R: DerefMut,

        ensures
            match *old(self) {
                Left(x) => res matches Left(t) && *final(self) matches Left(y) && (exists|
                    m: &mut L,
                    r: &mut L::Target,
                |
                    *m == x && *final(m) == y && #[trigger] call_ensures(
                        <L as DerefMut>::deref_mut,
                        (m,),
                        r,
                    ) && &*r == &*t && &*final(r) == &*final(t)),
                Right(x) => res matches Right(t) && *final(self) matches Right(y) && (exists|
                    m: &mut R,
                    r: &mut R::Target,
                |
                    *m == x && *final(m) == y && #[trigger] call_ensures(
                        <R as DerefMut>::deref_mut,
                        (m,),
                        r,
                    ) && &*r == &*t && &*final(r) == &*final(t)),
            },
    {
        match self {
            Left(x) => Left(x.deref_mut()),
            Right(x) => Right(x.deref_mut()),
        }
    }

    /// Returns a reference to the value of a `Left`, and `None` for a `Right`.
    #[inline]
    #[must_use]
    pub fn as_left(&self) -> (res: Option<&L>)
        ensures
            res == (match *self {
                Left(x) => Some(&x),
                Right(_) => None,
            }),
    {
        match self {
            Left(x) => Some(x),
            Right(_) => None,
        }
    }

    /// Returns a reference to the value of a `Right`, and `None` for a `Left`.
    #[inline]
    #[must_use]
    pub fn as_right(&self) -> (res: Option<&R>)
        ensures
            res == (match *self {
                Left(_) => None,
                Right(x) => Some(&x),
            }),
    {
        match self {
            Left(_) => None,
            Right(x) => Some(x),
        }
    }

    /// Returns a mutable reference to the value of a `Left`, and `None` for a
    /// `Right`, which then stays as it is.
    #[inline]
    #[must_use]
    pub fn as_left_mut(&mut self) -> (res: Option<&mut L>)
        ensures
            match *old(self) {
                Left(x) => res matches Some(y) && *y == x && *final(self) == Either::<L, R>::Left(
                    *final(y),
                ),
                Right(_) => res is None && *final(self) == *old(self),
            },
    {
        match self {
            Left(x) => Some(x),
            Right(_) => None,
        }
    }

    /// Returns a mutable reference to the value of a `Right`, and `None` for a
    /// `Left`, which then stays as it is.
    #[inline]
    #[must_use]
    pub fn as_right_mut(&mut self) -> (res: Option<&mut R>)
        ensures
            match *old(self) {
                Left(_) => res is None && *final(self) == *old(self),
                Right(x) => res matches Some(y) && *y == x && *final(self) == Either::<
                    L,
                    R,
                >::Right(*final(y)),
            },
    {
        match self {
            Left(_) => None,
            Right(x) => Some(x),
        }
    }

    /// Returns a reference to the value of a `Left`.
    ///
    /// The caller has to know that the value is a `Left`; [`Either::as_left`]
    /// is the form that checks.
    #[inline]
    #[must_use]
    pub fn as_left_unchecked(&self) -> (res: &L)
        requires
            *self is Left,
        ensures
            *self == Either::<L, R>::Left(*res),
    {
        match self {
            Left(x) => x,
            Right(_) => unreached(),
        }
    }

    /// Returns a reference to the value of a `Right`.
    ///
    /// The caller has to know that the value is a `Right`;
    /// [`Either::as_right`] is the form that checks.
    #[inline]
    #[must_use]
    pub fn as_right_unchecked(&self) -> (res: &R)
        requires
            *self is Right,
        ensures
            *self == Either::<L, R>::Right(*res),
    {
        match self {
            Left(_) => unreached(),
            Right(x) => x,
        }
    }

    /// Returns a mutable reference to the value of a `Left`.
    ///
    /// The caller has to know that the value is a `Left`;
    /// [`Either::as_left_mut`] is the form that checks.
    #[inline]
    #[must_use]
    pub fn as_left_unchecked_mut(&mut self) -> (res: &mut L)
        requires
            *old(self) is Left,
        ensures
            *old(self) == Either::<L, R>::Left(*res),
            *final(self) == Either::<L, R>::Left(*final(res)),
    {
        match self {
            Left(x) => x,
            Right(_) => unreached(),
        }
    }

    /// Returns a mutable reference to the value of a `Right`.
    ///
    /// The caller has to know that the value is a `Right`;
    /// [`Either::as_right_mut`] is the form that checks.
    #[inline]
    #[must_use]
    pub fn as_right_unchecked_mut(&mut self) -> (res: &mut R)
        requires
            *old(self) is Right,
        ensures
            *old(self) == Either::<L, R>::Right(*res),
            *final(self) == Either::<L, R>::Right(*final(res)),
    {
        match self {
            Left(_) => unreached(),
            Right(x) => x,
        }
    }
}

impl<L, R> Either<&L, &R> {
    /// Converts from `Either<&L, &R>` to `Either<L, R>` by cloning the
    /// referenced value.
    #[inline]
    #[must_use]
    pub fn cloned(self) -> (res: Either<L, R>) where L: Clone, R: Clone
        ensures
            match self {
                Left(x) => res matches Left(y) && cloned(*x, y),
                Right(x) => res matches Right(y) && cloned(*x, y),
            },
    {
        match self {
            Left(x) => Left(x.clone()),
            Right(x) => Right(x.clone()),
        }
    }

    /// Converts from `Either<&L, &R>` to `Either<L, R>` by copying the
    /// referenced value.
    #[inline]
    #[must_use]
    pub fn copied(self) -> (res: Either<L, R>) where L: Copy, R: Copy
        ensures
            res == (match self {
                Left(x) => Either::<L, R>::Left(*x),
                Right(x) => Either::<L, R>::Right(*x),
            }),
    {
        match self {
            Left(x) => Left(*x),
            Right(x) => Right(*x),
        }
    }
}

impl<L, R> Either<&mut L, &mut R> {
    /// Converts from `Either<&mut L, &mut R>` to `Either<L, R>` by cloning the
    /// referenced value, which is left as it was.
    #[inline]
    #[must_use]
    pub fn cloned(self) -> (res: Either<L, R>) where L: Clone, R: Clone
        ensures
            match self {
                Left(x) => res matches Left(y) && cloned(*x, y) && *final(x) == *x,
                Right(x) => res matches Right(y) && cloned(*x, y) && *final(x) == *x,
            },
    {
        match self {
            Left(x) => Left(x.clone()),
            Right(x) => Right(x.clone()),
        }
    }

    /// Converts from `Either<&mut L, &mut R>` to `Either<L, R>` by copying
    /// the referenced value, which is left as it was.
    #[inline]
    #[must_use]
    pub fn copied(self) -> (res: Either<L, R>) where L: Copy, R: Copy
        ensures
            match self {
                Left(x) => res == Either::<L, R>::Left(*x) && *final(x) == *x,
                Right(x) => res == Either::<L, R>::Right(*x) && *final(x) == *x,
            },
    {
        match self {
            Left(x) => Left(*x),
            Right(x) => Right(*x),
        }
    }
}

} // verus!
