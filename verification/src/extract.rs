//! Taking the contained value out of an [`Either`].
//!
//! The functions here consume the `Either`. Those that can meet the other
//! side either report it (`Option`, `Result`), replace it (a default, a
//! conversion), or leave it to the caller to rule it out (`requires`).

use crate::Either;
use crate::Either::{Left, Right};
use core::fmt::Debug;
use vstd::prelude::*;

verus! {

impl<L, R> Either<L, R> {
    /// The value of a `Left`, or `None` for a `Right`, as a specification.
    pub open spec fn spec_left(self) -> Option<L> {
        match self {
            Left(x) => Some(x),
            Right(_) => None,
        }
    }

    /// The value of a `Right`, or `None` for a `Left`, as a specification.
    pub open spec fn spec_right(self) -> Option<R> {
        match self {
            Left(_) => None,
            Right(x) => Some(x),
        }
    }

    /// A `Left` as `Ok` and a `Right` as `Err`, as a specification.
    pub open spec fn spec_left_or_err(self) -> Result<L, R> {
        match self {
            Left(x) => Ok(x),
            Right(x) => Err(x),
        }
    }

    /// A `Right` as `Ok` and a `Left` as `Err`, as a specification.
    pub open spec fn spec_right_or_err(self) -> Result<R, L> {
        match self {
            Left(x) => Err(x),
            Right(x) => Ok(x),
        }
    }

    /// Returns the value of a `Left` in `Some`; a `Right` is discarded and
    /// gives `None`.
    #[inline]
    #[must_use]
    #[verifier::when_used_as_spec(spec_left)]
    pub fn left(self) -> (res: Option<L>)
        ensures
            res == self.spec_left(),
    {
        match self {
            Left(x) => Some(x),
            Right(_) => None,
        }
    }

    /// Returns the value of a `Right` in `Some`; a `Left` is discarded and
    /// gives `None`.
    #[inline]
    #[must_use]
    #[verifier::when_used_as_spec(spec_right)]
    pub fn right(self) -> (res: Option<R>)
        ensures
            res == self.spec_right(),
    {
        match self {
            Left(_) => None,
            Right(x) => Some(x),
        }
    }

    /// Returns the value of a `Left` in `Ok`, and the value of a `Right` in
    /// `Err`.
    #[inline]
    #[verifier::when_used_as_spec(spec_left_or_err)]
    pub fn left_or_err(self) -> (res: Result<L, R>)
        ensures
            res == self.spec_left_or_err(),
    {
        match self {
            Left(x) => Ok(x),
            Right(x) => Err(x),
        }
    }

    /// Returns the value of a `Right` in `Ok`, and the value of a `Left` in
    /// `Err`.
    #[inline]
    #[verifier::when_used_as_spec(spec_right_or_err)]
    pub fn right_or_err(self) -> (res: Result<R, L>)
        ensures
            res == self.spec_right_or_err(),
    {
        match self {
            Left(x) => Err(x),
            Right(x) => Ok(x),
        }
    }

    /// Returns the value of a `Left`; the value of a `Right` is converted
    /// into an `L`.
    #[inline]
    #[must_use]
    pub fn into_left(self) -> (res: L) where R: Into<L>
        ensures
            match self {
                Left(x) => res == x,
                Right(x) => call_ensures(<R as Into<L>>::into, (x,), res),
            },
    {
        match self {
            Left(x) => x,
            Right(x) => x.into(),
        }
    }

    /// Returns the value of a `Right`; the value of a `Left` is converted
    /// into an `R`.
    #[inline]
    #[must_use]
    pub fn into_right(self) -> (res: R) where L: Into<R>
        ensures
            match self {
                Left(x) => call_ensures(<L as Into<R>>::into, (x,), res),
                Right(x) => res == x,
            },
    {
        match self {
            Left(x) => x.into(),
            Right(x) => x,
        }
    }

    /// Returns the value of a `Left` in `Ok`; for a `Right` the outcome is
    /// that of converting its value into an `L`, which may fail.
    #[inline]
    pub fn try_into_left(self) -> (res: Result<L, R::Error>) where R: TryInto<L>
        ensures
            match self {
                Left(x) => res == Ok::<L, R::Error>(x),
                Right(x) => call_ensures(<R as TryInto<L>>::try_into, (x,), res),
            },
    {
        match self {
            Left(x) => Ok(x),
            Right(x) => x.try_into(),
        }
    }

    /// Returns the value of a `Right` in `Ok`; for a `Left` the outcome is
    /// that of converting its value into an `R`, which may fail.
    #[inline]
    pub fn try_into_right(self) -> (res: Result<R, L::Error>) where L: TryInto<R>
        ensures
            match self {
                Left(x) => call_ensures(<L as TryInto<R>>::try_into, (x,), res),
                Right(x) => res == Ok::<R, L::Error>(x),
            },
    {
        match self {
            Left(x) => x.try_into(),
            Right(x) => Ok(x),
        }
    }

    /// Returns the value of a `Left`.
    ///
    /// The value must be a `Left`. Code that is not verified and passes a
    /// `Right` gets a panic whose text is `message`, a colon, and the
    /// `Debug` form of the value of the `Right`.
    #[inline]
    #[must_use]
    pub fn left_expect(self, message: &str) -> (res: L) where R: Debug
        requires
            self is Left,
        ensures
            self == Either::<L, R>::Left(res),
    {
        self.left_or_err().expect(message)
    }

    /// Returns the value of a `Right`.
    ///
    /// The value must be a `Right`. Code that is not verified and passes a
    /// `Left` gets a panic whose text is `message`, a colon, and the `Debug`
    /// form of the value of the `Left`.
    #[inline]
    #[must_use]
    pub fn right_expect(self, message: &str) -> (res: R) where L: Debug
        requires
            self is Right,
        ensures
            self == Either::<L, R>::Right(res),
    {
        self.right_or_err().expect(message)
    }

    /// Returns the value of a `Left`.
    ///
    /// The value must be a `Left`; see [`Either::left_expect`], which this
    /// calls with a fixed message.
    #[inline]
    #[must_use]
    pub fn left_unwrap(self) -> (res: L) where R: Debug
        requires
            self is Left,
        ensures
            self == Either::<L, R>::Left(res),
    {
        self.left_expect("`Either::left_unwrap()` is called on `Right`")
    }

    /// Returns the value of a `Right`.
    ///
    /// The value must be a `Right`; see [`Either::right_expect`], which this
    /// calls with a fixed message.
    #[inline]
    #[must_use]
    pub fn right_unwrap(self) -> (res: R) where L: Debug
        requires
            self is Right,
        ensures
            self == Either::<L, R>::Right(res),
    {
        self.right_expect("`Either::right_unwrap()` is called on `Left`")
    }

    /// Returns the value of a `Left`, with no demand on `R`.
    ///
    /// The caller has to know that the value is a `Left`; [`Either::left`] is
    /// the form that checks.
    #[inline]
    #[must_use]
    pub fn left_unwrap_unchecked(self) -> (res: L)
        requires
            self is Left,
        ensures
            self == Either::<L, R>::Left(res),
    {
        match self {
            Left(x) => x,
            Right(_) => unreached(),
        }
    }

    /// Returns the value of a `Right`, with no demand on `L`.
    ///
    /// The caller has to know that the value is a `Right`; [`Either::right`]
    /// is the form that checks.
    #[inline]
    #[must_use]
    pub fn right_unwrap_unchecked(self) -> (res: R)
        requires
            self is Right,
        ensures
            self == Either::<L, R>::Right(res),
    {
        match self {
            Left(_) => unreached(),
            Right(x) => x,
        }
    }

    /// Returns the value of a `Left`, and `default` for a `Right`.
    #[inline]
    #[must_use]
    pub fn left_unwrap_or(self, default: L) -> (res: L)
        ensures
            res == (match self {
                Left(x) => x,
                Right(_) => default,
            }),
    {
        match self {
            Left(x) => x,
            Right(_) => default,
        }
    }

    /// Returns the value of a `Right`, and `default` for a `Left`.
    #[inline]
    #[must_use]
    pub fn right_unwrap_or(self, default: R) -> (res: R)
        ensures
            res == (match self {
                Left(_) => default,
                Right(x) => x,
            }),
    {
        match self {
            Left(_) => default,
            Right(x) => x,
        }
    }

    /// Returns the value of a `Left`; for a `Right(x)` returns `default(x)`.
    ///
    /// `default` is called only on a `Right`.
    #[inline]
    #[must_use]
    pub fn left_unwrap_or_else<F>(self, default: F) -> (res: L) where F: FnOnce(R) -> L
        requires
            self matches Right(x) ==> default.requires((x,)),
        ensures
            match self {
                Left(x) => res == x,
                Right(x) => default.ensures((x,), res),
            },
    {
        match self {
            Left(x) => x,
            Right(x) => default(x),
        }
    }

    /// Returns the value of a `Right`; for a `Left(x)` returns `default(x)`.
    ///
    /// `default` is called only on a `Left`.
    #[inline]
    #[must_use]
    pub fn right_unwrap_or_else<F>(self, default: F) -> (res: R) where F: FnOnce(L) -> R
        requires
            self matches Left(x) ==> default.requires((x,)),
        ensures
            match self {
                Left(x) => default.ensures((x,), res),
                Right(x) => res == x,
            },
    {
        match self {
            Left(x) => default(x),
            Right(x) => x,
        }
    }

    /// Returns the value of a `Left`; for a `Right` returns `L::default()`.
    #[inline]
    #[must_use]
    pub fn left_unwrap_or_default(self) -> (res: L) where L: Default
        ensures
            match self {
                Left(x) => res == x,
                Right(_) => call_ensures(L::default, (), res),
            },
    {
        match self {
            Left(x) => x,
            Right(_) => L::default(),
        }
    }

    /// Returns the value of a `Right`; for a `Left` returns `R::default()`.
    #[inline]
    #[must_use]
    pub fn right_unwrap_or_default(self) -> (res: R) where R: Default
        ensures
            match self {
                Left(_) => call_ensures(R::default, (), res),
                Right(x) => res == x,
            },
    {
        match self {
            Left(_) => R::default(),
            Right(x) => x,
        }
    }
}

} // verus!
