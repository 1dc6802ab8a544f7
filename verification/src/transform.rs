//! Turning an [`Either`] into another value by functions of the caller.
//!
//! At most one of the functions handed in is called, and at most once: the
//! one for the side that is present, on the value found there. The contracts
//! say so through the functions' own `requires` and `ensures`: a function is
//! required to accept the value only on the side on which it is called, and
//! the result is what that call returned.

use crate::Either;
use crate::Either::{Left, Right};
use vstd::prelude::*;

verus! {

impl<L, R> Either<L, R> {
    /// The same value on the other side, as a specification.
    pub open spec fn spec_flip(self) -> Either<R, L> {
        match self {
            Left(x) => Right(x),
            Right(x) => Left(x),
        }
    }

    /// What [`Either::fold`] gives for two functions in the mathematical
    /// sense: the one for the side that is present, applied to the value
    /// found there.
    pub open spec fn spec_fold<T>(self, l: spec_fn(L) -> T, r: spec_fn(R) -> T) -> T {
        match self {
            Left(x) => l(x),
            Right(x) => r(x),
        }
    }

    /// What [`Either::map`] gives for two functions in the mathematical
    /// sense: like [`Either::spec_fold`], with the result put back on the
    /// same side.
    pub open spec fn spec_map<T, U>(self, l: spec_fn(L) -> T, r: spec_fn(R) -> U) -> Either<T, U> {
        match self {
            Left(x) => Left(l(x)),
            Right(x) => Right(r(x)),
        }
    }

    /// Moves the value to the other side: `Left(x)` becomes `Right(x)` and
    /// `Right(x)` becomes `Left(x)`.
    #[inline]
    #[must_use]
    #[verifier::when_used_as_spec(spec_flip)]
    pub fn flip(self) -> (res: Either<R, L>)
        ensures
            res == self.spec_flip(),
    {
        match self {
            Left(x) => Right(x),
            Right(x) => Left(x),
        }
    }

    /// Applies `l` to the value of a `Left` or `r` to the value of a `Right`
    /// and returns what the function returned.
    #[inline]
    #[must_use]
    pub fn fold<T, F, G>(self, l: F, r: G) -> (res: T) where
        F: FnOnce(L) -> T,
        G: FnOnce(R) -> T,

        requires
            self matches Left(x) ==> l.requires((x,)),
            self matches Right(x) ==> r.requires((x,)),
        ensures
            match self {
                Left(x) => l.ensures((x,), res),
                Right(x) => r.ensures((x,), res),
            },
    {
        match self {
            Left(x) => l(x),
            Right(x) => r(x),
        }
    }

    /// Like [`Either::fold`], with `ctx` handed to whichever function runs as
    /// its second argument.
    #[inline]
    #[must_use]
    pub fn fold_with<C, T, F, G>(self, ctx: C, l: F, r: G) -> (res: T) where
        F: FnOnce(L, C) -> T,
        G: FnOnce(R, C) -> T,

        requires
            self matches Left(x) ==> l.requires((x, ctx)),
            self matches Right(x) ==> r.requires((x, ctx)),
        ensures
            match self {
                Left(x) => l.ensures((x, ctx), res),
                Right(x) => r.ensures((x, ctx), res),
            },
    {
        match self {
            Left(x) => l(x, ctx),
            Right(x) => r(x, ctx),
        }
    }

    /// Applies `l` to the value of a `Left` or `r` to the value of a `Right`
    /// and puts what the function returned back on the same side.
    #[inline]
    #[must_use]
    pub fn map<T, U, F, G>(self, l: F, r: G) -> (res: Either<T, U>) where
        F: FnOnce(L) -> T,
        G: FnOnce(R) -> U,

        requires
            self matches Left(x) ==> l.requires((x,)),
            self matches Right(x) ==> r.requires((x,)),
        ensures
            match self {
                Left(x) => res matches Left(y) && l.ensures((x,), y),
                Right(x) => res matches Right(y) && r.ensures((x,), y),
            },
    {
        match self {
            Left(x) => Left(l(x)),
            Right(x) => Right(r(x)),
        }
    }

    /// Like [`Either::map`], with `ctx` handed to whichever function runs as
    /// its second argument.
    #[inline]
    #[must_use]
    pub fn map_with<C, T, U, F, G>(self, ctx: C, l: F, r: G) -> (res: Either<T, U>) where
        F: FnOnce(L, C) -> T,
        G: FnOnce(R, C) -> U,

        requires
            self matches Left(x) ==> l.requires((x, ctx)),
            self matches Right(x) ==> r.requires((x, ctx)),
        ensures
            match self {
                Left(x) => res matches Left(y) && l.ensures((x, ctx), y),
                Right(x) => res matches Right(y) && r.ensures((x, ctx), y),
            },
    {
        match self {
            Left(x) => Left(l(x, ctx)),
            Right(x) => Right(r(x, ctx)),
        }
    }

    /// Applies `f` to the value of a `Left` and keeps it on the left; a
    /// `Right` passes through unchanged.
    #[inline]
    #[must_use]
    pub fn left_map<T, F: FnOnce(L) -> T>(self, f: F) -> (res: Either<T, R>)
        requires
            self matches Left(x) ==> f.requires((x,)),
        ensures
            match self {
                Left(x) => res matches Left(y) && f.ensures((x,), y),
                Right(x) => res == Either::<T, R>::Right(x),
            },
    {
        match self {
            Left(x) => Left(f(x)),
            Right(x) => Right(x),
        }
    }

    /// Applies `f` to the value of a `Right` and keeps it on the right; a
    /// `Left` passes through unchanged.
    #[inline]
    #[must_use]
    pub fn right_map<T, F: FnOnce(R) -> T>(self, f: F) -> (res: Either<L, T>)
        requires
            self matches Right(x) ==> f.requires((x,)),
        ensures
            match self {
                Left(x) => res == Either::<L, T>::Left(x),
                Right(x) => res matches Right(y) && f.ensures((x,), y),
            },
    {
        match self {
            Left(x) => Left(x),
            Right(x) => Right(f(x)),
        }
    }

    /// Returns `f(x)` for a `Left(x)`, and `default` for a `Right`.
    #[inline]
    #[must_use]
    pub fn left_map_or<T, F: FnOnce(L) -> T>(self, default: T, f: F) -> (res: T)
        requires
            self matches Left(x) ==> f.requires((x,)),
        ensures
            match self {
                Left(x) => f.ensures((x,), res),
                Right(_) => res == default,
            },
    {
        match self {
            Left(x) => f(x),
            Right(_) => default,
        }
    }

    /// Returns `f(x)` for a `Right(x)`, and `default` for a `Left`.
    #[inline]
    #[must_use]
    pub fn right_map_or<T, F: FnOnce(R) -> T>(self, default: T, f: F) -> (res: T)
        requires
            self matches Right(x) ==> f.requires((x,)),
        ensures
            match self {
                Left(_) => res == default,
                Right(x) => f.ensures((x,), res),
            },
    {
        match self {
            Left(_) => default,
            Right(x) => f(x),
        }
    }

    /// Returns `f(x)` for a `Left(x)`, and `default()` for a `Right`.
    #[inline]
    pub fn left_map_or_else<T, D, F>(self, default: D, f: F) -> (res: T) where
        D: FnOnce() -> T,
        F: FnOnce(L) -> T,

        requires
            self matches Left(x) ==> f.requires((x,)),
            self is Right ==> default.requires(()),
        ensures
            match self {
                Left(x) => f.ensures((x,), res),
                Right(_) => default.ensures((), res),
            },
    {
        match self {
            Left(x) => f(x),
            Right(_) => default(),
        }
    }

    /// Returns `f(x)` for a `Right(x)`, and `default()` for a `Left`.
    #[inline]
    pub fn right_map_or_else<T, D, F>(self, default: D, f: F) -> (res: T) where
        D: FnOnce() -> T,
        F: FnOnce(R) -> T,

        requires
            self is Left ==> default.requires(()),
            self matches Right(x) ==> f.requires((x,)),
        ensures
            match self {
                Left(_) => default.ensures((), res),
                Right(x) => f.ensures((x,), res),
            },
    {
        match self {
            Left(_) => default(),
            Right(x) => f(x),
        }
    }

    /// Returns `f(x)` for a `Left(x)`, and `T::default()` for a `Right`.
    #[inline]
    #[must_use]
    pub fn left_map_or_default<T, F>(self, f: F) -> (res: T) where T: Default, F: FnOnce(L) -> T
        requires
            self matches Left(x) ==> f.requires((x,)),
        ensures
            match self {
                Left(x) => f.ensures((x,), res),
                Right(_) => call_ensures(T::default, (), res),
            },
    {
        self.left_map_or_else(T::default, f)
    }

    /// Returns `f(x)` for a `Right(x)`, and `T::default()` for a `Left`.
    #[inline]
    #[must_use]
    pub fn right_map_or_default<T, F>(self, f: F) -> (res: T) where T: Default, F: FnOnce(R) -> T
        requires
            self matches Right(x) ==> f.requires((x,)),
        ensures
            match self {
                Left(_) => call_ensures(T::default, (), res),
                Right(x) => f.ensures((x,), res),
            },
    {
        self.right_map_or_else(T::default, f)
    }

    /// Returns `other` if `self` is a `Left`, and `self` if it is a `Right`.
    #[inline]
    #[must_use]
    pub fn left_and(self, other: Self) -> (res: Self)
        ensures
            res == (if self is Left {
                other
            } else {
                self
            }),
    {
        match self {
            Left(_) => other,
            Right(x) => Right(x),
        }
    }

    /// Returns `other` if `self` is a `Right`, and `self` if it is a `Left`.
    #[inline]
    #[must_use]
    pub fn right_and(self, other: Self) -> (res: Self)
        ensures
            res == (if self is Right {
                other
            } else {
                self
            }),
    {
        match self {
            Left(x) => Left(x),
            Right(_) => other,
        }
    }

    /// Returns `f(x)` for a `Left(x)`, which may be on either side; a
    /// `Right` passes through unchanged.
    #[inline]
    #[must_use]
    pub fn left_and_then<T, F: FnOnce(L) -> Either<T, R>>(self, f: F) -> (res: Either<T, R>)
        requires
            self matches Left(x) ==> f.requires((x,)),
        ensures
            match self {
                Left(x) => f.ensures((x,), res),
                Right(x) => res == Either::<T, R>::Right(x),
            },
    {
        match self {
            Left(x) => f(x),
            Right(x) => Right(x),
        }
    }

    /// Returns `f(x)` for a `Right(x)`, which may be on either side; a
    /// `Left` passes through unchanged.
    #[inline]
    #[must_use]
    pub fn right_and_then<T, F: FnOnce(R) -> Either<L, T>>(self, f: F) -> (res: Either<L, T>)
        requires
            self matches Right(x) ==> f.requires((x,)),
        ensures
            match self {
                Left(x) => res == Either::<L, T>::Left(x),
                Right(x) => f.ensures((x,), res),
            },
    {
        match self {
            Left(x) => Left(x),
            Right(x) => f(x),
        }
    }
}

/// For functions that compute: where `l` returns `lf(a)` for every `a` and
/// `r` returns `rf(b)` for every `b`, whatever [`Either::fold`] may return
/// for `l` and `r` is `lf` of the value of a `Left` and `rf` of the value of
/// a `Right`.
pub proof fn lemma_fold_of_functions<L, R, T, F, G>(
    x: Either<L, R>,
    l: F,
    r: G,
    lf: spec_fn(L) -> T,
    rf: spec_fn(R) -> T,
    res: T,
) where F: FnOnce(L) -> T, G: FnOnce(R) -> T
    requires
        forall|a: L, out: T| l.ensures((a,), out) ==> out == lf(a),
        forall|b: R, out: T| r.ensures((b,), out) ==> out == rf(b),
        match x {
            Left(a) => l.ensures((a,), res),
            Right(b) => r.ensures((b,), res),
        },
    ensures
        res == x.spec_fold(lf, rf),
        x matches Left(a) ==> res == lf(a),
        x matches Right(b) ==> res == rf(b),
{
}

/// For functions that compute: where `l` returns `lf(a)` for every `a` and
/// `r` returns `rf(b)` for every `b`, whatever [`Either::map`] may return
/// for `l` and `r` is `Left(lf(a))` for a `Left(a)` and `Right(rf(b))` for a
/// `Right(b)`.
pub proof fn lemma_map_of_functions<L, R, T, U, F, G>(
    x: Either<L, R>,
    l: F,
    r: G,
    lf: spec_fn(L) -> T,
    rf: spec_fn(R) -> U,
    res: Either<T, U>,
) where F: FnOnce(L) -> T, G: FnOnce(R) -> U
    requires
        forall|a: L, out: T| l.ensures((a,), out) ==> out == lf(a),
        forall|b: R, out: U| r.ensures((b,), out) ==> out == rf(b),
        match x {
            Left(a) => res matches Left(y) && l.ensures((a,), y),
            Right(b) => res matches Right(y) && r.ensures((b,), y),
        },
    ensures
        res == x.spec_map(lf, rf),
{
}

/// Folding is mapping and then forgetting the side.
pub proof fn lemma_fold_is_map_then_into_inner<L, R, T>(
    x: Either<L, R>,
    lf: spec_fn(L) -> T,
    rf: spec_fn(R) -> T,
)
    ensures
        x.spec_fold(lf, rf) == x.spec_map(lf, rf).into_inner(),
{
}

/// Flipping twice gives the value back.
pub proof fn lemma_flip_involution<L, R>(x: Either<L, R>)
    ensures
        x.flip().flip() == x,
{
}

/// Flipping changes the side and nothing else: what was to be had on the
/// left is then to be had on the right, and the other way round.
pub proof fn lemma_flip_swaps_sides<L, R>(x: Either<L, R>)
    ensures
        x.flip().is_left() == x.is_right(),
        x.flip().is_right() == x.is_left(),
        x.flip().left() == x.right(),
        x.flip().right() == x.left(),
{
}

} // verus!
