//! A general purpose sum type with two sides.
//!
//! [`Either<L, R>`] holds exactly one value: a `Left(L)` or a `Right(R)`.
//! The two sides are symmetric; unlike those of `Result`, neither of them
//! stands for success or failure.
//!
//! Every operation looks at which side is present and works on the value
//! found there. Where the outcome is again an `Either`, it is on the same
//! side; only the functions that say so ([`Either::flip`], the `*_and`,
//! `*_and_then`, `*_and_modify` and `*_insert*` families) ever change the
//! side.
//!
//! # Layout
//!
//! - this file: the type, and asking which side is present;
//! - [`refs`]: borrowing the contained value;
//! - [`extract`]: taking it out;
//! - [`transform`]: applying functions to it;
//! - [`modify`]: replacing it;
//! - [`clone`], [`order`], [`ops`]: `Clone`, `==`, `<` and the operators;
//! - [`convert`], [`option`], [`result`]: pulling a wrapper out of both
//!   sides;
//! - [`error`]: the side of an error that neither side made;
//! - [`iter`]: an `Either` of two iterators as one iterator.
//!
//! # Contracts
//!
//! In specifications an `Either` is a plain algebraic value, so `self is
//! Left`, `self->Left_0` and `match` describe it completely, and the
//! contracts are stated over the enum itself. A function that takes closures
//! states its result through the closures' own `requires` and `ensures`: it
//! asks that a closure accept the contained value only on the side on which
//! it is called, and it returns what that call returned. A function that
//! hands on to a trait of the contained value (`Clone`, `Into`, `Deref`,
//! `+`, ...) states its result through that trait's contract in the same
//! way.

use vstd::prelude::*;

pub mod clone;
pub mod convert;
pub mod error;
pub mod extract;
pub mod iter;
pub mod modify;
pub mod ops;
pub mod option;
pub mod order;
pub mod refs;
pub mod result;
pub mod transform;

verus! {

/// A value that is either a `Left(L)` or a `Right(R)`.
///
/// Equality, ordering and hashing go by the side first and by the contained
/// value second: every `Left` is less than every `Right`.
#[derive(Copy, Debug, Eq, Ord, Hash)]
pub enum Either<L, R> {
    /// Contains a value of type `L` on the left side.
    Left(L),
    /// Contains a value of type `R` on the right side.
    Right(R),
}

impl<L, R> View for Either<L, R> {
    type V = Either<L, R>;

    /// An `Either` is its own model.
    open spec fn view(&self) -> Either<L, R> {
        *self
    }
}

impl<L: DeepView, R: DeepView> DeepView for Either<L, R> {
    type V = Either<L::V, R::V>;

    /// The model of the contained value, on the same side.
    open spec fn deep_view(&self) -> Either<L::V, R::V> {
        match self {
            Either::Left(x) => Either::Left(x.deep_view()),
            Either::Right(x) => Either::Right(x.deep_view()),
        }
    }
}

impl<T> Either<T, T> {
    /// The contained value, whichever side it is on, as a specification.
    pub open spec fn spec_into_inner(self) -> T {
        match self {
            Either::Left(x) => x,
            Either::Right(x) => x,
        }
    }

    /// Returns the contained value, whichever side it is on.
    #[inline]
    #[must_use]
    #[verifier::when_used_as_spec(spec_into_inner)]
    pub fn into_inner(self) -> (res: T)
        ensures
            res == self.spec_into_inner(),
    {
        match self {
            Either::Left(x) => x,
            Either::Right(x) => x,
        }
    }
}

impl<L, R> Either<L, R> {
    /// Whether the value is a `Left`, as a specification.
    pub open spec fn spec_is_left(&self) -> bool {
        *self is Left
    }

    /// Whether the value is a `Right`, as a specification.
    pub open spec fn spec_is_right(&self) -> bool {
        *self is Right
    }

    /// Returns `true` if the value is a `Left`.
    #[inline]
    #[must_use]
    #[verifier::when_used_as_spec(spec_is_left)]
    pub fn is_left(&self) -> (res: bool)
        ensures
            res == (*self is Left),
    {
        match self {
            Either::Left(_) => true,
            Either::Right(_) => false,
        }
    }

    /// Returns `true` if the value is a `Right`.
    #[inline]
    #[must_use]
    #[verifier::when_used_as_spec(spec_is_right)]
    pub fn is_right(&self) -> (res: bool)
        ensures
            res == (*self is Right),
    {
        match self {
            Either::Left(_) => false,
            Either::Right(_) => true,
        }
    }

    /// Returns `predicate(x)` for a `Left(x)`, and `false` for a `Right`.
    ///
    /// The predicate is called only on a `Left`.
    #[inline]
    #[must_use]
    pub fn is_left_and<F>(self, predicate: F) -> (res: bool) where F: FnOnce(L) -> bool
        requires
            self matches Either::Left(x) ==> predicate.requires((x,)),
        ensures
            self matches Either::Left(x) ==> predicate.ensures((x,), res),
            self is Right ==> !res,
    {
        match self {
            Either::Left(x) => predicate(x),
            Either::Right(_) => false,
        }
    }

    /// Returns `predicate(x)` for a `Right(x)`, and `false` for a `Left`.
    ///
    /// The predicate is called only on a `Right`.
    #[inline]
    #[must_use]
    pub fn is_right_and<F>(self, predicate: F) -> (res: bool) where F: FnOnce(R) -> bool
        requires
            self matches Either::Right(x) ==> predicate.requires((x,)),
        ensures
            self matches Either::Right(x) ==> predicate.ensures((x,), res),
            self is Left ==> !res,
    {
        match self {
            Either::Left(_) => false,
            Either::Right(x) => predicate(x),
        }
    }
}

/// `Left(v)` is a left and no right, and `Right(w)` is a right and no left,
/// whatever `v` and `w` are.
pub proof fn lemma_side_of_variant<L, R>(v: L, w: R)
    ensures
        Either::<L, R>::Left(v).is_left(),
        !Either::<L, R>::Left(v).is_right(),
        Either::<L, R>::Right(w).is_right(),
        !Either::<L, R>::Right(w).is_left(),
{
}

/// A value is a `Left` or a `Right`, never both and never neither, and it
/// is nothing but its side and the value found there.
pub proof fn lemma_exactly_one_side<L, R>(x: Either<L, R>)
    ensures
        x.is_left() != x.is_right(),
        x is Left ==> x == Either::<L, R>::Left(x->Left_0),
        x is Right ==> x == Either::<L, R>::Right(x->Right_0),
{
}

} // verus!
