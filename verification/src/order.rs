//! Equality and ordering of [`Either`]: by the side first, then by the
//! contained value.
//!
//! Two values on different sides are never equal, and every `Left` comes
//! before every `Right`, whatever they contain. Within one side the
//! comparison is that of the contained values.

use crate::Either;
use crate::Either::{Left, Right};
use core::cmp::Ordering;
use vstd::prelude::*;
use vstd::std_specs::cmp::{PartialEqSpec, PartialOrdSpec};

verus! {

impl<L: PartialEq, R: PartialEq> PartialEq for Either<L, R> {
    /// Compares the contained values if the sides agree; values on different
    /// sides are unequal.
    #[inline]
    fn eq(&self, other: &Self) -> (res: bool)
        ensures
            match (*self, *other) {
                (Left(x), Left(y)) => call_ensures(L::eq, (&x, &y), res),
                (Right(x), Right(y)) => call_ensures(R::eq, (&x, &y), res),
                _ => !res,
            },
    {
        match (self, other) {
            (Left(x), Left(y)) => x.eq(y),
            (Right(x), Right(y)) => x.eq(y),
            _ => false,
        }
    }
}

impl<L: PartialEq, R: PartialEq> vstd::std_specs::cmp::PartialEqSpecImpl for Either<L, R> {
    open spec fn obeys_eq_spec() -> bool {
        L::obeys_eq_spec() && R::obeys_eq_spec()
    }

    open spec fn eq_spec(&self, other: &Self) -> bool {
        match (self, other) {
            (Left(x), Left(y)) => x.eq_spec(y),
            (Right(x), Right(y)) => x.eq_spec(y),
            _ => false,
        }
    }
}

impl<L: PartialOrd, R: PartialOrd> PartialOrd for Either<L, R> {
    /// Orders by the side first (`Left` before `Right`), then by the
    /// contained values.
    #[inline]
    fn partial_cmp(&self, other: &Self) -> (res: Option<Ordering>)
        ensures
            match (*self, *other) {
                (Left(x), Left(y)) => call_ensures(L::partial_cmp, (&x, &y), res),
                (Left(_), Right(_)) => res == Some(Ordering::Less),
                (Right(_), Left(_)) => res == Some(Ordering::Greater),
                (Right(x), Right(y)) => call_ensures(R::partial_cmp, (&x, &y), res),
            },
    {
        match (self, other) {
            (Left(x), Left(y)) => x.partial_cmp(y),
            (Left(_), Right(_)) => Some(Ordering::Less),
            (Right(_), Left(_)) => Some(Ordering::Greater),
            (Right(x), Right(y)) => x.partial_cmp(y),
        }
    }
}

impl<L: PartialOrd, R: PartialOrd> vstd::std_specs::cmp::PartialOrdSpecImpl for Either<L, R> {
    open spec fn obeys_partial_cmp_spec() -> bool {
        L::obeys_partial_cmp_spec() && R::obeys_partial_cmp_spec()
    }

    open spec fn partial_cmp_spec(&self, other: &Self) -> Option<Ordering> {
        match (self, other) {
            (Left(x), Left(y)) => x.partial_cmp_spec(y),
            (Left(_), Right(_)) => Some(Ordering::Less),
            (Right(_), Left(_)) => Some(Ordering::Greater),
            (Right(x), Right(y)) => x.partial_cmp_spec(y),
        }
    }
}

/// Every `Left` is less than every `Right`, and every `Right` is greater than
/// every `Left`, whatever the two contain.
pub proof fn lemma_left_before_right<L: PartialOrd, R: PartialOrd>(a: L, b: R)
    ensures
        Either::<L, R>::Left(a).partial_cmp_spec(&Either::<L, R>::Right(b)) == Some(
            Ordering::Less,
        ),
        Either::<L, R>::Right(b).partial_cmp_spec(&Either::<L, R>::Left(a)) == Some(
            Ordering::Greater,
        ),
{
}

/// Within one side the order is the order of the contained values.
pub proof fn lemma_same_side_order<L: PartialOrd, R: PartialOrd>(a: L, b: L, c: R, d: R)
    ensures
        Either::<L, R>::Left(a).partial_cmp_spec(&Either::<L, R>::Left(b)) == a.partial_cmp_spec(
            &b,
        ),
        Either::<L, R>::Right(c).partial_cmp_spec(&Either::<L, R>::Right(d)) == c.partial_cmp_spec(
            &d,
        ),
{
}

/// Values on different sides are never equal; values on one side are equal
/// exactly when the contained values are.
pub proof fn lemma_eq_by_side<L: PartialEq, R: PartialEq>(a: L, b: L, c: R, d: R)
    ensures
        !Either::<L, R>::Left(a).eq_spec(&Either::<L, R>::Right(c)),
        !Either::<L, R>::Right(c).eq_spec(&Either::<L, R>::Left(a)),
        Either::<L, R>::Left(a).eq_spec(&Either::<L, R>::Left(b)) == a.eq_spec(&b),
        Either::<L, R>::Right(c).eq_spec(&Either::<L, R>::Right(d)) == c.eq_spec(&d),
{
}

} // verus!
