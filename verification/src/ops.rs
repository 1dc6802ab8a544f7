//! Operators on [`Either`], each handed on to the contained value.
//!
//! `Either<L, R>` has an operator whenever both `L` and `R` have it.
//!
//! - `Deref`, `DerefMut`, `Index`: both sides must agree on the target (or
//!   output) type, and the result is that of the contained value.
//! - `Neg`, `Not`, and the binary operators `+ - * / % << >> & | ^` with a
//!   right-hand side of any one type: the result stays on the side of the
//!   operand, so `Left(x) + t` is `Left(x + t)`.
//!
//! An operator of `Either` may be applied wherever the contained value's
//! operator may (`*_req`), and gives what that operator gives (`*_spec`,
//! and, for every implementation, its `ensures`).

use crate::Either;
use crate::Either::{Left, Right};
use core::ops::{
    Add, BitAnd, BitOr, BitXor, Deref, DerefMut, Div, Index, Mul, Neg, Not, Rem, Shl, Shr, Sub,
};
use vstd::prelude::*;
use vstd::std_specs::ops::{
    AddSpec, BitAndSpec, BitOrSpec, BitXorSpec, DivSpec, MulSpec, NegSpec, NotSpec, RemSpec,
    ShlSpec, ShrSpec, SubSpec,
};

verus! {

impl<L, R> Deref for Either<L, R>
where
    L: Deref,
    R: Deref<Target = L::Target>,
{
    type Target = L::Target;

    /// Dereferences the contained value.
    #[inline]
    fn deref(&self) -> (res: &Self::Target)
        ensures
            match *self {
                Left(x) => call_ensures(<L as Deref>::deref, (&x,), res),
                Right(x) => call_ensures(<R as Deref>::deref, (&x,), res),
            },
    {
        match self {
            Left(x) => x.deref(),
            Right(x) => x.deref(),
        }
    }
}

impl<L, R> DerefMut for Either<L, R>
where
    L: DerefMut,
    R: DerefMut<Target = L::Target>,
{
    /// Mutably dereferences the contained value.
    ///
    /// The result is what the contained value's own `deref_mut` returns for
    /// a mutable borrow of that value. The `Either` keeps its side, and
    /// holds afterwards what that borrow leaves behind.
    #[inline]
    fn deref_mut(&mut self) -> (res: &mut Self::Target)
        ensures
            match *old(self) {
                Left(x) => *final(self) matches Left(y) && (exists|m: &mut L|
                    *m == x && *final(m) == y && #[trigger] call_ensures(
                        <L as DerefMut>::deref_mut,
                        (m,),
                        res,
                    )),
                Right(x) => *final(self) matches Right(y) && (exists|m: &mut R|
                    *m == x && *final(m) == y && #[trigger] call_ensures(
                        <R as DerefMut>::deref_mut,
                        (m,),
                        res,
                    )),
            },
    {
        match self {
            Left(x) => x.deref_mut(),
            Right(x) => x.deref_mut(),
        }
    }
}

impl<L, R, Idx> Index<Idx> for Either<L, R>
where
    L: Index<Idx>,
    R: Index<Idx, Output = L::Output>,
{
    type Output = L::Output;

    /// Indexes into the contained value.
    #[inline]
    fn index(&self, index: Idx) -> (res: &Self::Output)
        ensures
            match *self {
                Left(x) => call_ensures(<L as Index<Idx>>::index, (&x, index), res),
                Right(x) => call_ensures(<R as Index<Idx>>::index, (&x, index), res),
            },
    {
        match self {
            Left(x) => x.index(index),
            Right(x) => x.index(index),
        }
    }
}

impl<L, R, Idx> vstd::std_specs::core::IndexSpecImpl<Idx> for Either<L, R>
where
    L: Index<Idx>,
    R: Index<Idx, Output = L::Output>,
{
    open spec fn index_req(&self, index: &Idx) -> bool {
        match *self {
            Left(x) => vstd::std_specs::core::IndexSpec::index_req(&x, index),
            Right(x) => vstd::std_specs::core::IndexSpec::index_req(&x, index),
        }
    }
}

impl<L, R> Neg for Either<L, R>
where
    L: Neg,
    R: Neg,
{
    type Output = Either<L::Output, R::Output>;

    /// Negates the contained value, which stays on its side.
    #[inline]
    fn neg(self) -> (res: Self::Output)
        ensures
            match self {
                Left(x) => res matches Left(y) && call_ensures(<L as Neg>::neg, (x,), y),
                Right(x) => res matches Right(y) && call_ensures(<R as Neg>::neg, (x,), y),
            },
    {
        match self {
            Left(x) => Left(x.neg()),
            Right(x) => Right(x.neg()),
        }
    }
}

impl<L, R> vstd::std_specs::ops::NegSpecImpl for Either<L, R>
where
    L: Neg,
    R: Neg,
{
    open spec fn obeys_neg_spec() -> bool {
        <L as NegSpec>::obeys_neg_spec() && <R as NegSpec>::obeys_neg_spec()
    }

    open spec fn neg_req(self) -> bool {
        match self {
            Left(x) => x.neg_req(),
            Right(x) => x.neg_req(),
        }
    }

    open spec fn neg_spec(self) -> Self::Output {
        match self {
            Left(x) => Left(x.neg_spec()),
            Right(x) => Right(x.neg_spec()),
        }
    }
}

impl<L, R> Not for Either<L, R>
where
    L: Not,
    R: Not,
{
    type Output = Either<L::Output, R::Output>;

    /// Complements the contained value, which stays on its side.
    #[inline]
    fn not(self) -> (res: Self::Output)
        ensures
            match self {
                Left(x) => res matches Left(y) && call_ensures(<L as Not>::not, (x,), y),
                Right(x) => res matches Right(y) && call_ensures(<R as Not>::not, (x,), y),
            },
    {
        match self {
            Left(x) => Left(x.not()),
            Right(x) => Right(x.not()),
        }
    }
}

impl<L, R> vstd::std_specs::ops::NotSpecImpl for Either<L, R>
where
    L: Not,
    R: Not,
{
    open spec fn obeys_not_spec() -> bool {
        <L as NotSpec>::obeys_not_spec() && <R as NotSpec>::obeys_not_spec()
    }

    open spec fn not_req(self) -> bool {
        match self {
            Left(x) => x.not_req(),
            Right(x) => x.not_req(),
        }
    }

    open spec fn not_spec(self) -> Self::Output {
        match self {
            Left(x) => Left(x.not_spec()),
            Right(x) => Right(x.not_spec()),
        }
    }
}

impl<L, R, T> Add<T> for Either<L, R>
where
    L: Add<T>,
    R: Add<T>,
{
    type Output = Either<L::Output, R::Output>;

    /// Adds `rhs` to the contained value, which stays on its side.
    #[inline]
    fn add(self, rhs: T) -> (res: Self::Output)
        ensures
            match self {
                Left(x) => res matches Left(y) && call_ensures(<L as Add<T>>::add, (x, rhs), y),
                Right(x) => res matches Right(y) && call_ensures(<R as Add<T>>::add, (x, rhs), y),
            },
    {
        match self {
            Left(x) => Left(x.add(rhs)),
            Right(x) => Right(x.add(rhs)),
        }
    }
}

impl<L, R, T> vstd::std_specs::ops::AddSpecImpl<T> for Either<L, R>
where
    L: Add<T>,
    R: Add<T>,
{
    open spec fn obeys_add_spec() -> bool {
        <L as AddSpec<T>>::obeys_add_spec() && <R as AddSpec<T>>::obeys_add_spec()
    }

    open spec fn add_req(self, rhs: T) -> bool {
        match self {
            Left(x) => x.add_req(rhs),
            Right(x) => x.add_req(rhs),
        }
    }

    open spec fn add_spec(self, rhs: T) -> Self::Output {
        match self {
            Left(x) => Left(x.add_spec(rhs)),
            Right(x) => Right(x.add_spec(rhs)),
        }
    }
}

impl<L, R, T> Sub<T> for Either<L, R>
where
    L: Sub<T>,
    R: Sub<T>,
{
    type Output = Either<L::Output, R::Output>;

    /// Subtracts `rhs` from the contained value, which stays on its side.
    #[inline]
    fn sub(self, rhs: T) -> (res: Self::Output)
        ensures
            match self {
                Left(x) => res matches Left(y) && call_ensures(<L as Sub<T>>::sub, (x, rhs), y),
                Right(x) => res matches Right(y) && call_ensures(<R as Sub<T>>::sub, (x, rhs), y),
            },
    {
        match self {
            Left(x) => Left(x.sub(rhs)),
            Right(x) => Right(x.sub(rhs)),
        }
    }
}

impl<L, R, T> vstd::std_specs::ops::SubSpecImpl<T> for Either<L, R>
where
    L: Sub<T>,
    R: Sub<T>,
{
    open spec fn obeys_sub_spec() -> bool {
        <L as SubSpec<T>>::obeys_sub_spec() && <R as SubSpec<T>>::obeys_sub_spec()
    }

    open spec fn sub_req(self, rhs: T) -> bool {
        match self {
            Left(x) => x.sub_req(rhs),
            Right(x) => x.sub_req(rhs),
        }
    }

    open spec fn sub_spec(self, rhs: T) -> Self::Output {
        match self {
            Left(x) => Left(x.sub_spec(rhs)),
            Right(x) => Right(x.sub_spec(rhs)),
        }
    }
}

impl<L, R, T> Mul<T> for Either<L, R>
where
    L: Mul<T>,
    R: Mul<T>,
{
    type Output = Either<L::Output, R::Output>;

    /// Multiplies the contained value by `rhs`; the product stays on its side.
    #[inline]
    fn mul(self, rhs: T) -> (res: Self::Output)
        ensures
            match self {
                Left(x) => res matches Left(y) && call_ensures(<L as Mul<T>>::mul, (x, rhs), y),
                Right(x) => res matches Right(y) && call_ensures(<R as Mul<T>>::mul, (x, rhs), y),
            },
    {
        match self {
            Left(x) => Left(x.mul(rhs)),
            Right(x) => Right(x.mul(rhs)),
        }
    }
}

impl<L, R, T> vstd::std_specs::ops::MulSpecImpl<T> for Either<L, R>
where
    L: Mul<T>,
    R: Mul<T>,
{
    open spec fn obeys_mul_spec() -> bool {
        <L as MulSpec<T>>::obeys_mul_spec() && <R as MulSpec<T>>::obeys_mul_spec()
    }

    open spec fn mul_req(self, rhs: T) -> bool {
        match self {
            Left(x) => x.mul_req(rhs),
            Right(x) => x.mul_req(rhs),
        }
    }

    open spec fn mul_spec(self, rhs: T) -> Self::Output {
        match self {
            Left(x) => Left(x.mul_spec(rhs)),
            Right(x) => Right(x.mul_spec(rhs)),
        }
    }
}

impl<L, R, T> Div<T> for Either<L, R>
where
    L: Div<T>,
    R: Div<T>,
{
    type Output = Either<L::Output, R::Output>;

    /// Divides the contained value by `rhs`; the quotient stays on its side.
    #[inline]
    fn div(self, rhs: T) -> (res: Self::Output)
        ensures
            match self {
                Left(x) => res matches Left(y) && call_ensures(<L as Div<T>>::div, (x, rhs), y),
                Right(x) => res matches Right(y) && call_ensures(<R as Div<T>>::div, (x, rhs), y),
            },
    {
        match self {
            Left(x) => Left(x.div(rhs)),
            Right(x) => Right(x.div(rhs)),
        }
    }
}

impl<L, R, T> vstd::std_specs::ops::DivSpecImpl<T> for Either<L, R>
where
    L: Div<T>,
    R: Div<T>,
{
    open spec fn obeys_div_spec() -> bool {
        <L as DivSpec<T>>::obeys_div_spec() && <R as DivSpec<T>>::obeys_div_spec()
    }

    open spec fn div_req(self, rhs: T) -> bool {
        match self {
            Left(x) => x.div_req(rhs),
            Right(x) => x.div_req(rhs),
        }
    }

    open spec fn div_spec(self, rhs: T) -> Self::Output {
        match self {
            Left(x) => Left(x.div_spec(rhs)),
            Right(x) => Right(x.div_spec(rhs)),
        }
    }
}

impl<L, R, T> Rem<T> for Either<L, R>
where
    L: Rem<T>,
    R: Rem<T>,
{
    type Output = Either<L::Output, R::Output>;

    /// Takes the remainder of the contained value by `rhs`; it stays on its side.
    #[inline]
    fn rem(self, rhs: T) -> (res: Self::Output)
        ensures
            match self {
                Left(x) => res matches Left(y) && call_ensures(<L as Rem<T>>::rem, (x, rhs), y),
                Right(x) => res matches Right(y) && call_ensures(<R as Rem<T>>::rem, (x, rhs), y),
            },
    {
        match self {
            Left(x) => Left(x.rem(rhs)),
            Right(x) => Right(x.rem(rhs)),
        }
    }
}

impl<L, R, T> vstd::std_specs::ops::RemSpecImpl<T> for Either<L, R>
where
    L: Rem<T>,
    R: Rem<T>,
{
    open spec fn obeys_rem_spec() -> bool {
        <L as RemSpec<T>>::obeys_rem_spec() && <R as RemSpec<T>>::obeys_rem_spec()
    }

    open spec fn rem_req(self, rhs: T) -> bool {
        match self {
            Left(x) => x.rem_req(rhs),
            Right(x) => x.rem_req(rhs),
        }
    }

    open spec fn rem_spec(self, rhs: T) -> Self::Output {
        match self {
            Left(x) => Left(x.rem_spec(rhs)),
            Right(x) => Right(x.rem_spec(rhs)),
        }
    }
}

impl<L, R, T> Shl<T> for Either<L, R>
where
    L: Shl<T>,
    R: Shl<T>,
{
    type Output = Either<L::Output, R::Output>;

    /// Shifts the contained value left by `rhs`; it stays on its side.
    #[inline]
    fn shl(self, rhs: T) -> (res: Self::Output)
        ensures
            match self {
                Left(x) => res matches Left(y) && call_ensures(<L as Shl<T>>::shl, (x, rhs), y),
                Right(x) => res matches Right(y) && call_ensures(<R as Shl<T>>::shl, (x, rhs), y),
            },
    {
        match self {
            Left(x) => Left(x.shl(rhs)),
            Right(x) => Right(x.shl(rhs)),
        }
    }
}

impl<L, R, T> vstd::std_specs::ops::ShlSpecImpl<T> for Either<L, R>
where
    L: Shl<T>,
    R: Shl<T>,
{
    open spec fn obeys_shl_spec() -> bool {
        <L as ShlSpec<T>>::obeys_shl_spec() && <R as ShlSpec<T>>::obeys_shl_spec()
    }

    open spec fn shl_req(self, rhs: T) -> bool {
        match self {
            Left(x) => x.shl_req(rhs),
            Right(x) => x.shl_req(rhs),
        }
    }

    open spec fn shl_spec(self, rhs: T) -> Self::Output {
        match self {
            Left(x) => Left(x.shl_spec(rhs)),
            Right(x) => Right(x.shl_spec(rhs)),
        }
    }
}

impl<L, R, T> Shr<T> for Either<L, R>
where
    L: Shr<T>,
    R: Shr<T>,
{
    type Output = Either<L::Output, R::Output>;

    /// Shifts the contained value right by `rhs`; it stays on its side.
    #[inline]
    fn shr(self, rhs: T) -> (res: Self::Output)
        ensures
            match self {
                Left(x) => res matches Left(y) && call_ensures(<L as Shr<T>>::shr, (x, rhs), y),
                Right(x) => res matches Right(y) && call_ensures(<R as Shr<T>>::shr, (x, rhs), y),
            },
    {
        match self {
            Left(x) => Left(x.shr(rhs)),
            Right(x) => Right(x.shr(rhs)),
        }
    }
}

impl<L, R, T> vstd::std_specs::ops::ShrSpecImpl<T> for Either<L, R>
where
    L: Shr<T>,
    R: Shr<T>,
{
    open spec fn obeys_shr_spec() -> bool {
        <L as ShrSpec<T>>::obeys_shr_spec() && <R as ShrSpec<T>>::obeys_shr_spec()
    }

    open spec fn shr_req(self, rhs: T) -> bool {
        match self {
            Left(x) => x.shr_req(rhs),
            Right(x) => x.shr_req(rhs),
        }
    }

    open spec fn shr_spec(self, rhs: T) -> Self::Output {
        match self {
            Left(x) => Left(x.shr_spec(rhs)),
            Right(x) => Right(x.shr_spec(rhs)),
        }
    }
}

impl<L, R, T> BitAnd<T> for Either<L, R>
where
    L: BitAnd<T>,
    R: BitAnd<T>,
{
    type Output = Either<L::Output, R::Output>;

    /// Combines the contained value with `rhs` by `&`; it stays on its side.
    #[inline]
    fn bitand(self, rhs: T) -> (res: Self::Output)
        ensures
            match self {
                Left(x) => res matches Left(y) && call_ensures(
                    <L as BitAnd<T>>::bitand,
                    (x, rhs),
                    y,
                ),
                Right(x) => res matches Right(y) && call_ensures(
                    <R as BitAnd<T>>::bitand,
                    (x, rhs),
                    y,
                ),
            },
    {
        match self {
            Left(x) => Left(x.bitand(rhs)),
            Right(x) => Right(x.bitand(rhs)),
        }
    }
}

impl<L, R, T> vstd::std_specs::ops::BitAndSpecImpl<T> for Either<L, R>
where
    L: BitAnd<T>,
    R: BitAnd<T>,
{
    open spec fn obeys_bitand_spec() -> bool {
        <L as BitAndSpec<T>>::obeys_bitand_spec() && <R as BitAndSpec<T>>::obeys_bitand_spec()
    }

    open spec fn bitand_req(self, rhs: T) -> bool {
        match self {
            Left(x) => x.bitand_req(rhs),
            Right(x) => x.bitand_req(rhs),
        }
    }

    open spec fn bitand_spec(self, rhs: T) -> Self::Output {
        match self {
            Left(x) => Left(x.bitand_spec(rhs)),
            Right(x) => Right(x.bitand_spec(rhs)),
        }
    }
}

impl<L, R, T> BitOr<T> for Either<L, R>
where
    L: BitOr<T>,
    R: BitOr<T>,
{
    type Output = Either<L::Output, R::Output>;

    /// Combines the contained value with `rhs` by `|`; it stays on its side.
    #[inline]
    fn bitor(self, rhs: T) -> (res: Self::Output)
        ensures
            match self {
                Left(x) => res matches Left(y) && call_ensures(<L as BitOr<T>>::bitor, (x, rhs), y),
                Right(x) => res matches Right(y) && call_ensures(
                    <R as BitOr<T>>::bitor,
                    (x, rhs),
                    y,
                ),
            },
    {
        match self {
            Left(x) => Left(x.bitor(rhs)),
            Right(x) => Right(x.bitor(rhs)),
        }
    }
}

impl<L, R, T> vstd::std_specs::ops::BitOrSpecImpl<T> for Either<L, R>
where
    L: BitOr<T>,
    R: BitOr<T>,
{
    open spec fn obeys_bitor_spec() -> bool {
        <L as BitOrSpec<T>>::obeys_bitor_spec() && <R as BitOrSpec<T>>::obeys_bitor_spec()
    }

    open spec fn bitor_req(self, rhs: T) -> bool {
        match self {
            Left(x) => x.bitor_req(rhs),
            Right(x) => x.bitor_req(rhs),
        }
    }

    open spec fn bitor_spec(self, rhs: T) -> Self::Output {
        match self {
            Left(x) => Left(x.bitor_spec(rhs)),
            Right(x) => Right(x.bitor_spec(rhs)),
        }
    }
}

impl<L, R, T> BitXor<T> for Either<L, R>
where
    L: BitXor<T>,
    R: BitXor<T>,
{
    type Output = Either<L::Output, R::Output>;

    /// Combines the contained value with `rhs` by `^`; it stays on its side.
    #[inline]
    fn bitxor(self, rhs: T) -> (res: Self::Output)
        ensures
            match self {
                Left(x) => res matches Left(y) && call_ensures(
                    <L as BitXor<T>>::bitxor,
                    (x, rhs),
                    y,
                ),
                Right(x) => res matches Right(y) && call_ensures(
                    <R as BitXor<T>>::bitxor,
                    (x, rhs),
                    y,
                ),
            },
    {
        match self {
            Left(x) => Left(x.bitxor(rhs)),
            Right(x) => Right(x.bitxor(rhs)),
        }
    }
}

impl<L, R, T> vstd::std_specs::ops::BitXorSpecImpl<T> for Either<L, R>
where
    L: BitXor<T>,
    R: BitXor<T>,
{
    open spec fn obeys_bitxor_spec() -> bool {
        <L as BitXorSpec<T>>::obeys_bitxor_spec() && <R as BitXorSpec<T>>::obeys_bitxor_spec()
    }

    open spec fn bitxor_req(self, rhs: T) -> bool {
        match self {
            Left(x) => x.bitxor_req(rhs),
            Right(x) => x.bitxor_req(rhs),
        }
    }

    open spec fn bitxor_spec(self, rhs: T) -> Self::Output {
        match self {
            Left(x) => Left(x.bitxor_spec(rhs)),
            Right(x) => Right(x.bitxor_spec(rhs)),
        }
    }
}

} // verus!
