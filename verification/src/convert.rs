//! Conversions that pull a wrapper out of an [`Either`].
//!
//! An `Either` whose two sides are wrapped alike can be turned inside out:
//!
//! - `Either<(T, L), (T, R)>` into `(T, Either<L, R>)`,
//! - `Either<(L, T), (R, T)>` into `(Either<L, R>, T)`,
//! - `Either<Option<L>, Option<R>>` into `Option<Either<L, R>>`,
//! - `Either<Result<T, L>, Result<T, R>>` into `Result<T, Either<L, R>>`,
//! - `Either<Result<L, E>, Result<R, E>>` into `Result<Either<L, R>, E>`,
//! - `Either<Result<T1, E1>, Result<T2, E2>>` into
//!   `Result<Either<T1, T2>, Either<E1, E2>>`, and back,
//! - `Either<Result<(T, L), E1>, Result<(T, R), E2>>` into
//!   `Result<(T, Either<L, R>), Either<E1, E2>>`.
//!
//! What is tagged stays on its side; what is shared loses the tag. Only the
//! conversion that tags the success and the failure alike keeps every tag,
//! which is why only it can be undone.
//!
//! Each conversion is a `From` impl, stated by a specification function of
//! its own and tied to it through `from_spec`.

use crate::Either;
use crate::Either::{Left, Right};
use vstd::prelude::*;
use vstd::std_specs::convert::FromSpecImpl;

verus! {

/// The shared first component beside the tagged second one.
pub open spec fn spec_split_first<L, R, T>(value: Either<(T, L), (T, R)>) -> (T, Either<L, R>) {
    match value {
        Left((x, y)) => (x, Left(y)),
        Right((x, y)) => (x, Right(y)),
    }
}

/// The tagged first component beside the shared second one.
pub open spec fn spec_split_second<L, R, T>(value: Either<(L, T), (R, T)>) -> (Either<L, R>, T) {
    match value {
        Left((x, y)) => (Left(x), y),
        Right((x, y)) => (Right(x), y),
    }
}

/// `Some` of the tagged value, or `None` where either side holds `None`.
pub open spec fn spec_transpose_option<L, R>(value: Either<Option<L>, Option<R>>) -> Option<
    Either<L, R>,
> {
    match value {
        Left(Some(x)) => Some(Left(x)),
        Right(Some(x)) => Some(Right(x)),
        Left(None) | Right(None) => None,
    }
}

/// The shared success as it is, or the failure tagged with its side.
pub open spec fn spec_tag_err<L, R, T>(value: Either<Result<T, L>, Result<T, R>>) -> Result<
    T,
    Either<L, R>,
> {
    match value {
        Left(Ok(x)) | Right(Ok(x)) => Ok(x),
        Left(Err(x)) => Err(Left(x)),
        Right(Err(x)) => Err(Right(x)),
    }
}

/// The success tagged with its side, or the shared failure as it is.
pub open spec fn spec_tag_ok<L, R, E>(value: Either<Result<L, E>, Result<R, E>>) -> Result<
    Either<L, R>,
    E,
> {
    match value {
        Left(Ok(x)) => Ok(Left(x)),
        Right(Ok(x)) => Ok(Right(x)),
        Left(Err(x)) | Right(Err(x)) => Err(x),
    }
}

/// The success or the failure, each tagged with its side.
pub open spec fn spec_transpose_result<T1, T2, E1, E2>(
    value: Either<Result<T1, E1>, Result<T2, E2>>,
) -> Result<Either<T1, T2>, Either<E1, E2>> {
    match value {
        Left(Ok(x)) => Ok(Left(x)),
        Left(Err(x)) => Err(Left(x)),
        Right(Ok(x)) => Ok(Right(x)),
        Right(Err(x)) => Err(Right(x)),
    }
}

/// The side of the tag, holding the success or the failure that was tagged.
pub open spec fn spec_untranspose_result<T1, T2, E1, E2>(
    value: Result<Either<T1, T2>, Either<E1, E2>>,
) -> Either<Result<T1, E1>, Result<T2, E2>> {
    match value {
        Ok(Left(x)) => Left(Ok(x)),
        Ok(Right(x)) => Right(Ok(x)),
        Err(Left(x)) => Left(Err(x)),
        Err(Right(x)) => Right(Err(x)),
    }
}

/// A successful pair with its shared first component pulled out and its
/// second tagged, or the failure tagged with its side.
pub open spec fn spec_transpose_pair_result<T, L, R, E1, E2>(
    value: Either<Result<(T, L), E1>, Result<(T, R), E2>>,
) -> Result<(T, Either<L, R>), Either<E1, E2>> {
    match value {
        Left(Ok((x, y))) => Ok((x, Left(y))),
        Left(Err(e)) => Err(Left(e)),
        Right(Ok((x, y))) => Ok((x, Right(y))),
        Right(Err(e)) => Err(Right(e)),
    }
}

impl<L, R, T> From<Either<(T, L), (T, R)>> for (T, Either<L, R>) {
    /// Pulls the shared first component out; the second keeps its side.
    #[inline]
    fn from(value: Either<(T, L), (T, R)>) -> (res: Self)
        ensures
            res == spec_split_first(value),
    {
        match value {
            Left((x, y)) => (x, Left(y)),
            Right((x, y)) => (x, Right(y)),
        }
    }
}

impl<L, R, T> FromSpecImpl<Either<(T, L), (T, R)>> for (T, Either<L, R>) {
    open spec fn obeys_from_spec() -> bool {
        true
    }

    open spec fn from_spec(value: Either<(T, L), (T, R)>) -> Self {
        spec_split_first(value)
    }
}

impl<L, R, T> From<Either<(L, T), (R, T)>> for (Either<L, R>, T) {
    /// Pulls the shared second component out; the first keeps its side.
    #[inline]
    fn from(value: Either<(L, T), (R, T)>) -> (res: Self)
        ensures
            res == spec_split_second(value),
    {
        match value {
            Left((x, y)) => (Left(x), y),
            Right((x, y)) => (Right(x), y),
        }
    }
}

impl<L, R, T> FromSpecImpl<Either<(L, T), (R, T)>> for (Either<L, R>, T) {
    open spec fn obeys_from_spec() -> bool {
        true
    }

    open spec fn from_spec(value: Either<(L, T), (R, T)>) -> Self {
        spec_split_second(value)
    }
}

impl<L, R> From<Either<Option<L>, Option<R>>> for Option<Either<L, R>> {
    /// `Some` keeps its side; `None` on either side is `None`.
    #[inline]
    fn from(value: Either<Option<L>, Option<R>>) -> (res: Self)
        ensures
            res == spec_transpose_option(value),
    {
        match value {
            Left(Some(x)) => Some(Left(x)),
            Right(Some(x)) => Some(Right(x)),
            Left(None) | Right(None) => None,
        }
    }
}

impl<L, R> FromSpecImpl<Either<Option<L>, Option<R>>> for Option<Either<L, R>> {
    open spec fn obeys_from_spec() -> bool {
        true
    }

    open spec fn from_spec(value: Either<Option<L>, Option<R>>) -> Self {
        spec_transpose_option(value)
    }
}

impl<L, R, T> From<Either<Result<T, L>, Result<T, R>>> for Result<T, Either<L, R>> {
    /// A success is passed on as it is; a failure is tagged with the side it
    /// came from.
    #[inline]
    fn from(value: Either<Result<T, L>, Result<T, R>>) -> (res: Self)
        ensures
            res == spec_tag_err(value),
    {
        match value {
            Left(Ok(x)) | Right(Ok(x)) => Ok(x),
            Left(Err(x)) => Err(Left(x)),
            Right(Err(x)) => Err(Right(x)),
        }
    }
}

impl<L, R, T> FromSpecImpl<Either<Result<T, L>, Result<T, R>>> for Result<T, Either<L, R>> {
    open spec fn obeys_from_spec() -> bool {
        true
    }

    open spec fn from_spec(value: Either<Result<T, L>, Result<T, R>>) -> Self {
        spec_tag_err(value)
    }
}

impl<L, R, E> From<Either<Result<L, E>, Result<R, E>>> for Result<Either<L, R>, E> {
    /// A success is tagged with the side it came from; a failure is passed
    /// on as it is.
    #[inline]
    fn from(value: Either<Result<L, E>, Result<R, E>>) -> (res: Self)
        ensures
            res == spec_tag_ok(value),
    {
        match value {
            Left(Ok(x)) => Ok(Left(x)),
            Right(Ok(x)) => Ok(Right(x)),
            Left(Err(x)) | Right(Err(x)) => Err(x),
        }
    }
}

impl<L, R, E> FromSpecImpl<Either<Result<L, E>, Result<R, E>>> for Result<Either<L, R>, E> {
    open spec fn obeys_from_spec() -> bool {
        true
    }

    open spec fn from_spec(value: Either<Result<L, E>, Result<R, E>>) -> Self {
        spec_tag_ok(value)
    }
}

impl<T1, T2, E1, E2> From<Either<Result<T1, E1>, Result<T2, E2>>>
    for Result<Either<T1, T2>, Either<E1, E2>>
{
    /// Success and failure are both tagged with the side they came from.
    #[inline]
    fn from(value: Either<Result<T1, E1>, Result<T2, E2>>) -> (res: Self)
        ensures
            res == spec_transpose_result(value),
    {
        match value {
            Left(Ok(x)) => Ok(Left(x)),
            Left(Err(x)) => Err(Left(x)),
            Right(Ok(x)) => Ok(Right(x)),
            Right(Err(x)) => Err(Right(x)),
        }
    }
}

impl<T1, T2, E1, E2> FromSpecImpl<Either<Result<T1, E1>, Result<T2, E2>>>
    for Result<Either<T1, T2>, Either<E1, E2>>
{
    open spec fn obeys_from_spec() -> bool {
        true
    }

    open spec fn from_spec(value: Either<Result<T1, E1>, Result<T2, E2>>) -> Self {
        spec_transpose_result(value)
    }
}

impl<T1, T2, E1, E2> From<Result<Either<T1, T2>, Either<E1, E2>>>
    for Either<Result<T1, E1>, Result<T2, E2>>
{
    /// The tag moves outwards: the result is on the side that the success or
    /// the failure was tagged with.
    #[inline]
    fn from(value: Result<Either<T1, T2>, Either<E1, E2>>) -> (res: Self)
        ensures
            res == spec_untranspose_result(value),
    {
        match value {
            Ok(Left(x)) => Left(Ok(x)),
            Ok(Right(x)) => Right(Ok(x)),
            Err(Left(x)) => Left(Err(x)),
            Err(Right(x)) => Right(Err(x)),
        }
    }
}

impl<T1, T2, E1, E2> FromSpecImpl<Result<Either<T1, T2>, Either<E1, E2>>>
    for Either<Result<T1, E1>, Result<T2, E2>>
{
    open spec fn obeys_from_spec() -> bool {
        true
    }

    open spec fn from_spec(value: Result<Either<T1, T2>, Either<E1, E2>>) -> Self {
        spec_untranspose_result(value)
    }
}

impl<T, L, R, E1, E2> From<Either<Result<(T, L), E1>, Result<(T, R), E2>>>
    for Result<(T, Either<L, R>), Either<E1, E2>>
{
    /// A successful pair keeps its first component and has its second
    /// tagged with the side it came from; a failure is tagged likewise.
    #[inline]
    fn from(value: Either<Result<(T, L), E1>, Result<(T, R), E2>>) -> (res: Self)
        ensures
            res == spec_transpose_pair_result(value),
    {
        match value {
            Left(Ok((x, y))) => Ok((x, Left(y))),
            Left(Err(e)) => Err(Left(e)),
            Right(Ok((x, y))) => Ok((x, Right(y))),
            Right(Err(e)) => Err(Right(e)),
        }
    }
}

impl<T, L, R, E1, E2> FromSpecImpl<Either<Result<(T, L), E1>, Result<(T, R), E2>>>
    for Result<(T, Either<L, R>), Either<E1, E2>>
{
    open spec fn obeys_from_spec() -> bool {
        true
    }

    open spec fn from_spec(value: Either<Result<(T, L), E1>, Result<(T, R), E2>>) -> Self {
        spec_transpose_pair_result(value)
    }
}

/// Transposing an `Either` of results into a result of `Either`s and back
/// gives the value back.
pub proof fn lemma_transpose_result_then_back<T1, T2, E1, E2>(
    x: Either<Result<T1, E1>, Result<T2, E2>>,
)
    ensures
        spec_untranspose_result(spec_transpose_result(x)) == x,
{
}

/// Transposing a result of `Either`s into an `Either` of results and back
/// gives the value back.
pub proof fn lemma_untranspose_result_then_back<T1, T2, E1, E2>(
    r: Result<Either<T1, T2>, Either<E1, E2>>,
)
    ensures
        spec_transpose_result(spec_untranspose_result(r)) == r,
{
}

/// The two transpositions between `Either<Result<T1, E1>, Result<T2, E2>>`
/// and `Result<Either<T1, T2>, Either<E1, E2>>` keep the side: a value from
/// the left is tagged `Left`, as a success or as a failure, and a value from
/// the right is tagged `Right`.
pub proof fn lemma_transpose_result_keeps_side<T1, T2, E1, E2>(
    x: Either<Result<T1, E1>, Result<T2, E2>>,
)
    ensures
        x is Left <==> (match spec_transpose_result(x) {
            Ok(v) => v is Left,
            Err(e) => e is Left,
        }),
        spec_transpose_result(x) is Ok <==> (match x {
            Left(r) => r is Ok,
            Right(r) => r is Ok,
        }),
{
}

/// Where a transposition into an `Option` gives `Some`, nothing was lost:
/// the result holds the side and the value, and wrapping its value in `Some`
/// on that side gives the input back. It gives `None` exactly where the
/// input holds `None`, on whichever side.
pub proof fn lemma_transpose_option_keeps_some<L, R>(x: Either<Option<L>, Option<R>>)
    ensures
        spec_transpose_option(x) matches Some(Left(v)) ==> x == Either::<
            Option<L>,
            Option<R>,
        >::Left(Some(v)),
        spec_transpose_option(x) matches Some(Right(v)) ==> x == Either::<
            Option<L>,
            Option<R>,
        >::Right(Some(v)),
        spec_transpose_option(x) is None <==> (x == Either::<Option<L>, Option<R>>::Left(None) || x
            == Either::<Option<L>, Option<R>>::Right(None)),
{
}

/// Where a transposition that tags successes gives `Ok`, nothing was lost:
/// the result holds the side and the value. A failure comes out untagged.
pub proof fn lemma_tag_ok_keeps_ok<L, R, E>(x: Either<Result<L, E>, Result<R, E>>)
    ensures
        spec_tag_ok(x) matches Ok(Left(v)) ==> x == Either::<Result<L, E>, Result<R, E>>::Left(
            Ok(v),
        ),
        spec_tag_ok(x) matches Ok(Right(v)) ==> x == Either::<Result<L, E>, Result<R, E>>::Right(
            Ok(v),
        ),
        spec_tag_ok(x) matches Err(e) ==> (x == Either::<Result<L, E>, Result<R, E>>::Left(Err(e))
            || x == Either::<Result<L, E>, Result<R, E>>::Right(Err(e))),
{
}

/// Transposing an `Either` of fallible pairs is transposing the results
/// first and splitting the successful pair second.
pub proof fn lemma_transpose_pair_result_in_steps<T, L, R, E1, E2>(
    x: Either<Result<(T, L), E1>, Result<(T, R), E2>>,
)
    ensures
        spec_transpose_pair_result(x) == (match spec_transpose_result(x) {
            Ok(pair) => Ok(spec_split_first(pair)),
            Err(e) => Err(e),
        }),
{
}

/// Tagging only the successes is tagging successes and failures alike and
/// then forgetting the side of a failure.
pub proof fn lemma_tag_ok_forgets_failures<L, R, E>(x: Either<Result<L, E>, Result<R, E>>)
    ensures
        spec_tag_ok(x) == (match spec_transpose_result(x) {
            Ok(v) => Ok(v),
            Err(e) => Err(e.into_inner()),
        }),
{
}

/// Tagging only the failures is tagging successes and failures alike and
/// then forgetting the side of a success.
pub proof fn lemma_tag_err_forgets_successes<L, R, T>(x: Either<Result<T, L>, Result<T, R>>)
    ensures
        spec_tag_err(x) == (match spec_transpose_result(x) {
            Ok(v) => Ok(v.into_inner()),
            Err(e) => Err(e),
        }),
{
}

} // verus!
