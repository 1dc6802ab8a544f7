//! Iterating over an [`Either`] of two iterators.
//!
//! [`IntoIter`] wraps an `Either<L, R>` whose two sides are iterators of one
//! item type. Advancing it advances the contained iterator and hands on what
//! that returned; the side never changes.

use crate::Either;
use crate::Either::{Left, Right};
use vstd::prelude::*;
use vstd::std_specs::iter::IteratorSpec;

verus! {

/// An iterator that is either an `L` or an `R`.
///
/// It holds nothing but the `Either` of the two iterators, which is open to
/// read and to replace: there is nothing that the wrapper has to keep true
/// of it.
#[derive(Copy, Debug)]
pub struct IntoIter<L, R>(pub Either<L, R>);

impl<L: Clone, R: Clone> Clone for IntoIter<L, R> {
    /// Clones the contained iterator, which stays on its side.
    #[inline]
    fn clone(&self) -> (res: Self)
        ensures
            match self.0 {
                Left(x) => res.0 matches Left(y) && cloned(x, y),
                Right(x) => res.0 matches Right(y) && cloned(x, y),
            },
    {
        IntoIter(self.0.clone())
    }
}

impl<L, R> IntoIter<L, R> {
    /// Returns the wrapped `Either` of iterators, as far as it has been
    /// advanced.
    #[inline]
    #[must_use]
    pub fn into_inner(self) -> (res: Either<L, R>)
        ensures
            res == self.0,
    {
        self.0
    }

    /// Advances the contained iterator and returns what it returned.
    ///
    /// The side stays. Where the contained iterator keeps to the laws of
    /// iteration, the item returned is the first of those it had left, which
    /// it then has no more, and its measure of what is left has gone down;
    /// when it had none left, `None` is returned.
    #[inline]
    pub fn next(&mut self) -> (ret: Option<L::Item>) where L: Iterator, R: Iterator<Item = L::Item>
        ensures
            match old(self).0 {
                Left(x) => final(self).0 matches Left(y) && y.obeys_prophetic_iter_laws()
                    == x.obeys_prophetic_iter_laws() && (y.obeys_prophetic_iter_laws() ==> {
                    &&& y.will_return_none() == x.will_return_none()
                    &&& y.decrease() is Some <==> x.decrease() is Some
                    &&& if x.remaining().len() > 0 {
                        &&& y.remaining() == x.remaining().drop_first()
                        &&& ret == Some(x.remaining()[0])
                        &&& y.decrease() is Some ==> decreases_to!(x.decrease()->0 => y.decrease()->0)
                    } else {
                        y.remaining() == x.remaining() && ret is None && y.will_return_none()
                    }
                }),
                Right(x) => final(self).0 matches Right(y) && y.obeys_prophetic_iter_laws()
                    == x.obeys_prophetic_iter_laws() && (y.obeys_prophetic_iter_laws() ==> {
                    &&& y.will_return_none() == x.will_return_none()
                    &&& y.decrease() is Some <==> x.decrease() is Some
                    &&& if x.remaining().len() > 0 {
                        &&& y.remaining() == x.remaining().drop_first()
                        &&& ret == Some(x.remaining()[0])
                        &&& y.decrease() is Some ==> decreases_to!(x.decrease()->0 => y.decrease()->0)
                    } else {
                        y.remaining() == x.remaining() && ret is None && y.will_return_none()
                    }
                }),
            },
    {
        match &mut self.0 {
            Left(x) => x.next(),
            Right(x) => x.next(),
        }
    }

    /// Advances the contained iterator from the back and returns what it
    /// returned.
    ///
    /// The side stays. Where the contained iterator keeps to the laws of
    /// iteration, the item returned is the last of those it had left, which
    /// it then has no more, and its measure of what is left has gone down;
    /// when it had none left, `None` is returned.
    #[inline]
    pub fn next_back(&mut self) -> (ret: Option<L::Item>) where
        L: DoubleEndedIterator,
        R: DoubleEndedIterator<Item = L::Item>,

        ensures
            match old(self).0 {
                Left(x) => final(self).0 matches Left(y) && y.obeys_prophetic_iter_laws()
                    == x.obeys_prophetic_iter_laws() && (y.obeys_prophetic_iter_laws() ==> {
                    &&& y.will_return_none() == x.will_return_none()
                    &&& y.decrease() is Some <==> x.decrease() is Some
                    &&& if x.remaining().len() > 0 {
                        &&& y.remaining() == x.remaining().drop_last()
                        &&& ret == Some(x.remaining().last())
                        &&& y.decrease() is Some ==> x.decrease()->0 > y.decrease()->0
                    } else {
                        y.remaining() == x.remaining() && ret is None && y.will_return_none()
                    }
                }),
                Right(x) => final(self).0 matches Right(y) && y.obeys_prophetic_iter_laws()
                    == x.obeys_prophetic_iter_laws() && (y.obeys_prophetic_iter_laws() ==> {
                    &&& y.will_return_none() == x.will_return_none()
                    &&& y.decrease() is Some <==> x.decrease() is Some
                    &&& if x.remaining().len() > 0 {
                        &&& y.remaining() == x.remaining().drop_last()
                        &&& ret == Some(x.remaining().last())
                        &&& y.decrease() is Some ==> x.decrease()->0 > y.decrease()->0
                    } else {
                        y.remaining() == x.remaining() && ret is None && y.will_return_none()
                    }
                }),
            },
    {
        match &mut self.0 {
            Left(x) => x.next_back(),
            Right(x) => x.next_back(),
        }
    }
}

} // verus!
