//! Borrowed-or-owned adapters and boxed conversions.

use vstd::prelude::*;
use crate::either::Either;

verus! {

/// Borrowed or owned
pub type Boo<'a, T> = Either<&'a T, T>;

impl<'a, T> Either<&'a T, T> {
    /// Returns a reference to the value, borrowed or owned alike
    pub fn as_inner_ref(&self) -> (r: &T)
        ensures
            self is Left ==> r == self->Left_0,
            self is Right ==> *r == self->Right_0,
    {
        match self {
            Either::Left(x) => *x,
            Either::Right(x) => x,
        }
    }
}

impl<A, B> Either<Box<A>, Box<B>> {
    /// Convert into a single boxed value
    pub fn into_boxed(self) -> (r: Box<Either<A, B>>)
        ensures
            *r == (match self {
                Either::Left(b) => Either::Left::<A, B>(*b),
                Either::Right(b) => Either::Right::<A, B>(*b),
            }),
    {
        match self {
            Either::Left(x) => Box::new(Either::Left(*x)),
            Either::Right(x) => Box::new(Either::Right(*x)),
        }
    }
}

impl<T> From<Option<T>> for Either<T, ()> {
    /// A present value lands on the left, an absent one on the right
    fn from(x: Option<T>) -> (r: Self)
        ensures
            r == (match x {
                Some(v) => Either::Left::<T, ()>(v),
                None => Either::Right::<T, ()>(()),
            }),
    {
        match x {
            Some(v) => Either::Left(v),
            None => Either::Right(()),
        }
    }
}

impl<T> vstd::std_specs::convert::FromSpecImpl<Option<T>> for Either<T, ()> {
    open spec fn obeys_from_spec() -> bool {
        true
    }

    open spec fn from_spec(x: Option<T>) -> Self {
        match x {
            Some(v) => Either::Left(v),
            None => Either::Right(()),
        }
    }
}

impl<T, E> From<Result<T, E>> for Either<T, E> {
    /// A success lands on the left, an error on the right
    fn from(x: Result<T, E>) -> (r: Self)
        ensures
            r == (match x {
                Ok(v) => Either::Left::<T, E>(v),
                Err(e) => Either::Right::<T, E>(e),
            }),
    {
        match x {
            Ok(v) => Either::Left(v),
            Err(e) => Either::Right(e),
        }
    }
}

impl<T, E> vstd::std_specs::convert::FromSpecImpl<Result<T, E>> for Either<T, E> {
    open spec fn obeys_from_spec() -> bool {
        true
    }

    open spec fn from_spec(x: Result<T, E>) -> Self {
        match x {
            Ok(v) => Either::Left(v),
            Err(e) => Either::Right(e),
        }
    }
}

} // verus!
