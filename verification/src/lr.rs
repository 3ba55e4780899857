//! Adapters for a two-sided value whose sides carry the same type.

use vstd::prelude::*;
use crate::either::Either;
use core::ops::Deref;
use core::ops::DerefMut;

verus! {

/// `Either` with the same value on both sides
pub type LeftRight<T> = Either<T, T>;

/// The single value such a two-sided holder carries, whichever side it is on
pub open spec fn spec_inner<T>(e: Either<T, T>) -> T {
    match e {
        Either::Left(x) => x,
        Either::Right(x) => x,
    }
}

impl<T> Either<T, T> {
    /// Returns the carried value, from whichever side holds it
    pub fn into_inner(self) -> (r: T)
        ensures
            r == spec_inner(self),
    {
        match self {
            Either::Left(x) => x,
            Either::Right(x) => x,
        }
    }

    /// Returns a reference to the carried value, from whichever side holds it
    pub fn inner_ref(&self) -> (r: &T)
        ensures
            *r == spec_inner(*self),
    {
        match self {
            Either::Left(x) => x,
            Either::Right(x) => x,
        }
    }

    /// Returns a mutable reference to the carried value, keeping the side
    pub fn inner_mut(&mut self) -> (r: &mut T)
        ensures
            *r == spec_inner(*old(self)),
            *old(self) is Left ==> *final(self) == Either::Left::<T, T>(*final(r)),
            *old(self) is Right ==> *final(self) == Either::Right::<T, T>(*final(r)),
    {
        match self {
            Either::Left(x) => x,
            Either::Right(x) => x,
        }
    }

    /// Returns a reference to what the carried value points at
    pub fn inner_deref(&self) -> (r: &<T as Deref>::Target) where T: Deref {
        match self {
            Either::Left(x) => x.deref(),
            Either::Right(x) => x.deref(),
        }
    }

    /// Returns a mutable reference to what the carried value points at
    pub fn inner_deref_mut(&mut self) -> (r: &mut <T as Deref>::Target) where T: DerefMut {
        match self {
            Either::Left(x) => x.deref_mut(),
            Either::Right(x) => x.deref_mut(),
        }
    }
}

impl<'a, T: Deref> Either<T, &'a <T as Deref>::Target> {
    /// Collapses into a reference to the target type, dereferencing a left value
    pub fn as_inner_right_deref(&self) -> (r: &<T as Deref>::Target)
        ensures
            self is Right ==> r == self->Right_0,
    {
        match self {
            Either::Left(x) => x.deref(),
            Either::Right(x) => x,
        }
    }
}

impl<'a, T: Deref> Either<&'a <T as Deref>::Target, T> {
    /// Collapses into a reference to the target type, dereferencing a right value
    pub fn as_inner_left_deref(&self) -> (r: &<T as Deref>::Target)
        ensures
            self is Left ==> r == self->Left_0,
    {
        match self {
            Either::Left(x) => x,
            Either::Right(x) => x.deref(),
        }
    }
}

impl<T> Either<T, Option<T>> {
    /// Collapses a right-side option: a left value always counts as present
    pub fn flatten_inner_right_option(self) -> (r: Option<T>)
        ensures
            r == (match self {
                Either::Left(x) => Some(x),
                Either::Right(o) => o,
            }),
    {
        match self {
            Either::Left(x) => Some(x),
            Either::Right(Some(x)) => Some(x),
            _ => None,
        }
    }
}

impl<T, E> Either<T, Result<T, E>> {
    /// Collapses a right-side result: a left value always counts as success
    pub fn flatten_inner_right_result(self) -> (r: Result<T, E>)
        ensures
            r == (match self {
                Either::Left(x) => Ok::<T, E>(x),
                Either::Right(res) => res,
            }),
    {
        match self {
            Either::Left(x) => Ok(x),
            Either::Right(Ok(x)) => Ok(x),
            Either::Right(Err(e)) => Err(e),
        }
    }
}

impl<T> Either<Option<T>, T> {
    /// Collapses a left-side option: a right value always counts as present
    pub fn flatten_inner_left_option(self) -> (r: Option<T>)
        ensures
            r == (match self {
                Either::Left(o) => o,
                Either::Right(x) => Some(x),
            }),
    {
        match self {
            Either::Right(x) => Some(x),
            Either::Left(Some(x)) => Some(x),
            _ => None,
        }
    }
}

impl<T, E> Either<Result<T, E>, T> {
    /// Collapses a left-side result: a right value always counts as success
    pub fn flatten_inner_left_result(self) -> (r: Result<T, E>)
        ensures
            r == (match self {
                Either::Left(res) => res,
                Either::Right(x) => Ok::<T, E>(x),
            }),
    {
        match self {
            Either::Right(x) => Ok(x),
            Either::Left(Ok(x)) => Ok(x),
            Either::Left(Err(e)) => Err(e),
        }
    }
}

} // verus!
