//! The two-sided value type and its basic adapters.

use vstd::prelude::*;
use vstd::pervasive::cloned;
use core::ops::Deref;

verus! {

/// Generic data type that represents either a value
/// that's of one type or another.
#[derive(Debug, Clone, Copy, PartialEq, Eq, Hash, PartialOrd)]
pub enum Either<A, B> {
    Left(A),
    Right(B),
}

impl<A, B> Either<A, B> {
    /// Returns `true` if the value is a `Left`
    pub fn is_left(&self) -> (r: bool)
        ensures
            r == (self is Left),
    {
        matches!(self, Either::Left(_))
    }

    /// Returns `true` if the value is a `Right`
    pub fn is_right(&self) -> (r: bool)
        ensures
            r == (self is Right),
    {
        matches!(self, Either::Right(_))
    }

    /// Returns a new `Either` with a reference to the value inside
    pub fn as_ref(&self) -> (r: Either<&A, &B>)
        ensures
            self is Left <==> r is Left,
            self is Left ==> r->Left_0 == self->Left_0,
            self is Right ==> r->Right_0 == self->Right_0,
    {
        match self {
            Either::Left(x) => Either::Left(x),
            Either::Right(x) => Either::Right(x),
        }
    }

    /// Returns a new `Either` with a mutable reference to the value inside
    pub fn as_mut(&mut self) -> (r: Either<&mut A, &mut B>)
        ensures
            *old(self) is Left <==> r is Left,
            r matches Either::Left(m) ==> *m == (*old(self))->Left_0 && *final(self)
                == Either::Left::<A, B>(*final(m)),
            r matches Either::Right(m) ==> *m == (*old(self))->Right_0 && *final(self)
                == Either::Right::<A, B>(*final(m)),
    {
        match self {
            Either::Left(x) => Either::Left(x),
            Either::Right(x) => Either::Right(x),
        }
    }

    /// Returns a new `Either` with shared references to what each side points at
    pub fn as_deref(&self) -> (r: Either<&<A as Deref>::Target, &<B as Deref>::Target>) where
        A: Deref,
        B: Deref,

        ensures
            self is Left <==> r is Left,
    {
        match self {
            Either::Left(x) => Either::Left(x.deref()),
            Either::Right(x) => Either::Right(x.deref()),
        }
    }

    /// Returns a new `Either` with mutable references to what each side points at
    pub fn as_deref_mut(&mut self) -> (r: Either<
        &mut <A as Deref>::Target,
        &mut <B as Deref>::Target,
    >) where A: core::ops::DerefMut, B: core::ops::DerefMut
        ensures
            *old(self) is Left <==> r is Left,
    {
        match self {
            Either::Left(x) => Either::Left(x.deref_mut()),
            Either::Right(x) => Either::Right(x.deref_mut()),
        }
    }

    /// Returns a new `Either` with a clone of the value inside
    pub fn cloned(&self) -> (r: Either<A, B>) where A: Clone, B: Clone
        ensures
            self is Left <==> r is Left,
            self is Left ==> cloned::<A>(self->Left_0, r->Left_0),
            self is Right ==> cloned::<B>(self->Right_0, r->Right_0),
    {
        match self {
            Either::Left(x) => Either::Left(x.clone()),
            Either::Right(x) => Either::Right(x.clone()),
        }
    }

    /// Returns a new `Either` with a copy of the value inside
    pub fn copied(&self) -> (r: Either<A, B>) where A: Copy, B: Copy
        ensures
            r == *self,
    {
        match self {
            Either::Left(x) => Either::Left(*x),
            Either::Right(x) => Either::Right(*x),
        }
    }

    /// Converts a single `Either` into two `Option`s, exactly one of them occupied
    pub fn unzip(self) -> (r: (Option<A>, Option<B>))
        ensures
            self is Left ==> r == (Some(self->Left_0), None::<B>),
            self is Right ==> r == (None::<A>, Some(self->Right_0)),
    {
        match self {
            Either::Left(x) => (Some(x), None),
            Either::Right(x) => (None, Some(x)),
        }
    }

    /// Returns the left value; the caller must know the value is on the left
    pub fn expect_left(self, msg: &str) -> (r: A)
        requires
            self is Left,
        ensures
            r == self->Left_0,
    {
        match self {
            Either::Left(x) => x,
            Either::Right(_) => unreached(),
        }
    }

    /// Returns the right value; the caller must know the value is on the right
    pub fn expect_right(self, msg: &str) -> (r: B)
        requires
            self is Right,
        ensures
            r == self->Right_0,
    {
        match self {
            Either::Right(x) => x,
            Either::Left(_) => unreached(),
        }
    }

    /// Returns the left value, `None` otherwise
    pub fn left(self) -> (r: Option<A>)
        ensures
            self is Left ==> r == Some(self->Left_0),
            self is Right ==> r is None,
    {
        match self {
            Either::Left(x) => Some(x),
            Either::Right(_) => None,
        }
    }

    /// Returns the right value, `None` otherwise
    pub fn right(self) -> (r: Option<B>)
        ensures
            self is Right ==> r == Some(self->Right_0),
            self is Left ==> r is None,
    {
        match self {
            Either::Right(x) => Some(x),
            Either::Left(_) => None,
        }
    }

    /// Returns `Ok` if the value is on the left, otherwise returning an `Err` with the right-side value.
    pub fn ok_left(self) -> (r: Result<A, B>)
        ensures
            self is Left ==> r == Ok::<A, B>(self->Left_0),
            self is Right ==> r == Err::<A, B>(self->Right_0),
    {
        match self {
            Either::Left(x) => Ok(x),
            Either::Right(e) => Err(e),
        }
    }

    /// Returns `Ok` if the value is on the right, otherwise returning an `Err` with the left-side value.
    pub fn ok_right(self) -> (r: Result<B, A>)
        ensures
            self is Right ==> r == Ok::<B, A>(self->Right_0),
            self is Left ==> r == Err::<B, A>(self->Left_0),
    {
        match self {
            Either::Right(x) => Ok(x),
            Either::Left(e) => Err(e),
        }
    }

    /// Superseded by `left`
    pub fn some_left(self) -> (r: Option<A>)
        ensures
            self is Left ==> r == Some(self->Left_0),
            self is Right ==> r is None,
    {
        self.left()
    }

    /// Superseded by `right`
    pub fn some_right(self) -> (r: Option<B>)
        ensures
            self is Right ==> r == Some(self->Right_0),
            self is Left ==> r is None,
    {
        self.right()
    }

    /// Returns the left value; the caller must know the value is on the left
    pub fn unwrap_left(self) -> (r: A)
        requires
            self is Left,
        ensures
            r == self->Left_0,
    {
        self.expect_left("called `Either::unwrap_left()` on a `Right` value")
    }

    /// Returns the right value; the caller must know the value is on the right
    pub fn unwrap_right(self) -> (r: B)
        requires
            self is Right,
        ensures
            r == self->Right_0,
    {
        self.expect_right("called `Either::unwrap_right()` on a `Left` value")
    }

    /// Returns the left value with no run-time check: the caller's proof
    /// obligation that the value is on the left replaces the check
    pub fn unwrap_left_unchecked(self) -> (r: A)
        requires
            self is Left,
        ensures
            r == self->Left_0,
    {
        match self {
            Either::Left(x) => x,
            Either::Right(_) => unreached(),
        }
    }

    /// Returns the right value with no run-time check: the caller's proof
    /// obligation that the value is on the right replaces the check
    pub fn unwrap_right_unchecked(self) -> (r: B)
        requires
            self is Right,
        ensures
            r == self->Right_0,
    {
        match self {
            Either::Right(x) => x,
            Either::Left(_) => unreached(),
        }
    }

    /// Returns the left value, or the specified value if the value is on the right
    pub fn unwrap_left_or(self, default: A) -> (r: A)
        ensures
            self is Left ==> r == self->Left_0,
            self is Right ==> r == default,
    {
        match self {
            Either::Left(x) => x,
            Either::Right(_) => default,
        }
    }

    /// Returns the right value, or the specified value if the value is on the left
    pub fn unwrap_right_or(self, default: B) -> (r: B)
        ensures
            self is Right ==> r == self->Right_0,
            self is Left ==> r == default,
    {
        match self {
            Either::Right(x) => x,
            Either::Left(_) => default,
        }
    }

    /// Swaps the sides: a left value becomes a right one, and the other way round
    pub fn inverse(self) -> (r: Either<B, A>)
        ensures
            self is Left ==> r == Either::Right::<B, A>(self->Left_0),
            self is Right ==> r == Either::Left::<B, A>(self->Right_0),
    {
        match self {
            Either::Left(x) => Either::Right(x),
            Either::Right(x) => Either::Left(x),
        }
    }

    /// Returns the left value, or calls the specified function if the value is on the right
    pub fn unwrap_left_or_else<F: FnOnce() -> A>(self, f: F) -> (r: A)
        requires
            self is Right ==> call_requires(f, ()),
        ensures
            self is Left ==> r == self->Left_0,
            self is Right ==> call_ensures(f, (), r),
    {
        match self {
            Either::Left(x) => x,
            Either::Right(_) => f(),
        }
    }

    /// Returns the right value, or calls the specified function if the value is on the left
    pub fn unwrap_right_or_else<F: FnOnce() -> B>(self, f: F) -> (r: B)
        requires
            self is Left ==> call_requires(f, ()),
        ensures
            self is Right ==> r == self->Right_0,
            self is Left ==> call_ensures(f, (), r),
    {
        match self {
            Either::Right(x) => x,
            Either::Left(_) => f(),
        }
    }

    /// Maps each side through its own function, keeping the side
    pub fn map<X, Y, F: FnOnce(A) -> X, G: FnOnce(B) -> Y>(self, f: F, g: G) -> (r: Either<
        X,
        Y,
    >)
        requires
            self is Left ==> call_requires(f, (self->Left_0,)),
            self is Right ==> call_requires(g, (self->Right_0,)),
        ensures
            self is Left <==> r is Left,
            self is Left ==> call_ensures(f, (self->Left_0,), r->Left_0),
            self is Right ==> call_ensures(g, (self->Right_0,), r->Right_0),
    {
        match self {
            Either::Left(x) => Either::Left(f(x)),
            Either::Right(x) => Either::Right(g(x)),
        }
    }

    /// Maps a left value, passing a right one through unchanged
    pub fn map_left<T, F: FnOnce(A) -> T>(self, f: F) -> (r: Either<T, B>)
        requires
            self is Left ==> call_requires(f, (self->Left_0,)),
        ensures
            self is Left <==> r is Left,
            self is Left ==> call_ensures(f, (self->Left_0,), r->Left_0),
            self is Right ==> r->Right_0 == self->Right_0,
    {
        match self {
            Either::Left(x) => Either::Left(f(x)),
            Either::Right(x) => Either::Right(x),
        }
    }

    /// Maps a right value, passing a left one through unchanged
    pub fn map_right<T, F: FnOnce(B) -> T>(self, f: F) -> (r: Either<A, T>)
        requires
            self is Right ==> call_requires(f, (self->Right_0,)),
        ensures
            self is Left <==> r is Left,
            self is Right ==> call_ensures(f, (self->Right_0,), r->Right_0),
            self is Left ==> r->Left_0 == self->Left_0,
    {
        match self {
            Either::Left(x) => Either::Left(x),
            Either::Right(x) => Either::Right(f(x)),
        }
    }

    /// Collapses both sides into one result, each through its own function
    pub fn fold<T, F: FnOnce(A) -> T, G: FnOnce(B) -> T>(self, f: F, g: G) -> (r: T)
        requires
            self is Left ==> call_requires(f, (self->Left_0,)),
            self is Right ==> call_requires(g, (self->Right_0,)),
        ensures
            self is Left ==> call_ensures(f, (self->Left_0,), r),
            self is Right ==> call_ensures(g, (self->Right_0,), r),
    {
        match self {
            Either::Left(x) => f(x),
            Either::Right(x) => g(x),
        }
    }

    /// Collapses into the left type, converting a right value through the function
    pub fn fold_left<F: FnOnce(B) -> A>(self, f: F) -> (r: A)
        requires
            self is Right ==> call_requires(f, (self->Right_0,)),
        ensures
            self is Left ==> r == self->Left_0,
            self is Right ==> call_ensures(f, (self->Right_0,), r),
    {
        match self {
            Either::Left(x) => x,
            Either::Right(x) => f(x),
        }
    }

    /// Collapses into the right type, converting a left value through the function
    pub fn fold_right<F: FnOnce(A) -> B>(self, f: F) -> (r: B)
        requires
            self is Left ==> call_requires(f, (self->Left_0,)),
        ensures
            self is Right ==> r == self->Right_0,
            self is Left ==> call_ensures(f, (self->Left_0,), r),
    {
        match self {
            Either::Right(x) => x,
            Either::Left(x) => f(x),
        }
    }
}

impl<A, B> Either<Either<A, B>, B> {
    /// Flattens a nested left side whose own right type matches the outer right type
    pub fn flatten_left_right(self) -> (r: Either<A, B>)
        ensures
            r == (if self is Left {
                self->Left_0
            } else {
                Either::Right(self->Right_0)
            }),
    {
        match self {
            Either::Left(Either::Left(x)) => Either::Left(x),
            Either::Left(Either::Right(x)) => Either::Right(x),
            Either::Right(x) => Either::Right(x),
        }
    }
}

impl<A, B> Either<A, Either<A, B>> {
    /// Flattens a nested right side whose own left type matches the outer left type
    pub fn flatten_right_left(self) -> (r: Either<A, B>)
        ensures
            r == (if self is Right {
                self->Right_0
            } else {
                Either::Left(self->Left_0)
            }),
    {
        match self {
            Either::Right(Either::Left(x)) => Either::Left(x),
            Either::Right(Either::Right(x)) => Either::Right(x),
            Either::Left(x) => Either::Left(x),
        }
    }
}

impl<A, B> Either<Either<A, B>, A> {
    /// Flattens a nested left side; a bare outer right value counts as a left one
    pub fn flatten_left_left(self) -> (r: Either<A, B>)
        ensures
            r == (if self is Left {
                self->Left_0
            } else {
                Either::Left(self->Right_0)
            }),
    {
        match self {
            Either::Left(Either::Left(x)) => Either::Left(x),
            Either::Left(Either::Right(x)) => Either::Right(x),
            Either::Right(x) => Either::Left(x),
        }
    }
}

impl<A, B> Either<A, Either<B, A>> {
    /// Flattens a nested right side whose sides stand the other way round
    pub fn flatten_right_right(self) -> (r: Either<A, B>)
        ensures
            r == (match self {
                Either::Left(x) => Either::Left::<A, B>(x),
                Either::Right(inner) => match inner {
                    Either::Left(x) => Either::Right::<A, B>(x),
                    Either::Right(x) => Either::Left::<A, B>(x),
                },
            }),
    {
        match self {
            Either::Right(Either::Left(x)) => Either::Right(x),
            Either::Right(Either::Right(x)) => Either::Left(x),
            Either::Left(x) => Either::Left(x),
        }
    }
}

impl<A, B, EA, EB> Either<Result<A, EA>, Result<B, EB>> {
    /// Turns an either-of-results inside out into a result of eithers
    pub fn flatten_result(self) -> (r: Result<Either<A, B>, Either<EA, EB>>)
        ensures
            r == (match self {
                Either::Left(res) => match res {
                    Ok(x) => Ok::<Either<A, B>, Either<EA, EB>>(Either::Left(x)),
                    Err(e) => Err::<Either<A, B>, Either<EA, EB>>(Either::Left(e)),
                },
                Either::Right(res) => match res {
                    Ok(x) => Ok::<Either<A, B>, Either<EA, EB>>(Either::Right(x)),
                    Err(e) => Err::<Either<A, B>, Either<EA, EB>>(Either::Right(e)),
                },
            }),
    {
        match self {
            Either::Left(Ok(x)) => Ok(Either::Left(x)),
            Either::Left(Err(e)) => Err(Either::Left(e)),
            Either::Right(Ok(x)) => Ok(Either::Right(x)),
            Either::Right(Err(e)) => Err(Either::Right(e)),
        }
    }

    /// The inverse of `flatten_result`: turns a result of eithers into an either of results
    pub fn expand_result(result: Result<Either<A, B>, Either<EA, EB>>) -> (r: Self)
        ensures
            r == (match result {
                Ok(v) => match v {
                    Either::Left(x) => Either::Left::<Result<A, EA>, Result<B, EB>>(Ok(x)),
                    Either::Right(x) => Either::Right::<Result<A, EA>, Result<B, EB>>(Ok(x)),
                },
                Err(e) => match e {
                    Either::Left(x) => Either::Left::<Result<A, EA>, Result<B, EB>>(Err(x)),
                    Either::Right(x) => Either::Right::<Result<A, EA>, Result<B, EB>>(Err(x)),
                },
            }),
    {
        match result {
            Ok(Either::Left(x)) => Either::Left(Ok(x)),
            Ok(Either::Right(x)) => Either::Right(Ok(x)),
            Err(Either::Left(e)) => Either::Left(Err(e)),
            Err(Either::Right(e)) => Either::Right(Err(e)),
        }
    }
}

impl<A, B> Either<Option<A>, Option<B>> {
    /// Turns an either-of-options inside out into an option of eithers
    pub fn flatten_option(self) -> (r: Option<Either<A, B>>)
        ensures
            r == (match self {
                Either::Left(o) => match o {
                    Some(x) => Some(Either::Left::<A, B>(x)),
                    None => None::<Either<A, B>>,
                },
                Either::Right(o) => match o {
                    Some(x) => Some(Either::Right::<A, B>(x)),
                    None => None::<Either<A, B>>,
                },
            }),
    {
        match self {
            Either::Left(Some(x)) => Some(Either::Left(x)),
            Either::Right(Some(x)) => Some(Either::Right(x)),
            _ => None,
        }
    }
}

} // verus!
