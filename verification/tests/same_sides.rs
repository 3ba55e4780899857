use elor::prelude::{Left, Right};
use elor::{Boo, Either, LeftRight};
use elor::iter::LRIter;

#[test]
fn left_right_exposes_the_single_value() {
    let l: LeftRight<i32> = Left(4);
    let r: LeftRight<i32> = Right(5);
    assert_eq!(*l.inner_ref(), 4);
    assert_eq!(*r.inner_ref(), 5);
    assert_eq!(l.into_inner(), 4);
    assert_eq!(r.into_inner(), 5);
}

#[test]
fn inner_mut_writes_through() {
    let mut l: LeftRight<i32> = Left(4);
    *l.inner_mut() = 6;
    assert_eq!(l, Left(6));
    let mut r: LeftRight<i32> = Right(4);
    *r.inner_mut() = 8;
    assert_eq!(r, Right(8));
}

#[test]
fn inner_deref_reaches_the_target() {
    let l: LeftRight<String> = Left("abc".to_string());
    assert_eq!(l.inner_deref(), "abc");
    let mut r: LeftRight<String> = Right("abc".to_string());
    r.inner_deref_mut().make_ascii_uppercase();
    assert_eq!(r.into_inner(), "ABC");
}

#[test]
fn as_inner_deref_collapses_mixed_pairs() {
    let owned = "abc".to_string();
    let l: Either<String, &str> = Left(owned.clone());
    assert_eq!(l.as_inner_right_deref(), "abc");
    let r: Either<String, &str> = Right("xyz");
    assert_eq!(r.as_inner_right_deref(), "xyz");

    let l2: Either<&str, String> = Left("pqr");
    assert_eq!(l2.as_inner_left_deref(), "pqr");
    let r2: Either<&str, String> = Right(owned);
    assert_eq!(r2.as_inner_left_deref(), "abc");
}

#[test]
fn flatten_inner_sides() {
    let a: Either<i32, Option<i32>> = Left(1);
    assert_eq!(a.flatten_inner_right_option(), Some(1));
    let b: Either<i32, Option<i32>> = Right(None);
    assert_eq!(b.flatten_inner_right_option(), None);
    let c: Either<i32, Result<i32, &str>> = Right(Err("e"));
    assert_eq!(c.flatten_inner_right_result(), Err("e"));
    let d: Either<i32, Result<i32, &str>> = Left(5);
    assert_eq!(d.flatten_inner_right_result(), Ok(5));

    let e: Either<Option<i32>, i32> = Right(2);
    assert_eq!(e.flatten_inner_left_option(), Some(2));
    let f: Either<Option<i32>, i32> = Left(None);
    assert_eq!(f.flatten_inner_left_option(), None);
    let g: Either<Result<i32, &str>, i32> = Left(Err("e"));
    assert_eq!(g.flatten_inner_left_result(), Err("e"));
    let h: Either<Result<i32, &str>, i32> = Right(3);
    assert_eq!(h.flatten_inner_left_result(), Ok(3));
}

#[test]
fn borrowed_or_owned_share_one_view() {
    let value = 41;
    let borrowed: Boo<i32> = Left(&value);
    assert_eq!(*borrowed.as_inner_ref(), 41);
    let owned: Boo<i32> = Right(42);
    assert_eq!(*owned.as_inner_ref(), 42);
}

#[test]
fn into_boxed_moves_the_value_inward() {
    let l: Either<Box<i32>, Box<&str>> = Left(Box::new(5));
    assert_eq!(*l.into_boxed(), Left(5));
    let r: Either<Box<i32>, Box<&str>> = Right(Box::new("s"));
    assert_eq!(*r.into_boxed(), Right("s"));
}

#[test]
fn conversions_from_option_and_result() {
    let some: Either<i32, ()> = Either::from(Some(3));
    assert_eq!(some, Left(3));
    let none: Either<i32, ()> = Either::from(None);
    assert_eq!(none, Right(()));
    let ok: Either<i32, &str> = Either::from(Ok::<i32, &str>(1));
    assert_eq!(ok, Left(1));
    let err: Either<i32, &str> = Either::from(Err::<i32, &str>("e"));
    assert_eq!(err, Right("e"));
}

#[test]
fn lr_iter_wraps_and_unwraps() {
    let e: Either<Vec<i32>, Vec<i32>> = Left(vec![1, 2]);
    let wrapped: LRIter<Vec<i32>, Vec<i32>> = e.clone().into_same_iter();
    assert_eq!(wrapped.into_inner(), e);
    let direct = LRIter::new(Right::<Vec<i32>, Vec<i32>>(vec![3]));
    assert_eq!(direct.into_inner(), Right(vec![3]));
}
