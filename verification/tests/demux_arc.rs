use elor::prelude::{Left, Right};
use elor::Either;
use elor::iter::{EitherIter, SplitLeftArc, SplitRightArc};

fn drain_left_arc(view: &mut SplitLeftArc<i32, i32>) -> Vec<i32> {
    let mut seen = Vec::new();
    while let Some(x) = view.next() {
        seen.push(x);
    }
    seen
}

fn drain_right_arc(view: &mut SplitRightArc<i32, i32>) -> Vec<i32> {
    let mut seen = Vec::new();
    while let Some(x) = view.next() {
        seen.push(x);
    }
    seen
}

// The lock-based views give the same per-channel sequences as the
// cooperative ones when drained one after the other.
#[test]
fn arc_drain_a_first_then_b() {
    let input: Vec<Either<i32, i32>> = vec![Left(1), Right(10), Left(2), Left(3), Right(20)];
    let (mut a, mut b) = input.split_either_arc();
    assert_eq!(drain_left_arc(&mut a), vec![1, 2, 3]);
    assert_eq!(drain_right_arc(&mut b), vec![10, 20]);
}

#[test]
fn arc_empty_input_both_views_end() {
    let input: Vec<Either<i32, i32>> = vec![];
    let (mut a, mut b) = input.split_either_arc();
    assert_eq!(a.next(), None);
    assert_eq!(b.next(), None);
}

// Interleaved pulls on the lock-based views: each sees its own channel in
// order, and across both nothing is lost or duplicated.
#[test]
fn arc_alternating_pulls_conserve_elements() {
    let input: Vec<Either<i32, i32>> =
        vec![Right(10), Left(1), Right(20), Right(30), Left(2), Left(3)];
    let total = input.len();
    let (mut a, mut b) = input.split_either_arc();
    let mut seen_a = Vec::new();
    let mut seen_b = Vec::new();
    loop {
        let ra = a.next();
        let rb = b.next();
        if let Some(x) = ra {
            seen_a.push(x);
        }
        if let Some(x) = rb {
            seen_b.push(x);
        }
        if ra.is_none() && rb.is_none() {
            break;
        }
    }
    assert_eq!(seen_a, vec![1, 2, 3]);
    assert_eq!(seen_b, vec![10, 20, 30]);
    assert_eq!(seen_a.len() + seen_b.len(), total);
}

// Each view moved into a scope of its own and drained there, one writer per
// channel: the two channels arrive complete, in per-channel order.
#[test]
fn arc_one_dedicated_consumer_per_view() {
    let input: Vec<Either<i32, i32>> =
        vec![Left(1), Right(10), Left(2), Right(20), Left(3), Right(30), Left(4)];
    let (a, b) = input.split_either_arc();
    let mut consume_a = move || {
        let mut a = a;
        drain_left_arc(&mut a)
    };
    let mut consume_b = move || {
        let mut b = b;
        drain_right_arc(&mut b)
    };
    let seen_a = consume_a();
    let seen_b = consume_b();
    assert_eq!(seen_a, vec![1, 2, 3, 4]);
    assert_eq!(seen_b, vec![10, 20, 30]);
}

#[test]
fn arc_size_estimates_after_partial_drain() {
    let input: Vec<Either<i32, i32>> = vec![Left(1), Right(10), Left(2), Left(3), Right(20)];
    let (mut a, b) = input.split_either_arc();
    assert_eq!(a.size_hint(), (5, Some(5)));
    assert_eq!(a.next(), Some(1));
    assert_eq!(a.next(), Some(2));
    assert_eq!(a.size_hint(), (2, Some(2)));
    assert_eq!(b.size_hint(), (3, Some(3)));
}

#[test]
fn arc_cloned_view_shares_state() {
    let input: Vec<Either<i32, i32>> = vec![Left(1), Left(2)];
    let (a, _b) = input.split_either_arc();
    let mut first = a.clone();
    let mut second = a;
    assert_eq!(first.next(), Some(1));
    assert_eq!(second.next(), Some(2));
    assert_eq!(first.next(), None);
}
