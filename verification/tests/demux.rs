use elor::prelude::{Left, Right};
use elor::Either;
use elor::iter::{EitherIter, SplitLeft, SplitRight};

fn tagged(input: &[Either<i32, i32>]) -> Vec<Either<i32, i32>> {
    input.to_vec()
}

fn drain_left(view: &mut SplitLeft<i32, i32>) -> Vec<i32> {
    let mut seen = Vec::new();
    while let Some(x) = view.next() {
        seen.push(x);
    }
    seen
}

fn drain_right(view: &mut SplitRight<i32, i32>) -> Vec<i32> {
    let mut seen = Vec::new();
    while let Some(x) = view.next() {
        seen.push(x);
    }
    seen
}

// A-view drained first yields the left-tagged payloads in order; B-view
// afterwards yields the right-tagged ones in order.
#[test]
fn drain_a_first_then_b() {
    let input = tagged(&[Left(1), Right(10), Left(2), Left(3), Right(20)]);
    let (mut a, mut b) = input.split_either();
    assert_eq!(drain_left(&mut a), vec![1, 2, 3]);
    assert_eq!(drain_right(&mut b), vec![10, 20]);
}

// An empty input: both views immediately report end-of-sequence.
#[test]
fn empty_input_both_views_end() {
    let input = tagged(&[]);
    let (mut a, mut b) = input.split_either();
    assert_eq!(a.next(), None);
    assert_eq!(b.next(), None);
    assert_eq!(a.next(), None);
}

// Only left-tagged input: the B-view reports end-of-sequence after one full
// source drain, and the A-view yields every element in order.
#[test]
fn only_left_tagged_input() {
    let input = tagged(&[Left(7), Left(8), Left(9)]);
    let (mut a, mut b) = input.split_either();
    assert_eq!(b.next(), None);
    assert_eq!(drain_left(&mut a), vec![7, 8, 9]);
    assert_eq!(b.next(), None);
}

// Extreme skew: draining one view fully, never touching the other, still
// hands the other view's buffer every mismatched element in order.
#[test]
fn skewed_drain_buffers_other_channel() {
    let input = tagged(&[Right(1), Left(100), Right(2), Right(3), Left(200), Right(4)]);
    let (mut a, mut b) = input.split_either();
    assert_eq!(drain_left(&mut a), vec![100, 200]);
    // everything right-tagged was buffered along the way, in original order
    assert_eq!(b.size_hint(), (4, Some(4)));
    assert_eq!(drain_right(&mut b), vec![1, 2, 3, 4]);
}

// Independent lifetime: dropping one view, then draining the other, yields
// exactly the survivor's channel in original relative order.
#[test]
fn dropped_view_leaves_other_intact() {
    let input = tagged(&[Right(1), Left(100), Right(2), Left(200)]);
    let (a, mut b) = input.split_either();
    drop(a);
    assert_eq!(drain_right(&mut b), vec![1, 2]);

    let input = tagged(&[Right(1), Left(100), Right(2), Left(200)]);
    let (mut a, b) = input.split_either();
    assert_eq!(a.next(), Some(100));
    drop(b);
    assert_eq!(drain_left(&mut a), vec![200]);
}

// Conservation: across both views every element is delivered exactly once.
#[test]
fn every_element_delivered_exactly_once() {
    let input = tagged(&[Left(1), Right(2), Right(3), Left(4), Left(5), Right(6), Left(7)]);
    let total = input.len();
    let (mut a, mut b) = input.split_either();
    let la = drain_left(&mut a);
    let lb = drain_right(&mut b);
    assert_eq!(la.len() + lb.len(), total);
    assert_eq!(la, vec![1, 4, 5, 7]);
    assert_eq!(lb, vec![2, 3, 6]);
}

// Alternating pulls interleave correctly: each view sees only its channel,
// in order, however the pulls are interleaved.
#[test]
fn alternating_pulls() {
    let input = tagged(&[Left(1), Right(10), Left(2), Right(20), Right(30), Left(3)]);
    let (mut a, mut b) = input.split_either();
    assert_eq!(a.next(), Some(1));
    assert_eq!(b.next(), Some(10));
    assert_eq!(b.next(), Some(20));
    assert_eq!(a.next(), Some(2));
    assert_eq!(b.next(), Some(30));
    assert_eq!(b.next(), None);
    assert_eq!(a.next(), Some(3));
    assert_eq!(a.next(), None);
}

// Stable bipartition: re-interleaving the two delivered sequences by the
// original tags reproduces the input exactly.
#[test]
fn delivered_channels_reconstruct_the_input() {
    let input = tagged(&[Right(10), Left(1), Left(2), Right(20), Left(3), Right(30)]);
    let reference = input.clone();
    let (mut a, mut b) = input.split_either();
    let la = drain_left(&mut a);
    let lb = drain_right(&mut b);
    let mut ai = la.into_iter();
    let mut bi = lb.into_iter();
    let mut rebuilt: Vec<Either<i32, i32>> = Vec::new();
    for e in &reference {
        match e {
            Left(_) => rebuilt.push(Left(ai.next().unwrap())),
            Right(_) => rebuilt.push(Right(bi.next().unwrap())),
        }
    }
    assert!(ai.next().is_none());
    assert!(bi.next().is_none());
    assert_eq!(rebuilt, reference);
}

// A cloned view shares the same underlying split: what one clone consumes,
// the other does not see again.
#[test]
fn cloned_view_shares_state() {
    let input = tagged(&[Left(1), Left(2), Left(3)]);
    let (a, _b) = input.split_either();
    let mut first = a.clone();
    let mut second = a;
    assert_eq!(first.next(), Some(1));
    assert_eq!(second.next(), Some(2));
    assert_eq!(first.next(), Some(3));
    assert_eq!(second.next(), None);
}

// The size estimate on a source with exact bound 5: after the A-view consumed
// two left-tagged elements, one right-tagged element sits buffered behind
// them. The A-view's estimate is the un-pulled remainder with nothing
// buffered for itself; the B-view's additionally counts its buffered element.
#[test]
fn size_estimates_after_partial_drain() {
    let input = tagged(&[Left(1), Right(10), Left(2), Left(3), Right(20)]);
    let (mut a, b) = input.split_either();
    assert_eq!(a.size_hint(), (5, Some(5)));
    assert_eq!(b.size_hint(), (5, Some(5)));
    assert_eq!(a.next(), Some(1));
    assert_eq!(a.next(), Some(2));
    // three source elements were pulled; one right-tagged one is buffered
    assert_eq!(a.size_hint(), (2, Some(2)));
    assert_eq!(b.size_hint(), (3, Some(3)));
}
