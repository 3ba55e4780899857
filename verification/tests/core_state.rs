use elor::prelude::{Left, Right};
use elor::{Either, SplitState};
use elor::iter::EitherIter;

// Driving the shared split state directly: pulls for either channel may be
// interleaved freely, and each channel still sees exactly its payloads in
// original order.
#[test]
fn split_state_pulls_both_channels() {
    let input: Vec<Either<i32, i32>> = vec![Left(1), Right(10), Left(2), Left(3), Right(20)];
    let mut st = SplitState::new(input);
    assert_eq!(st.size_hint_left(), (5, Some(5)));
    assert_eq!(st.next_right(), Some(10));
    // one left-tagged element was buffered while reaching the first right one
    assert_eq!(st.size_hint_left(), (4, Some(4)));
    assert_eq!(st.next_left(), Some(1));
    assert_eq!(st.next_left(), Some(2));
    assert_eq!(st.next_left(), Some(3));
    assert_eq!(st.next_left(), None);
    assert_eq!(st.next_right(), Some(20));
    assert_eq!(st.next_right(), None);
    assert_eq!(st.size_hint_left(), (0, Some(0)));
    assert_eq!(st.size_hint_right(), (0, Some(0)));
}

#[test]
fn split_state_empty_is_exhausted() {
    let mut st: SplitState<i32, i32> = SplitState::empty();
    assert_eq!(st.next_left(), None);
    assert_eq!(st.next_right(), None);
}

#[test]
fn split_state_from_source_trait() {
    let input: Vec<Either<i32, i32>> = vec![Right(10), Right(20), Left(1)];
    let mut st = input.split_state();
    assert_eq!(st.next_left(), Some(1));
    // both right-tagged elements were buffered along the way, in order
    assert_eq!(st.size_hint_right(), (2, Some(2)));
    assert_eq!(st.next_right(), Some(10));
    assert_eq!(st.next_right(), Some(20));
    assert_eq!(st.next_right(), None);
}

// Interleaving pulls by an explicit schedule: each channel receives exactly
// its elements in order, however the pulls are woven together.
#[test]
fn schedule_interleaves_without_loss() {
    let input: Vec<Either<i32, i32>> =
        vec![Left(1), Right(10), Right(20), Left(2), Left(3), Right(30)];
    let mut st = SplitState::new(input);
    // left, right, right, left, right, left, and two idle pulls at the end
    let schedule = vec![true, false, false, true, false, true, true, false];
    let (la, lb) = st.pull_by_schedule(&schedule);
    assert_eq!(la, vec![1, 2, 3]);
    assert_eq!(lb, vec![10, 20, 30]);
}

// A schedule skewed entirely to one channel delivers that channel alone and
// leaves the other complete for later.
#[test]
fn schedule_skewed_to_one_channel() {
    let input: Vec<Either<i32, i32>> = vec![Right(10), Left(1), Right(20), Left(2)];
    let mut st = SplitState::new(input);
    let (la, lb) = st.pull_by_schedule(&vec![true, true, true]);
    assert_eq!(la, vec![1, 2]);
    assert_eq!(lb, Vec::<i32>::new());
    let (la2, lb2) = st.pull_by_schedule(&vec![false, false, false]);
    assert_eq!(la2, Vec::<i32>::new());
    assert_eq!(lb2, vec![10, 20]);
}
