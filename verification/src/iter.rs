//! Splitting a sequence of tagged elements into its two channels, and the
//! adapter pairing two sources of one item type.

use vstd::prelude::*;
use crate::either::Either;
use crate::split::SplitState;
use crate::split_rc::split_state_rc;
use crate::split_arc::split_state_arc;

pub use crate::split_rc::SplitLeft;
pub use crate::split_rc::SplitRight;
pub use crate::split_arc::SplitLeftArc;
pub use crate::split_arc::SplitRightArc;

verus! {

/// An `Either` of two producers of one item type, held as one value
pub struct LRIter<A, B>(Either<A, B>);

impl<A, B> Either<A, B> {
    /// Turns an `Either` of two same-item producers into one producer
    pub fn into_same_iter(self) -> (r: LRIter<A, B>)
        ensures
            r.inner() == self,
    {
        LRIter::new(self)
    }
}

impl<A, B> LRIter<A, B> {
    /// Whichever producer the adapter carries
    pub closed spec fn inner(self) -> Either<A, B> {
        self.0
    }

    /// Wraps an `Either` of producers
    pub fn new(iter: Either<A, B>) -> (r: Self)
        ensures
            r.inner() == iter,
    {
        LRIter(iter)
    }

    /// Hands the wrapped `Either` back
    pub fn into_inner(self) -> (r: Either<A, B>)
        ensures
            r == self.inner(),
    {
        self.0
    }
}

/// A finite source of tagged elements that can be split into its two channels
pub trait EitherIter<A, B>: Sized {
    /// The tagged elements this source holds, in order
    spec fn elems(self) -> Seq<Either<A, B>>;

    /// Hands the source over as one tagged sequence with nothing pulled yet;
    /// everything the two channels will deliver is pinned down by the
    /// contracts on [`SplitState`]
    fn split_state(self) -> (s: SplitState<A, B>)
        ensures
            s.remaining() == self.elems(),
            s.pending_left() == Seq::<A>::empty(),
            s.pending_right() == Seq::<B>::empty(),
    ;

    /// Returns two separate views that deliver the left and the right values
    /// separately. These views are **not thread-safe**, but maintain item
    /// order and have less overhead than their thread-safe counterparts.
    fn split_either(self) -> (r: (SplitLeft<A, B>, SplitRight<A, B>));

    /// Returns two separate views that deliver the left and the right values
    /// separately. These views are **thread-safe**, but add more overhead
    /// than their non-thread-safe counterparts.
    fn split_either_arc(self) -> (r: (SplitLeftArc<A, B>, SplitRightArc<A, B>));
}

impl<A, B> EitherIter<A, B> for Vec<Either<A, B>> {
    open spec fn elems(self) -> Seq<Either<A, B>> {
        self@
    }

    fn split_state(self) -> (s: SplitState<A, B>) {
        SplitState::new(self)
    }

    fn split_either(self) -> (r: (SplitLeft<A, B>, SplitRight<A, B>)) {
        split_state_rc(SplitState::new(self))
    }

    fn split_either_arc(self) -> (r: (SplitLeftArc<A, B>, SplitRightArc<A, B>)) {
        split_state_arc(SplitState::new(self))
    }
}

} // verus!
