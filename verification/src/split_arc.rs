//! Lock-based channel views: two independently-lived handles over one shared
//! split, safe to pull from independent threads.
//!
//! The shared state sits behind a verified reader-writer lock, so every pull
//! holds exclusive access while it advances the source — access to the source
//! is serialized, as the split's invariant demands. The lock primitive used
//! here has no poisoned state, so there is none to recover from: a pull either
//! holds the lock or waits for it. The contracts that matter stand on
//! [`SplitState::next_left`] and [`SplitState::next_right`]; these handles
//! only route the shared state through those transitions.

use vstd::prelude::*;
use vstd::rwlock::RwLock;
use vstd::rwlock::RwLockPredicate;
use crate::either::Either;
use crate::split::SplitState;
use std::sync::Arc;

verus! {

/// The lock's invariant on the shared state: every split state is a valid one,
/// so any value may be stored
pub struct AnySplit;

impl<A, B> RwLockPredicate<SplitState<A, B>> for AnySplit {
    open spec fn inv(self, v: SplitState<A, B>) -> bool {
        true
    }
}

/// Channel view delivering the left-channel elements of a shared split.
/// Safe to pull from its own thread while the right view is pulled from
/// another; adds lock overhead over the cooperative counterpart.
#[verifier::reject_recursive_types(A)]
#[verifier::reject_recursive_types(B)]
pub struct SplitLeftArc<A, B> {
    shared: Arc<RwLock<SplitState<A, B>, AnySplit>>,
}

/// Channel view delivering the right-channel elements of a shared split.
/// Safe to pull from its own thread while the left view is pulled from
/// another; adds lock overhead over the cooperative counterpart.
#[verifier::reject_recursive_types(A)]
#[verifier::reject_recursive_types(B)]
pub struct SplitRightArc<A, B> {
    shared: Arc<RwLock<SplitState<A, B>, AnySplit>>,
}

/// Wraps a split into its pair of lock-based channel views, atomically with
/// respect to each other: both handles share the very same state, so no
/// element can be lost between their construction
pub(crate) fn split_state_arc<A, B>(st: SplitState<A, B>) -> (r: (SplitLeftArc<A, B>,
    SplitRightArc<A, B>,
)) {
    let lock = RwLock::new(st, Ghost(AnySplit));
    let shared = Arc::new(lock);
    (SplitLeftArc { shared: shared.clone() }, SplitRightArc { shared })
}

impl<A, B> SplitLeftArc<A, B> {
    /// Pulls the next left-channel element, or reports end-of-sequence,
    /// holding the shared lock for the whole advance
    pub fn next(&mut self) -> (r: Option<A>) {
        let (mut st, handle) = (&*self.shared).acquire_write();
        let r = st.next_left();
        handle.release_write(st);
        r
    }

    /// The left channel's remaining-size estimate, advisory only under
    /// concurrent pulls; the formula is that of [`SplitState::size_hint_left`]
    pub fn size_hint(&self) -> (r: (usize, Option<usize>))
        ensures
            r.1 == Some(r.0),
    {
        let (st, handle) = (&*self.shared).acquire_write();
        let r = st.size_hint_left();
        handle.release_write(st);
        r
    }
}

impl<A, B> SplitRightArc<A, B> {
    /// Pulls the next right-channel element, or reports end-of-sequence,
    /// holding the shared lock for the whole advance
    pub fn next(&mut self) -> (r: Option<B>) {
        let (mut st, handle) = (&*self.shared).acquire_write();
        let r = st.next_right();
        handle.release_write(st);
        r
    }

    /// The right channel's remaining-size estimate, advisory only under
    /// concurrent pulls; the formula is that of [`SplitState::size_hint_right`]
    pub fn size_hint(&self) -> (r: (usize, Option<usize>))
        ensures
            r.1 == Some(r.0),
    {
        let (st, handle) = (&*self.shared).acquire_write();
        let r = st.size_hint_right();
        handle.release_write(st);
        r
    }
}

impl<A, B> Clone for SplitLeftArc<A, B> {
    /// A shallow copy: the new handle shares the same split
    fn clone(&self) -> (r: Self) {
        SplitLeftArc { shared: self.shared.clone() }
    }
}

impl<A, B> Clone for SplitRightArc<A, B> {
    /// A shallow copy: the new handle shares the same split
    fn clone(&self) -> (r: Self) {
        SplitRightArc { shared: self.shared.clone() }
    }
}

} // verus!
