//! Cooperative channel views: two independently-lived handles over one shared
//! split, for use from a single logical thread of control.
//!
//! The two handles share the split state through a reference-counted cell.
//! Each pull takes the state out of the cell, advances it through the verified
//! transition of [`SplitState`], and puts it back; the cell itself is the only
//! part taken on trust, and the contracts that matter stand on
//! [`SplitState::next_left`] and [`SplitState::next_right`].

use vstd::prelude::*;
use crate::either::Either;
use crate::split::SplitState;
use core::cell::RefCell;
use std::rc::Rc;

verus! {

#[verifier::external_type_specification]
#[verifier::external_body]
#[verifier::reject_recursive_types(T)]
pub struct ExRefCell<T: ?Sized>(RefCell<T>);

/// Relies on core::cell::RefCell::new: wraps a value in a fresh cell.
pub assume_specification<T>[ RefCell::<T>::new ](value: T) -> (c: RefCell<T>);

/// Relies on core::cell::RefCell::replace: swaps the cell's content for the
/// given value and hands the previous content back. It panics only while the
/// content is borrowed, and no function of this crate ever holds a borrow of
/// such a cell across any call.
pub assume_specification<T>[ RefCell::<T>::replace ](cell: &RefCell<T>, t: T) -> (prev: T);

/// Channel view delivering the left-channel elements of a shared split.
/// Not safe to move across threads; preserves per-channel order and has
/// less overhead than its lock-based counterpart.
#[verifier::reject_recursive_types(A)]
#[verifier::reject_recursive_types(B)]
pub struct SplitLeft<A, B> {
    shared: Rc<RefCell<SplitState<A, B>>>,
}

/// Channel view delivering the right-channel elements of a shared split.
/// Not safe to move across threads; preserves per-channel order and has
/// less overhead than its lock-based counterpart.
#[verifier::reject_recursive_types(A)]
#[verifier::reject_recursive_types(B)]
pub struct SplitRight<A, B> {
    shared: Rc<RefCell<SplitState<A, B>>>,
}

/// Wraps a split into its pair of cooperative channel views, atomically with
/// respect to each other: both handles share the very same state, so no
/// element can be lost between their construction
pub(crate) fn split_state_rc<A, B>(st: SplitState<A, B>) -> (r: (SplitLeft<A, B>, SplitRight<
    A,
    B,
>)) {
    let shared = Rc::new(RefCell::new(st));
    (SplitLeft { shared: shared.clone() }, SplitRight { shared })
}

impl<A, B> SplitLeft<A, B> {
    /// Pulls the next left-channel element, or reports end-of-sequence.
    /// What a pull delivers, and that the right channel loses nothing by it,
    /// is stated and proved on [`SplitState::next_left`]; this handle only
    /// routes the shared state through that transition.
    pub fn next(&mut self) -> (r: Option<A>) {
        let cell = &*self.shared;
        let mut st = cell.replace(SplitState::empty());
        let r = st.next_left();
        let _ = cell.replace(st);
        r
    }

    /// The left channel's remaining-size estimate: buffered elements plus the
    /// source's remaining bound, per [`SplitState::size_hint_left`]
    pub fn size_hint(&self) -> (r: (usize, Option<usize>))
        ensures
            r.1 == Some(r.0),
    {
        let cell = &*self.shared;
        let st = cell.replace(SplitState::empty());
        let r = st.size_hint_left();
        let _ = cell.replace(st);
        r
    }
}

impl<A, B> SplitRight<A, B> {
    /// Pulls the next right-channel element, or reports end-of-sequence.
    /// The contract stands on [`SplitState::next_right`].
    pub fn next(&mut self) -> (r: Option<B>) {
        let cell = &*self.shared;
        let mut st = cell.replace(SplitState::empty());
        let r = st.next_right();
        let _ = cell.replace(st);
        r
    }

    /// The right channel's remaining-size estimate, per
    /// [`SplitState::size_hint_right`]
    pub fn size_hint(&self) -> (r: (usize, Option<usize>))
        ensures
            r.1 == Some(r.0),
    {
        let cell = &*self.shared;
        let st = cell.replace(SplitState::empty());
        let r = st.size_hint_right();
        let _ = cell.replace(st);
        r
    }
}

impl<A, B> Clone for SplitLeft<A, B> {
    /// A shallow copy: the new handle shares the same split
    fn clone(&self) -> (r: Self) {
        SplitLeft { shared: self.shared.clone() }
    }
}

impl<A, B> Clone for SplitRight<A, B> {
    /// A shallow copy: the new handle shares the same split
    fn clone(&self) -> (r: Self) {
        SplitRight { shared: self.shared.clone() }
    }
}

} // verus!
