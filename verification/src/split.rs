//! The demultiplexer core: one finite tagged source and the two pending
//! queues, advanced a single element at a time.
//!
//! A pull for one channel first drains that channel's own pending queue; only
//! when it is empty does it advance the shared source, routing each mismatched
//! element to the other channel's queue, until a match or exhaustion.

use vstd::prelude::*;
use crate::either::Either;
use crate::model::lefts;
use crate::model::rights;
use crate::model::leading_rights;
use crate::model::leading_lefts;
use crate::model::lemma_leading_lefts_is;
use crate::model::lemma_channels_of_concat;
use crate::model::lemma_channels_of_singleton;
use crate::model::lemma_channels_all_rights;
use crate::model::lemma_channels_all_lefts;
use crate::model::lemma_leading_rights_is;
use crate::model::lemma_no_loss_no_duplication;
use crate::model::count_true;
use crate::model::lemma_count_true_push;
use crate::model::lemma_count_true_bounds;
use vstd::math::min;
use std::collections::VecDeque;

verus! {

/// The shared state of one split: the undelivered rest of the tagged source,
/// and the buffered elements of each channel that were pulled from the source
/// while serving the other one.
pub struct SplitState<A, B> {
    source: VecDeque<Either<A, B>>,
    left_pending: VecDeque<A>,
    right_pending: VecDeque<B>,
}

impl<A, B> SplitState<A, B> {
    /// The source elements not yet pulled, oldest first
    pub closed spec fn remaining(self) -> Seq<Either<A, B>> {
        self.source@
    }

    /// Left-channel elements already pulled from the source but not yet delivered
    pub closed spec fn pending_left(self) -> Seq<A> {
        self.left_pending@
    }

    /// Right-channel elements already pulled from the source but not yet delivered
    pub closed spec fn pending_right(self) -> Seq<B> {
        self.right_pending@
    }

    /// Everything the left channel has still to deliver, in delivery order
    pub open spec fn avail_left(self) -> Seq<A> {
        self.pending_left() + lefts(self.remaining())
    }

    /// Everything the right channel has still to deliver, in delivery order
    pub open spec fn avail_right(self) -> Seq<B> {
        self.pending_right() + rights(self.remaining())
    }

    /// Wraps a finite tagged sequence as a fresh split: nothing pulled yet,
    /// both pending queues empty and pre-sized to the source's exact bound
    pub fn new(items: Vec<Either<A, B>>) -> (s: Self)
        ensures
            s.remaining() == items@,
            s.pending_left() == Seq::<A>::empty(),
            s.pending_right() == Seq::<B>::empty(),
    {
        let ghost all = items@;
        let mut items = items;
        let hint: usize = items.len();
        let mut source: VecDeque<Either<A, B>> = VecDeque::with_capacity(hint);
        while items.len() > 0
            invariant
                items@ + source@ == all,
            decreases items@.len(),
        {
            if let Some(x) = items.pop() {
                source.push_front(x);
                proof {
                    assert(items@ + source@ =~= all);
                }
            }
        }
        proof {
            assert(source@ =~= all);
        }
        SplitState {
            source,
            left_pending: VecDeque::with_capacity(hint),
            right_pending: VecDeque::with_capacity(hint),
        }
    }

    /// A split with nothing left to deliver on either channel
    pub fn empty() -> (s: Self)
        ensures
            s.remaining() == Seq::<Either<A, B>>::empty(),
            s.pending_left() == Seq::<A>::empty(),
            s.pending_right() == Seq::<B>::empty(),
    {
        SplitState { source: VecDeque::new(), left_pending: VecDeque::new(), right_pending: VecDeque::new() }
    }

    /// Pulls the next left-channel element, advancing the shared source past
    /// any right-tagged elements, which are buffered for the right channel in
    /// their original order; the right channel's future deliveries are untouched
    pub fn next_left(&mut self) -> (r: Option<A>)
        ensures
            final(self).avail_right() == old(self).avail_right(),
            old(self).avail_left().len() > 0 ==> r == Some(old(self).avail_left()[0])
                && final(self).avail_left() == old(self).avail_left().drop_first(),
            old(self).avail_left().len() == 0 ==> r is None && final(self).remaining().len() == 0
                && final(self).pending_right() == old(self).avail_right(),
            old(self).pending_left().len() > 0 ==> final(self).pending_left() == old(
                self,
            ).pending_left().drop_first() && final(self).remaining() == old(self).remaining()
                && final(self).pending_right() == old(self).pending_right(),
            old(self).pending_left().len() == 0 ==> ({
                let k = leading_rights(old(self).remaining());
                &&& final(self).pending_left().len() == 0
                &&& final(self).pending_right() == old(self).pending_right() + rights(
                    old(self).remaining().take(k),
                )
                &&& (lefts(old(self).remaining()).len() > 0 ==> final(self).remaining() == old(
                    self,
                ).remaining().skip(k + 1))
            }),
    {
        let ghost o = *self;
        if let Some(a) = self.left_pending.pop_front() {
            proof {
                assert(o.avail_left()[0] == a);
                assert(self.avail_left() =~= o.avail_left().drop_first());
                assert(self.avail_right() =~= o.avail_right());
            }
            return Some(a);
        }
        let ghost mut j: int = 0;
        loop
            invariant
                o == *old(self),
                0 <= j <= o.source@.len(),
                self.source@ == o.source@.skip(j),
                forall|i: int| 0 <= i < j ==> o.source@[i] is Right,
                self.left_pending@.len() == 0,
                o.left_pending@.len() == 0,
                self.right_pending@ == o.right_pending@ + rights(o.source@.take(j)),
            decreases o.source@.len() - j,
        {
            match self.source.pop_front() {
                None => {
                    proof {
                        assert(j == o.source@.len());
                        assert(o.source@.take(j) =~= o.source@);
                        lemma_channels_all_rights(o.source@);
                        assert(o.avail_left() =~= Seq::<A>::empty());
                        assert(self.avail_right() =~= o.avail_right());
                        lemma_leading_rights_is(o.source@, j);
                    }
                    return None;
                },
                Some(e) => {
                    proof {
                        assert(o.source@.skip(j)[0] == o.source@[j]);
                    }
                    match e {
                        Either::Left(a) => {
                            proof {
                                let k = j;
                                lemma_leading_rights_is(o.source@, k);
                                assert(o.source@ =~= o.source@.take(k) + o.source@.skip(k));
                                lemma_channels_of_concat(o.source@.take(k), o.source@.skip(k));
                                assert(forall|i: int|
                                    0 <= i < o.source@.take(k).len()
                                        ==> #[trigger] o.source@.take(k)[i] is Right);
                                lemma_channels_all_rights(o.source@.take(k));
                                // the first left-channel element of the rest is the match
                                assert(o.source@.skip(k).drop_first() =~= o.source@.skip(k + 1));
                                assert(lefts(o.source@.skip(k)) == seq![a] + lefts(
                                    o.source@.skip(k + 1),
                                ));
                                assert(self.source@ =~= o.source@.skip(k + 1));
                                assert(lefts(o.source@) =~= lefts(o.source@.skip(k)));
                                assert(o.avail_left() =~= lefts(o.source@.skip(k)));
                                assert(o.avail_left()[0] == a);
                                assert(self.avail_left() =~= o.avail_left().drop_first());
                                // the right channel saw every mismatch and nothing else
                                assert(rights(o.source@.skip(k)) =~= rights(o.source@.skip(k + 1)));
                                assert(self.avail_right() =~= o.avail_right());
                            }
                            return Some(a);
                        },
                        Either::Right(b) => {
                            self.right_pending.push_back(b);
                            proof {
                                assert(o.source@.take(j + 1) =~= o.source@.take(j) + seq![
                                    Either::Right(b),
                                ]);
                                lemma_channels_of_concat(
                                    o.source@.take(j),
                                    seq![Either::Right::<A, B>(b)],
                                );
                                lemma_channels_of_singleton(Either::Right::<A, B>(b));
                                assert(self.right_pending@ =~= o.right_pending@ + rights(
                                    o.source@.take(j + 1),
                                ));
                                assert(self.source@ =~= o.source@.skip(j + 1));
                                j = j + 1;
                            }
                        },
                    }
                },
            }
        }
    }

    /// Pulls the next right-channel element, advancing the shared source past
    /// any left-tagged elements, which are buffered for the left channel in
    /// their original order; the left channel's future deliveries are untouched
    pub fn next_right(&mut self) -> (r: Option<B>)
        ensures
            final(self).avail_left() == old(self).avail_left(),
            old(self).avail_right().len() > 0 ==> r == Some(old(self).avail_right()[0])
                && final(self).avail_right() == old(self).avail_right().drop_first(),
            old(self).avail_right().len() == 0 ==> r is None && final(self).remaining().len() == 0
                && final(self).pending_left() == old(self).avail_left(),
            old(self).pending_right().len() > 0 ==> final(self).pending_right() == old(
                self,
            ).pending_right().drop_first() && final(self).remaining() == old(self).remaining()
                && final(self).pending_left() == old(self).pending_left(),
            old(self).pending_right().len() == 0 ==> ({
                let k = leading_lefts(old(self).remaining());
                &&& final(self).pending_right().len() == 0
                &&& final(self).pending_left() == old(self).pending_left() + lefts(
                    old(self).remaining().take(k),
                )
                &&& (rights(old(self).remaining()).len() > 0 ==> final(self).remaining() == old(
                    self,
                ).remaining().skip(k + 1))
            }),
    {
        let ghost o = *self;
        if let Some(b) = self.right_pending.pop_front() {
            proof {
                assert(o.avail_right()[0] == b);
                assert(self.avail_right() =~= o.avail_right().drop_first());
                assert(self.avail_left() =~= o.avail_left());
            }
            return Some(b);
        }
        let ghost mut j: int = 0;
        loop
            invariant
                o == *old(self),
                0 <= j <= o.source@.len(),
                self.source@ == o.source@.skip(j),
                forall|i: int| 0 <= i < j ==> o.source@[i] is Left,
                self.right_pending@.len() == 0,
                o.right_pending@.len() == 0,
                self.left_pending@ == o.left_pending@ + lefts(o.source@.take(j)),
            decreases o.source@.len() - j,
        {
            match self.source.pop_front() {
                None => {
                    proof {
                        assert(j == o.source@.len());
                        assert(o.source@.take(j) =~= o.source@);
                        lemma_channels_all_lefts(o.source@);
                        assert(o.avail_right() =~= Seq::<B>::empty());
                        assert(self.avail_left() =~= o.avail_left());
                        lemma_leading_lefts_is(o.source@, j);
                    }
                    return None;
                },
                Some(e) => {
                    proof {
                        assert(o.source@.skip(j)[0] == o.source@[j]);
                    }
                    match e {
                        Either::Right(b) => {
                            proof {
                                let k = j;
                                lemma_leading_lefts_is(o.source@, k);
                                assert(o.source@ =~= o.source@.take(k) + o.source@.skip(k));
                                lemma_channels_of_concat(o.source@.take(k), o.source@.skip(k));
                                assert(forall|i: int|
                                    0 <= i < o.source@.take(k).len()
                                        ==> #[trigger] o.source@.take(k)[i] is Left);
                                lemma_channels_all_lefts(o.source@.take(k));
                                assert(o.source@.skip(k).drop_first() =~= o.source@.skip(k + 1));
                                assert(rights(o.source@.skip(k)) == seq![b] + rights(
                                    o.source@.skip(k + 1),
                                ));
                                assert(self.source@ =~= o.source@.skip(k + 1));
                                assert(rights(o.source@) =~= rights(o.source@.skip(k)));
                                assert(o.avail_right() =~= rights(o.source@.skip(k)));
                                assert(o.avail_right()[0] == b);
                                assert(self.avail_right() =~= o.avail_right().drop_first());
                                assert(lefts(o.source@.skip(k)) =~= lefts(o.source@.skip(k + 1)));
                                assert(self.avail_left() =~= o.avail_left());
                            }
                            return Some(b);
                        },
                        Either::Left(a) => {
                            self.left_pending.push_back(a);
                            proof {
                                assert(o.source@.take(j + 1) =~= o.source@.take(j) + seq![
                                    Either::Left(a),
                                ]);
                                lemma_channels_of_concat(
                                    o.source@.take(j),
                                    seq![Either::Left::<A, B>(a)],
                                );
                                lemma_channels_of_singleton(Either::Left::<A, B>(a));
                                assert(self.left_pending@ =~= o.left_pending@ + lefts(
                                    o.source@.take(j + 1),
                                ));
                                assert(self.source@ =~= o.source@.skip(j + 1));
                                j = j + 1;
                            }
                        },
                    }
                },
            }
        }
    }

    /// The left channel's remaining-size estimate: its own buffered elements
    /// plus everything not yet pulled from the source, as both bounds; the
    /// true number still to deliver never exceeds it
    pub fn size_hint_left(&self) -> (r: (usize, Option<usize>))
        ensures
            self.pending_left().len() + self.remaining().len() <= usize::MAX ==> r.0
                == self.pending_left().len() + self.remaining().len(),
            self.pending_left().len() + self.remaining().len() > usize::MAX ==> r.0 == usize::MAX,
            r.1 == Some(r.0),
            self.avail_left().len() <= self.pending_left().len() + self.remaining().len(),
    {
        proof {
            lemma_no_loss_no_duplication(self.remaining());
        }
        let pl: usize = self.left_pending.len();
        let rl: usize = self.source.len();
        let n: usize = if pl <= usize::MAX - rl {
            pl + rl
        } else {
            usize::MAX
        };
        (n, Some(n))
    }

    /// The right channel's remaining-size estimate, mirroring the left one
    pub fn size_hint_right(&self) -> (r: (usize, Option<usize>))
        ensures
            self.pending_right().len() + self.remaining().len() <= usize::MAX ==> r.0
                == self.pending_right().len() + self.remaining().len(),
            self.pending_right().len() + self.remaining().len() > usize::MAX ==> r.0 == usize::MAX,
            r.1 == Some(r.0),
            self.avail_right().len() <= self.pending_right().len() + self.remaining().len(),
    {
        proof {
            lemma_no_loss_no_duplication(self.remaining());
        }
        let pr: usize = self.right_pending.len();
        let rl: usize = self.source.len();
        let n: usize = if pr <= usize::MAX - rl {
            pr + rl
        } else {
            usize::MAX
        };
        (n, Some(n))
    }

    /// Pulls the two channels in whatever interleaving a schedule lists — a
    /// `true` entry pulls the left channel, a `false` one the right — and
    /// returns what each channel delivered, in delivery order.
    ///
    /// However the pulls are interleaved, each channel receives exactly the
    /// next elements it had to deliver, one per pull until it runs out, and
    /// what it has not yet delivered stays intact: no interleaving can lose,
    /// duplicate or reorder an element, and a schedule with enough pulls on
    /// each side delivers both channels completely.
    pub fn pull_by_schedule(&mut self, schedule: &Vec<bool>) -> (r: (Vec<A>, Vec<B>))
        ensures
            r.0@ + final(self).avail_left() == old(self).avail_left(),
            r.1@ + final(self).avail_right() == old(self).avail_right(),
            r.0@.len() == min(count_true(schedule@), old(self).avail_left().len() as int),
            r.1@.len() == min(
                schedule@.len() - count_true(schedule@),
                old(self).avail_right().len() as int,
            ),
    {
        let ghost o = *self;
        let mut accl: Vec<A> = Vec::new();
        let mut accr: Vec<B> = Vec::new();
        let mut i: usize = 0;
        while i < schedule.len()
            invariant
                o == *old(self),
                0 <= i <= schedule@.len(),
                accl@ + self.avail_left() == o.avail_left(),
                accr@ + self.avail_right() == o.avail_right(),
                accl@.len() == min(count_true(schedule@.take(i as int)), o.avail_left().len() as int),
                accr@.len() == min(
                    i - count_true(schedule@.take(i as int)),
                    o.avail_right().len() as int,
                ),
            decreases schedule@.len() - i,
        {
            proof {
                lemma_count_true_bounds(schedule@.take(i as int));
                assert(schedule@.take(i as int).push(schedule@[i as int]) =~= schedule@.take(
                    i as int + 1,
                ));
                lemma_count_true_push(schedule@.take(i as int), schedule@[i as int]);
            }
            if schedule[i] {
                let ghost before = self.avail_left();
                match self.next_left() {
                    Some(a) => {
                        accl.push(a);
                        proof {
                            assert(accl@ + self.avail_left() =~= o.avail_left());
                        }
                    },
                    None => {
                        proof {
                            assert(before.len() == 0);
                            assert(self.avail_left() =~= before);
                        }
                    },
                }
            } else {
                let ghost before = self.avail_right();
                match self.next_right() {
                    Some(b) => {
                        accr.push(b);
                        proof {
                            assert(accr@ + self.avail_right() =~= o.avail_right());
                        }
                    },
                    None => {
                        proof {
                            assert(before.len() == 0);
                            assert(self.avail_right() =~= before);
                        }
                    },
                }
            }
            i = i + 1;
        }
        proof {
            assert(schedule@.take(i as int) =~= schedule@);
        }
        (accl, accr)
    }

    /// What a fresh split owes its two consumers: the left view has exactly
    /// the left-tagged payloads of the source still to deliver and the right
    /// view the right-tagged ones, together they cover every element exactly
    /// once, and re-interleaving them by the original tags reproduces the
    /// source
    pub proof fn lemma_fresh_split_delivers_channels(st: SplitState<A, B>, s: Seq<Either<A, B>>)
        requires
            st.remaining() == s,
            st.pending_left() == Seq::<A>::empty(),
            st.pending_right() == Seq::<B>::empty(),
        ensures
            st.avail_left() == lefts(s),
            st.avail_right() == rights(s),
            st.avail_left().len() + st.avail_right().len() == s.len(),
            crate::model::weave(crate::model::tags(s), st.avail_left(), st.avail_right()) == s,
    {
        assert(st.avail_left() =~= lefts(s));
        assert(st.avail_right() =~= rights(s));
        lemma_no_loss_no_duplication(s);
        crate::model::lemma_stable_bipartition(s);
    }
}

} // verus!
