//! The sequence model of a tagged stream: which payloads belong to which
//! channel, and how the two channels recombine into the original stream.

use vstd::prelude::*;
use crate::either::Either;

verus! {

/// The left-tagged payloads of a tagged sequence, in their original order
pub open spec fn lefts<A, B>(s: Seq<Either<A, B>>) -> Seq<A>
    decreases s.len(),
{
    if s.len() == 0 {
        Seq::empty()
    } else if s[0] is Left {
        seq![s[0]->Left_0] + lefts(s.drop_first())
    } else {
        lefts(s.drop_first())
    }
}

/// The right-tagged payloads of a tagged sequence, in their original order
pub open spec fn rights<A, B>(s: Seq<Either<A, B>>) -> Seq<B>
    decreases s.len(),
{
    if s.len() == 0 {
        Seq::empty()
    } else if s[0] is Right {
        seq![s[0]->Right_0] + rights(s.drop_first())
    } else {
        rights(s.drop_first())
    }
}

/// The tag of each element: `true` where it belongs to the left channel
pub open spec fn tags<A, B>(s: Seq<Either<A, B>>) -> Seq<bool> {
    s.map_values(|e: Either<A, B>| e is Left)
}

/// Interleaves two channels back into one tagged sequence, each element drawn
/// from the channel its tag names, in the tag order
pub open spec fn weave<A, B>(t: Seq<bool>, ls: Seq<A>, rs: Seq<B>) -> Seq<Either<A, B>>
    decreases t.len(),
{
    if t.len() == 0 {
        Seq::empty()
    } else if t[0] {
        seq![Either::Left(ls[0])] + weave(t.drop_first(), ls.drop_first(), rs)
    } else {
        seq![Either::Right(rs[0])] + weave(t.drop_first(), ls, rs.drop_first())
    }
}

/// How many elements stand before the first left-tagged one
pub open spec fn leading_rights<A, B>(s: Seq<Either<A, B>>) -> int
    decreases s.len(),
{
    if s.len() == 0 {
        0
    } else if s[0] is Left {
        0
    } else {
        1 + leading_rights(s.drop_first())
    }
}

/// The channels of a one-element sequence: its payload lands in the channel
/// its tag names, and the other channel stays empty
pub proof fn lemma_channels_of_singleton<A, B>(e: Either<A, B>)
    ensures
        e is Left ==> lefts(seq![e]) == seq![e->Left_0] && rights(seq![e]) == Seq::<B>::empty(),
        e is Right ==> rights(seq![e]) == seq![e->Right_0] && lefts(seq![e]) == Seq::<A>::empty(),
{
    let s = seq![e];
    assert(s.drop_first() =~= Seq::<Either<A, B>>::empty());
    assert(lefts(Seq::<Either<A, B>>::empty()) == Seq::<A>::empty());
    assert(rights(Seq::<Either<A, B>>::empty()) == Seq::<B>::empty());
    if e is Left {
        assert(lefts(s) =~= seq![e->Left_0]);
        assert(rights(s) =~= Seq::<B>::empty());
    } else {
        assert(rights(s) =~= seq![e->Right_0]);
        assert(lefts(s) =~= Seq::<A>::empty());
    }
}

/// The channels of a concatenation are the concatenations of the channels
pub proof fn lemma_channels_of_concat<A, B>(x: Seq<Either<A, B>>, y: Seq<Either<A, B>>)
    ensures
        lefts(x + y) == lefts(x) + lefts(y),
        rights(x + y) == rights(x) + rights(y),
    decreases x.len(),
{
    if x.len() == 0 {
        assert(x + y =~= y);
        assert(lefts(x) + lefts(y) =~= lefts(y));
        assert(rights(x) + rights(y) =~= rights(y));
    } else {
        lemma_channels_of_concat(x.drop_first(), y);
        assert((x + y).drop_first() =~= x.drop_first() + y);
        assert(lefts(x + y) =~= lefts(x) + lefts(y));
        assert(rights(x + y) =~= rights(x) + rights(y));
    }
}

/// A sequence with no left-tagged element contributes nothing to the left
/// channel and everything to the right one
pub proof fn lemma_channels_all_rights<A, B>(s: Seq<Either<A, B>>)
    requires
        forall|i: int| 0 <= i < s.len() ==> s[i] is Right,
    ensures
        lefts(s) == Seq::<A>::empty(),
        rights(s).len() == s.len(),
    decreases s.len(),
{
    if s.len() == 0 {
        assert(lefts(s) =~= Seq::<A>::empty());
    } else {
        assert(forall|i: int|
            0 <= i < s.drop_first().len() ==> #[trigger] s.drop_first()[i] is Right);
        lemma_channels_all_rights(s.drop_first());
    }
}

/// A sequence with no right-tagged element contributes nothing to the right
/// channel and everything to the left one
pub proof fn lemma_channels_all_lefts<A, B>(s: Seq<Either<A, B>>)
    requires
        forall|i: int| 0 <= i < s.len() ==> s[i] is Left,
    ensures
        rights(s) == Seq::<B>::empty(),
        lefts(s).len() == s.len(),
    decreases s.len(),
{
    if s.len() == 0 {
        assert(rights(s) =~= Seq::<B>::empty());
    } else {
        assert(forall|i: int|
            0 <= i < s.drop_first().len() ==> #[trigger] s.drop_first()[i] is Left);
        lemma_channels_all_lefts(s.drop_first());
    }
}

/// How many elements stand before the first right-tagged one
pub open spec fn leading_lefts<A, B>(s: Seq<Either<A, B>>) -> int
    decreases s.len(),
{
    if s.len() == 0 {
        0
    } else if s[0] is Right {
        0
    } else {
        1 + leading_lefts(s.drop_first())
    }
}

/// Pins down `leading_lefts`: a left-tagged prefix of length `j`, closed off
/// by a right-tagged element or the end of the sequence, is exactly it
pub proof fn lemma_leading_lefts_is<A, B>(s: Seq<Either<A, B>>, j: int)
    requires
        0 <= j <= s.len(),
        forall|i: int| 0 <= i < j ==> s[i] is Left,
        j < s.len() ==> s[j] is Right,
    ensures
        leading_lefts(s) == j,
    decreases s.len(),
{
    if s.len() == 0 {
    } else if s[0] is Right {
        assert(j == 0);
    } else {
        assert(j > 0);
        assert(forall|i: int|
            0 <= i < j - 1 ==> #[trigger] s.drop_first()[i] is Left);
        lemma_leading_lefts_is(s.drop_first(), j - 1);
    }
}

/// Pins down `leading_rights`: a right-tagged prefix of length `j`, closed off
/// by a left-tagged element or the end of the sequence, is exactly it
pub proof fn lemma_leading_rights_is<A, B>(s: Seq<Either<A, B>>, j: int)
    requires
        0 <= j <= s.len(),
        forall|i: int| 0 <= i < j ==> s[i] is Right,
        j < s.len() ==> s[j] is Left,
    ensures
        leading_rights(s) == j,
    decreases s.len(),
{
    if s.len() == 0 {
    } else if s[0] is Left {
        assert(j == 0);
    } else {
        assert(j > 0);
        assert(forall|i: int|
            0 <= i < j - 1 ==> #[trigger] s.drop_first()[i] is Right);
        lemma_leading_rights_is(s.drop_first(), j - 1);
    }
}

/// How many entries of a schedule are `true`
pub open spec fn count_true(t: Seq<bool>) -> int
    decreases t.len(),
{
    if t.len() == 0 {
        0
    } else {
        (if t[0] {
            1int
        } else {
            0int
        }) + count_true(t.drop_first())
    }
}

/// Appending one entry raises the count by one exactly when it is `true`
pub proof fn lemma_count_true_push(t: Seq<bool>, x: bool)
    ensures
        count_true(t.push(x)) == count_true(t) + (if x {
            1int
        } else {
            0int
        }),
    decreases t.len(),
{
    if t.len() == 0 {
        assert(t.push(x).drop_first() =~= t);
    } else {
        assert(t.push(x).drop_first() =~= t.drop_first().push(x));
        assert(t.push(x)[0] == t[0]);
        lemma_count_true_push(t.drop_first(), x);
    }
}

/// A count of `true` entries lies between nothing and everything
pub proof fn lemma_count_true_bounds(t: Seq<bool>)
    ensures
        0 <= count_true(t) <= t.len(),
    decreases t.len(),
{
    if t.len() > 0 {
        lemma_count_true_bounds(t.drop_first());
    }
}

/// Splitting loses nothing and duplicates nothing: every element of a tagged
/// sequence lands in exactly one of the two channels
pub proof fn lemma_no_loss_no_duplication<A, B>(s: Seq<Either<A, B>>)
    ensures
        lefts(s).len() + rights(s).len() == s.len(),
    decreases s.len(),
{
    if s.len() > 0 {
        lemma_no_loss_no_duplication(s.drop_first());
    }
}

/// Stable bipartition: re-interleaving the two channels by the original tags
/// reproduces the original sequence exactly
pub proof fn lemma_stable_bipartition<A, B>(s: Seq<Either<A, B>>)
    ensures
        weave(tags(s), lefts(s), rights(s)) == s,
    decreases s.len(),
{
    if s.len() == 0 {
        assert(weave(tags(s), lefts(s), rights(s)) =~= s);
    } else {
        let rest = s.drop_first();
        lemma_stable_bipartition(rest);
        assert(tags(s).drop_first() =~= tags(rest));
        if s[0] is Left {
            assert(lefts(s).drop_first() =~= lefts(rest));
            assert(rights(s) == rights(rest));
            assert(weave(tags(s), lefts(s), rights(s)) =~= s);
        } else {
            assert(rights(s).drop_first() =~= rights(rest));
            assert(lefts(s) == lefts(rest));
            assert(weave(tags(s), lefts(s), rights(s)) =~= s);
        }
    }
}

} // verus!
