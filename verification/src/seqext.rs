//! Small sequence facts shared by the sorting proofs.

use vstd::prelude::*;

verus! {

/// Prepending one element adds exactly that element to a sequence's
/// multiset of values.
pub proof fn lemma_singleton_concat_multiset<A>(x: A, s: Seq<A>)
    ensures
        (seq![x] + s).to_multiset() == s.to_multiset().insert(x),
    decreases s.len(),
{
    broadcast use vstd::seq_lib::to_multiset_build;
    broadcast use vstd::multiset::group_multiset_axioms;

    if s.len() == 0 {
        assert(s =~= Seq::<A>::empty());
        assert(seq![x] + s =~= Seq::<A>::empty().push(x));
        assert((Seq::<A>::empty().push(x)).to_multiset() == Seq::<A>::empty().to_multiset().insert(
            x,
        ));
    } else {
        lemma_singleton_concat_multiset(x, s.drop_last());
        assert(seq![x] + s =~= (seq![x] + s.drop_last()).push(s.last()));
        assert((seq![x] + s.drop_last()).push(s.last()).to_multiset() == (seq![x]
            + s.drop_last()).to_multiset().insert(s.last()));
        assert(s =~= s.drop_last().push(s.last()));
        assert(s.drop_last().push(s.last()).to_multiset() == s.drop_last().to_multiset().insert(
            s.last(),
        ));
        assert(s.drop_last().to_multiset().insert(x).insert(s.last()) =~= s.drop_last()
            .to_multiset().insert(s.last()).insert(x));
    }
}

/// A sequence whose elements all fail the predicate filters to nothing.
pub proof fn lemma_filter_none<A>(s: Seq<A>, pred: spec_fn(A) -> bool)
    requires
        forall|i: int| 0 <= i < s.len() ==> !pred(#[trigger] s[i]),
    ensures
        s.filter(pred) == Seq::<A>::empty(),
    decreases s.len(),
{
    reveal(Seq::filter);
    if s.len() == 0 {
        assert(s =~= Seq::<A>::empty());
    } else {
        lemma_filter_none(s.drop_last(), pred);
    }
}

/// Filtering a one-element sequence keeps or drops that element.
pub proof fn lemma_filter_singleton<A>(x: A, pred: spec_fn(A) -> bool)
    ensures
        seq![x].filter(pred) == if pred(x) {
            seq![x]
        } else {
            Seq::<A>::empty()
        },
{
    reveal(Seq::filter);
    assert(seq![x].drop_last() =~= Seq::<A>::empty());
    assert(Seq::<A>::empty().filter(pred) == Seq::<A>::empty());
    if pred(x) {
        assert(seq![x].filter(pred) =~= seq![x]);
    }
}

} // verus!
