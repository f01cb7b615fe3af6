//! The wavelength resolver: ranks the two recorded wavelengths so that
//! the numerically larger one is labeled oxy (HbO) and the smaller deoxy
//! (HbR).
//!
//! The ranking is a data-derived convention, not a physical law: it only
//! labels the two values. Which column of the raw block feeds which label
//! is decided per measurement by the wavelength selector, not here.

use crate::domain::Wavelengths;
use crate::error::DecodeError;
use vstd::prelude::*;

verus! {

/// `x` placed into `s` after every element that is at least `x`, so that
/// repeated insertion sorts descending and keeps equal values' order.
pub open spec fn insert_desc(x: usize, s: Seq<usize>) -> Seq<usize>
    decreases s.len(),
{
    if s.len() == 0 {
        seq![x]
    } else if s[0] >= x {
        seq![s[0]] + insert_desc(x, s.drop_first())
    } else {
        seq![x] + s
    }
}

/// `s` sorted into non-increasing order by insertion, left to right.
pub open spec fn sort_desc(s: Seq<usize>) -> Seq<usize>
    decreases s.len(),
{
    if s.len() == 0 {
        Seq::empty()
    } else {
        insert_desc(s.last(), sort_desc(s.drop_last()))
    }
}

/// Non-increasing order.
pub open spec fn sorted_desc(s: Seq<usize>) -> bool {
    forall|i: int, j: int| 0 <= i < j < s.len() ==> s[i] >= s[j]
}

/// At least two distinct values occur in `s`.
pub open spec fn has_two_distinct(s: Seq<usize>) -> bool {
    exists|i: int| 0 <= i < s.len() && #[trigger] s[i] != s[0]
}

proof fn lemma_insert_desc(x: usize, s: Seq<usize>)
    requires
        sorted_desc(s),
    ensures
        insert_desc(x, s).len() == s.len() + 1,
        sorted_desc(insert_desc(x, s)),
        forall|k: int|
            0 <= k < s.len() + 1 ==> (#[trigger] insert_desc(x, s)[k] == x || s.contains(
                insert_desc(x, s)[k],
            )),
        insert_desc(x, s).to_multiset() == s.to_multiset().insert(x),
    decreases s.len(),
{
    broadcast use vstd::seq_lib::lemma_multiset_commutative;
    broadcast use vstd::seq_lib::to_multiset_build;

    if s.len() == 0 {
        assert(insert_desc(x, s) =~= seq![x] + s);
        crate::seqext::lemma_singleton_concat_multiset(x, s);
    } else if s[0] >= x {
        let rest = insert_desc(x, s.drop_first());
        assert(sorted_desc(s.drop_first())) by {
            assert(forall|i: int, j: int|
                0 <= i < j < s.drop_first().len() ==> s.drop_first()[i] >= s.drop_first()[j]);
        }
        lemma_insert_desc(x, s.drop_first());
        let r = insert_desc(x, s);
        assert(r == seq![s[0]] + rest);
        assert(forall|k: int| 0 <= k < rest.len() ==> r[k + 1] == rest[k]);
        // the head stays the largest element
        assert(forall|k: int| 1 <= k < r.len() ==> r[0] >= #[trigger] r[k]) by {
            assert(forall|e: usize|
                s.drop_first().contains(e) ==> s[0] >= e);
        }
        assert(sorted_desc(r));
        assert(forall|k: int|
            0 <= k < s.len() + 1 ==> (r[k] == x || s.contains(r[k]))) by {
            assert(s.contains(s[0]));
            assert(forall|e: usize| s.drop_first().contains(e) ==> s.contains(e));
        }
        assert(seq![s[0]] + s.drop_first() =~= s);
        assert(r.to_multiset() =~= s.to_multiset().insert(x)) by {
            broadcast use vstd::multiset::group_multiset_axioms;

            crate::seqext::lemma_singleton_concat_multiset(s[0], rest);
            crate::seqext::lemma_singleton_concat_multiset(s[0], s.drop_first());
            assert(r.to_multiset() == rest.to_multiset().insert(s[0]));
            assert(s.to_multiset() == s.drop_first().to_multiset().insert(s[0]));
            assert(s.drop_first().to_multiset().insert(x).insert(s[0])
                =~= s.drop_first().to_multiset().insert(s[0]).insert(x));
        }
    } else {
        let r = insert_desc(x, s);
        assert(r == seq![x] + s);
        assert(forall|k: int| 0 <= k < s.len() ==> r[k + 1] == s[k]);
        assert(sorted_desc(r)) by {
            assert(forall|k: int| 1 <= k < r.len() ==> x >= #[trigger] r[k]);
        }
        crate::seqext::lemma_singleton_concat_multiset(x, s);
    }
}

/// What the descending insertion sort yields: the same values (as a
/// multiset), in non-increasing order, one per input element.
pub proof fn lemma_sort_desc(s: Seq<usize>)
    ensures
        sort_desc(s).len() == s.len(),
        sorted_desc(sort_desc(s)),
        sort_desc(s).to_multiset() == s.to_multiset(),
    decreases s.len(),
{
    broadcast use vstd::seq_lib::to_multiset_build;

    if s.len() == 0 {
        assert(s =~= Seq::<usize>::empty());
    } else {
        lemma_sort_desc(s.drop_last());
        lemma_insert_desc(s.last(), sort_desc(s.drop_last()));
        assert(s.drop_last().push(s.last()) =~= s);
        assert(s.drop_last().push(s.last()).to_multiset() == s.drop_last().to_multiset().insert(
            s.last(),
        ));
    }
}

proof fn lemma_insert_desc_at(x: usize, s: Seq<usize>, pos: int)
    requires
        0 <= pos <= s.len(),
        forall|k: int| 0 <= k < pos ==> s[k] >= x,
        pos < s.len() ==> !(s[pos] >= x),
    ensures
        insert_desc(x, s) == s.insert(pos, x),
    decreases pos,
{
    if pos == 0 {
        if s.len() == 0 {
            assert(insert_desc(x, s) =~= s.insert(0, x));
        } else {
            assert(insert_desc(x, s) =~= s.insert(0, x));
        }
    } else {
        lemma_insert_desc_at(x, s.drop_first(), pos - 1);
        assert(seq![s[0]] + s.drop_first().insert(pos - 1, x) =~= s.insert(pos, x));
    }
}

/// A copy of `v` sorted into non-increasing order.
pub fn sort_desc_exec(v: &Vec<usize>) -> (r: Vec<usize>)
    ensures
        r@ == sort_desc(v@),
{
    let mut out: Vec<usize> = Vec::new();
    for i in 0..v.len()
        invariant
            out@ == sort_desc(v@.take(i as int)),
            out@.len() == i,
    {
        let x = v[i];
        let mut pos: usize = 0;
        while pos < out.len() && out[pos] >= x
            invariant
                0 <= pos <= out@.len(),
                forall|k: int| 0 <= k < pos ==> out@[k] >= x,
            decreases out@.len() - pos,
        {
            pos += 1;
        }
        proof {
            lemma_insert_desc_at(x, out@, pos as int);
            assert(v@.take(i + 1).drop_last() =~= v@.take(i as int));
            assert(v@.take(i + 1).last() == v@[i as int]);
        }
        out.insert(pos, x);
    }
    proof {
        assert(v@.take(v@.len() as int) =~= v@);
    }
    out
}

/// Resolves which recorded wavelength is the oxy one: sorts a copy of the
/// list descending and labels the first value oxy and the second deoxy.
/// Fails with a structural error when fewer than two distinct values are
/// present; the list as stored may hold them in either order.
pub fn parse_wavelenghts(ws: &Vec<usize>) -> (r: Result<Wavelengths, DecodeError>)
    ensures
        r is Ok <==> has_two_distinct(ws@),
        r matches Ok(w) ==> {
            &&& w.hbo_wl == sort_desc(ws@)[0]
            &&& w.hbr_wl == sort_desc(ws@)[1]
        },
        r matches Err(e) ==> e is StructuralError,
{
    let mut distinct = false;
    for i in 0..ws.len()
        invariant
            distinct == exists|k: int| 0 <= k < i && #[trigger] ws@[k] != ws@[0],
    {
        if ws[i] != ws[0] {
            distinct = true;
        }
    }
    if !distinct {
        return Err(DecodeError::StructuralError(String::from_str(
            "fewer than two distinct wavelengths are recorded",
        )));
    }
    let sorted = sort_desc_exec(ws);
    proof {
        lemma_sort_desc(ws@);
    }
    Ok(Wavelengths { hbo_wl: sorted[0], hbr_wl: sorted[1] })
}

} // verus!
