//! The event extractor: turns each discovered stimulus group into a named
//! event whose markers are stable-sorted by onset.
//!
//! Onsets are `f64` bit patterns ordered by the total order of
//! [`crate::order`], so the sort cannot fail on any stored value; on
//! finite onsets it is the numeric order. Ties keep their original
//! relative order.

use crate::domain::{Event, EventMarker, Events};
use crate::order::{f64_key, f64_le};
use crate::raw::{RawMatrix, RawStim};
use crate::seqext::{lemma_filter_none, lemma_filter_singleton, lemma_singleton_concat_multiset};
use vstd::prelude::*;

verus! {

/// Marker order: by onset, in the total order on `f64` bit patterns.
pub open spec fn marker_le(a: EventMarker, b: EventMarker) -> bool {
    f64_key(a.onset) <= f64_key(b.onset)
}

/// The markers one stimulus matrix holds, row by row: each row of a
/// matrix with at least three columns gives (onset, duration, value); a
/// matrix with fewer than three columns gives no markers at all.
pub open spec fn raw_markers(m: RawMatrix) -> Seq<EventMarker> {
    if m.cols >= 3 {
        Seq::new(
            m.rows as nat,
            |r: int|
                EventMarker { onset: m.entry(r, 0), duration: m.entry(r, 1), value: m.entry(r, 2) },
        )
    } else {
        Seq::empty()
    }
}

/// `x` placed into `s` after every marker whose onset precedes or equals
/// its own, so that repeated insertion sorts by onset and keeps equal
/// onsets' original order.
pub open spec fn insert_marker(x: EventMarker, s: Seq<EventMarker>) -> Seq<EventMarker>
    decreases s.len(),
{
    if s.len() == 0 {
        seq![x]
    } else if marker_le(s[0], x) {
        seq![s[0]] + insert_marker(x, s.drop_first())
    } else {
        seq![x] + s
    }
}

/// `s` sorted by onset by insertion, left to right: the stable insertion
/// sort of the marker sequence.
pub open spec fn sort_markers(s: Seq<EventMarker>) -> Seq<EventMarker>
    decreases s.len(),
{
    if s.len() == 0 {
        Seq::empty()
    } else {
        insert_marker(s.last(), sort_markers(s.drop_last()))
    }
}

/// Non-decreasing onset order.
pub open spec fn sorted_by_onset(s: Seq<EventMarker>) -> bool {
    forall|i: int, j: int| 0 <= i < j < s.len() ==> marker_le(s[i], s[j])
}

/// The markers whose onset is exactly `k`.
pub open spec fn onset_pred(k: u64) -> spec_fn(EventMarker) -> bool {
    |m: EventMarker| m.onset == k
}

proof fn lemma_insert_marker(x: EventMarker, s: Seq<EventMarker>)
    requires
        sorted_by_onset(s),
    ensures
        insert_marker(x, s).len() == s.len() + 1,
        sorted_by_onset(insert_marker(x, s)),
        forall|k: int|
            0 <= k < s.len() + 1 ==> (#[trigger] insert_marker(x, s)[k] == x || s.contains(
                insert_marker(x, s)[k],
            )),
        insert_marker(x, s).to_multiset() == s.to_multiset().insert(x),
    decreases s.len(),
{
    broadcast use vstd::seq_lib::lemma_multiset_commutative;
    broadcast use vstd::seq_lib::to_multiset_build;

    if s.len() == 0 {
        assert(insert_marker(x, s) =~= seq![x] + s);
        lemma_singleton_concat_multiset(x, s);
    } else if marker_le(s[0], x) {
        let rest = insert_marker(x, s.drop_first());
        assert(sorted_by_onset(s.drop_first())) by {
            assert(forall|i: int, j: int|
                0 <= i < j < s.drop_first().len() ==> marker_le(
                    s.drop_first()[i],
                    s.drop_first()[j],
                ));
        }
        lemma_insert_marker(x, s.drop_first());
        let r = insert_marker(x, s);
        assert(r == seq![s[0]] + rest);
        assert(forall|k: int| 0 <= k < rest.len() ==> r[k + 1] == rest[k]);
        // the head stays the earliest marker
        assert(forall|k: int| 1 <= k < r.len() ==> marker_le(r[0], #[trigger] r[k])) by {
            assert(forall|e: EventMarker| s.drop_first().contains(e) ==> marker_le(s[0], e));
        }
        assert(sorted_by_onset(r));
        assert(forall|k: int| 0 <= k < s.len() + 1 ==> (r[k] == x || s.contains(r[k]))) by {
            assert(s.contains(s[0]));
            assert(forall|e: EventMarker| s.drop_first().contains(e) ==> s.contains(e));
        }
        assert(seq![s[0]] + s.drop_first() =~= s);
        assert(r.to_multiset() =~= s.to_multiset().insert(x)) by {
            broadcast use vstd::multiset::group_multiset_axioms;

            lemma_singleton_concat_multiset(s[0], rest);
            lemma_singleton_concat_multiset(s[0], s.drop_first());
            assert(r.to_multiset() == rest.to_multiset().insert(s[0]));
            assert(s.to_multiset() == s.drop_first().to_multiset().insert(s[0]));
            assert(s.drop_first().to_multiset().insert(x).insert(s[0]) =~= s.drop_first()
                .to_multiset().insert(s[0]).insert(x));
        }
    } else {
        let r = insert_marker(x, s);
        assert(r == seq![x] + s);
        assert(forall|k: int| 0 <= k < s.len() ==> r[k + 1] == s[k]);
        assert forall|k: int| 1 <= k < r.len() implies marker_le(x, #[trigger] r[k]) by {
            assert(r[k] == s[k - 1]);
            if k - 1 > 0 {
                assert(marker_le(s[0], s[k - 1]));
            }
        }
        assert(sorted_by_onset(r));
        lemma_singleton_concat_multiset(x, s);
    }
}

/// What the stable insertion sort yields: the same markers (as a
/// multiset), in non-decreasing onset order, one per input marker.
pub proof fn lemma_sort_markers(s: Seq<EventMarker>)
    ensures
        sort_markers(s).len() == s.len(),
        sorted_by_onset(sort_markers(s)),
        sort_markers(s).to_multiset() == s.to_multiset(),
    decreases s.len(),
{
    broadcast use vstd::seq_lib::to_multiset_build;

    if s.len() == 0 {
        assert(s =~= Seq::<EventMarker>::empty());
    } else {
        lemma_sort_markers(s.drop_last());
        lemma_insert_marker(s.last(), sort_markers(s.drop_last()));
        assert(s.drop_last().push(s.last()) =~= s);
        assert(s.drop_last().push(s.last()).to_multiset() == s.drop_last().to_multiset().insert(
            s.last(),
        ));
    }
}

proof fn lemma_insert_marker_filter(x: EventMarker, s: Seq<EventMarker>, k: u64)
    requires
        sorted_by_onset(s),
    ensures
        insert_marker(x, s).filter(onset_pred(k)) == if x.onset == k {
            s.filter(onset_pred(k)).push(x)
        } else {
            s.filter(onset_pred(k))
        },
    decreases s.len(),
{
    broadcast use vstd::seq_lib::group_filter_ensures;

    let pred = onset_pred(k);
    if s.len() == 0 {
        assert(insert_marker(x, s) =~= seq![x]);
        lemma_filter_singleton(x, pred);
        assert(s =~= Seq::<EventMarker>::empty());
        reveal(Seq::filter);
        if x.onset == k {
            assert(seq![x] =~= Seq::<EventMarker>::empty().push(x));
        }
    } else if marker_le(s[0], x) {
        let rest = insert_marker(x, s.drop_first());
        assert(sorted_by_onset(s.drop_first())) by {
            assert(forall|i: int, j: int|
                0 <= i < j < s.drop_first().len() ==> marker_le(
                    s.drop_first()[i],
                    s.drop_first()[j],
                ));
        }
        lemma_insert_marker_filter(x, s.drop_first(), k);
        Seq::filter_distributes_over_add(seq![s[0]], rest, pred);
        Seq::filter_distributes_over_add(seq![s[0]], s.drop_first(), pred);
        assert(seq![s[0]] + s.drop_first() =~= s);
        lemma_filter_singleton(s[0], pred);
        if x.onset == k {
            Seq::push_distributes_over_add(
                seq![s[0]].filter(pred),
                s.drop_first().filter(pred),
                x,
            );
        }
    } else {
        let r = insert_marker(x, s);
        assert(r == seq![x] + s);
        Seq::filter_distributes_over_add(seq![x], s, pred);
        lemma_filter_singleton(x, pred);
        if x.onset == k {
            // every marker of `s` starts strictly later, so none has onset `k`
            assert(forall|i: int| 0 <= i < s.len() ==> !pred(#[trigger] s[i])) by {
                assert(forall|i: int| 0 <= i < s.len() ==> marker_le(s[0], #[trigger] s[i]));
                assert forall|i: int| 0 <= i < s.len() implies !pred(s[i]) by {
                    if s[i].onset == k {
                        crate::order::lemma_f64_key_injective(s[i].onset, x.onset);
                    }
                }
            }
            lemma_filter_none(s, pred);
            assert(seq![x].filter(pred) + s.filter(pred) =~= s.filter(pred).push(x));
        } else {
            assert(seq![x].filter(pred) + s.filter(pred) =~= s.filter(pred));
        }
    }
}

/// The sort is stable: for every onset value, the markers carrying it
/// come out exactly as they went in, same markers in the same relative
/// order. With the ordering of [`lemma_sort_markers`] this pins the
/// sorted sequence completely.
pub proof fn lemma_sort_markers_stable(s: Seq<EventMarker>, k: u64)
    ensures
        sort_markers(s).filter(onset_pred(k)) == s.filter(onset_pred(k)),
    decreases s.len(),
{
    let pred = onset_pred(k);
    if s.len() == 0 {
        assert(s =~= Seq::<EventMarker>::empty());
    } else {
        lemma_sort_markers_stable(s.drop_last(), k);
        lemma_sort_markers(s.drop_last());
        lemma_insert_marker_filter(s.last(), sort_markers(s.drop_last()), k);
        reveal(Seq::filter);
        assert(s.filter(pred) == if pred(s.last()) {
            s.drop_last().filter(pred).push(s.last())
        } else {
            s.drop_last().filter(pred)
        });
    }
}

proof fn lemma_insert_marker_at(x: EventMarker, s: Seq<EventMarker>, pos: int)
    requires
        0 <= pos <= s.len(),
        forall|k: int| 0 <= k < pos ==> marker_le(#[trigger] s[k], x),
        pos < s.len() ==> !marker_le(s[pos], x),
    ensures
        insert_marker(x, s) == s.insert(pos, x),
    decreases pos,
{
    if pos == 0 {
        assert(insert_marker(x, s) =~= s.insert(0, x));
    } else {
        lemma_insert_marker_at(x, s.drop_first(), pos - 1);
        assert(seq![s[0]] + s.drop_first().insert(pos - 1, x) =~= s.insert(pos, x));
    }
}

/// A copy of `v` stable-sorted by onset.
pub fn sort_markers_exec(v: &Vec<EventMarker>) -> (r: Vec<EventMarker>)
    ensures
        r@ == sort_markers(v@),
{
    let mut out: Vec<EventMarker> = Vec::new();
    for i in 0..v.len()
        invariant
            out@ == sort_markers(v@.take(i as int)),
            out@.len() == i,
    {
        let x = v[i];
        let mut pos: usize = 0;
        while pos < out.len() && f64_le(out[pos].onset, x.onset)
            invariant
                0 <= pos <= out@.len(),
                forall|k: int| 0 <= k < pos ==> marker_le(#[trigger] out@[k], x),
            decreases out@.len() - pos,
        {
            pos += 1;
        }
        proof {
            lemma_insert_marker_at(x, out@, pos as int);
            assert(v@.take(i + 1).drop_last() =~= v@.take(i as int));
            assert(v@.take(i + 1).last() == v@[i as int]);
        }
        out.insert(pos, x);
    }
    proof {
        assert(v@.take(v@.len() as int) =~= v@);
    }
    out
}

/// Reads one stimulus matrix's markers, row by row, unsorted.
pub fn extract_markers(m: &RawMatrix) -> (r: Vec<EventMarker>)
    requires
        m.wf(),
    ensures
        r@ == raw_markers(*m),
{
    let mut r: Vec<EventMarker> = Vec::new();
    if m.cols < 3 {
        proof {
            assert(r@ =~= raw_markers(*m));
        }
        return r;
    }
    for t in 0..m.rows
        invariant
            m.wf(),
            m.cols >= 3,
            r@ == raw_markers(*m).take(t as int),
    {
        let marker = EventMarker { onset: m.get(t, 0), duration: m.get(t, 1), value: m.get(t, 2) };
        r.push(marker);
        proof {
            assert(r@ =~= raw_markers(*m).take(t + 1));
        }
    }
    proof {
        assert(r@ =~= raw_markers(*m));
    }
    r
}

/// Converts every discovered stimulus group into a named event whose
/// markers are stable-sorted by onset. Discovery itself (probing `stim1`,
/// `stim2`, ... until the first missing index) is the accessor's job; a
/// container without stimulus groups gives an empty list here, not an
/// error.
pub fn parse_events(stims: &Vec<RawStim>) -> (r: Events)
    requires
        forall|i: int| 0 <= i < stims@.len() ==> (#[trigger] stims@[i]).data.wf(),
    ensures
        r.events@.len() == stims@.len(),
        forall|i: int|
            0 <= i < stims@.len() ==> {
                &&& (#[trigger] r.events@[i]).name@ == stims@[i].name@
                &&& r.events@[i].markers@ == sort_markers(raw_markers(stims@[i].data))
                &&& sorted_by_onset(r.events@[i].markers@)
            },
{
    let mut events: Vec<Event> = Vec::new();
    for i in 0..stims.len()
        invariant
            forall|k: int| 0 <= k < stims@.len() ==> (#[trigger] stims@[k]).data.wf(),
            events@.len() == i,
            forall|k: int|
                0 <= k < i ==> {
                    &&& (#[trigger] events@[k]).name@ == stims@[k].name@
                    &&& events@[k].markers@ == sort_markers(raw_markers(stims@[k].data))
                    &&& sorted_by_onset(events@[k].markers@)
                },
    {
        let raw = extract_markers(&stims[i].data);
        let sorted = sort_markers_exec(&raw);
        proof {
            lemma_sort_markers(raw_markers(stims@[i as int].data));
        }
        let name = stims[i].name.clone();
        events.push(Event { name, markers: sorted });
    }
    Events { events }
}

} // verus!
