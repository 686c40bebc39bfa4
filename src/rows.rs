//! Facts about filtering the rows of the fish table.
use crate::db::FishRecord;
use vstd::prelude::*;

verus! {

/// Ids grow strictly along the rows, so no two rows share an id.
pub open spec fn ids_increasing(rows: Seq<FishRecord>) -> bool {
    forall|i: int, j: int| 0 <= i < j < rows.len() ==> rows[i].id < rows[j].id
}

/// Filtering keeps the order of the rows, so it keeps ids increasing.
pub proof fn lemma_filter_ids_increasing(rows: Seq<FishRecord>, p: spec_fn(FishRecord) -> bool)
    requires
        ids_increasing(rows),
    ensures
        ids_increasing(rows.filter(p)),
        forall|k: int|
            0 <= k < rows.filter(p).len() ==> rows.contains(#[trigger] rows.filter(p)[k]),
    decreases rows.len(),
{
    reveal(Seq::filter);
    if rows.len() > 0 {
        let init = rows.drop_last();
        assert(ids_increasing(init));
        lemma_filter_ids_increasing(init, p);
        let sub = init.filter(p);
        assert forall|k: int| 0 <= k < sub.len() implies sub[k].id < rows.last().id by {
            assert(init.contains(sub[k]));
            let j = choose|j: int| 0 <= j < init.len() && init[j] == sub[k];
            assert(rows[j] == sub[k]);
        }
        assert forall|k: int| 0 <= k < sub.len() implies rows.contains(#[trigger] sub[k]) by {
            assert(init.contains(sub[k]));
            let j = choose|j: int| 0 <= j < init.len() && init[j] == sub[k];
            assert(rows[j] == sub[k]);
        }
        assert(rows[rows.len() - 1] == rows.last());
    }
}

/// A filter that keeps every element changes nothing.
pub proof fn lemma_filter_keeps_all<A>(s: Seq<A>, p: spec_fn(A) -> bool)
    requires
        forall|i: int| 0 <= i < s.len() ==> p(#[trigger] s[i]),
    ensures
        s.filter(p) == s,
    decreases s.len(),
{
    reveal(Seq::filter);
    if s.len() > 0 {
        lemma_filter_keeps_all(s.drop_last(), p);
        assert(s.drop_last().push(s.last()) =~= s);
    }
}

/// A filter that keeps no element leaves nothing.
pub proof fn lemma_filter_keeps_none<A>(s: Seq<A>, p: spec_fn(A) -> bool)
    requires
        forall|i: int| 0 <= i < s.len() ==> !p(#[trigger] s[i]),
    ensures
        s.filter(p) == Seq::<A>::empty(),
    decreases s.len(),
{
    reveal(Seq::filter);
    if s.len() > 0 {
        lemma_filter_keeps_none(s.drop_last(), p);
    }
}

/// Filtering twice is filtering once by both conditions.
pub proof fn lemma_filter_filter<A>(s: Seq<A>, p: spec_fn(A) -> bool, q: spec_fn(A) -> bool)
    ensures
        s.filter(p).filter(q) == s.filter(|x: A| p(x) && q(x)),
    decreases s.len(),
{
    reveal(Seq::filter);
    if s.len() > 0 {
        lemma_filter_filter(s.drop_last(), p, q);
        let sub = s.drop_last().filter(p);
        if p(s.last()) {
            sub.lemma_filter_push(s.last(), q);
        }
    }
}

/// Filtering a prefix one element longer.
pub proof fn lemma_filter_take_next<A>(s: Seq<A>, p: spec_fn(A) -> bool, i: int)
    requires
        0 <= i < s.len(),
    ensures
        s.take(i + 1).filter(p) == if p(s[i]) {
            s.take(i).filter(p).push(s[i])
        } else {
            s.take(i).filter(p)
        },
{
    assert(s.take(i + 1) =~= s.take(i).push(s[i]));
    s.take(i).lemma_filter_push(s[i], p);
}

} // verus!
