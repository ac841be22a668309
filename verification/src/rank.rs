//! Ranking: a stable descending sort of scored entries. Entries with equal
//! scores keep the order in which the evaluator or the scorer produced them,
//! so tie-breaking is reproducible.

use vstd::prelude::*;
use vstd::multiset::Multiset;
use vstd::seq_lib::{group_to_multiset_ensures, lemma_multiset_commutative};

use crate::model::entries_view;

verus! {

/// Scores are in descending order: no entry is out of order.
pub open spec fn sorted_desc(s: Seq<(Seq<char>, i32)>) -> bool {
    forall|i: int, j: int| 0 <= i < j < s.len() ==> s[i].1 >= s[j].1
}

/// Stable descending insertion: `e` goes after every entry whose score is at
/// least `e`'s and before the first strictly smaller one.
pub open spec fn insert_desc(s: Seq<(Seq<char>, i32)>, e: (Seq<char>, i32)) -> Seq<
    (Seq<char>, i32),
>
    decreases s.len(),
{
    if s.len() == 0 {
        seq![e]
    } else if s[0].1 >= e.1 {
        seq![s[0]] + insert_desc(s.drop_first(), e)
    } else {
        seq![e] + s
    }
}

/// Stable descending sort by score: insertion of each entry, in input order,
/// into the sorted image of the entries before it.
pub open spec fn sort_desc(s: Seq<(Seq<char>, i32)>) -> Seq<(Seq<char>, i32)>
    decreases s.len(),
{
    if s.len() == 0 {
        Seq::empty()
    } else {
        insert_desc(sort_desc(s.drop_last()), s.last())
    }
}

/// Inserting adds exactly one entry.
pub proof fn lemma_insert_desc_len(s: Seq<(Seq<char>, i32)>, e: (Seq<char>, i32))
    ensures
        insert_desc(s, e).len() == s.len() + 1,
    decreases s.len(),
{
    if s.len() > 0 && s[0].1 >= e.1 {
        lemma_insert_desc_len(s.drop_first(), e);
    }
}

/// Sorting keeps the number of entries.
pub proof fn lemma_sort_desc_len(s: Seq<(Seq<char>, i32)>)
    ensures
        sort_desc(s).len() == s.len(),
    decreases s.len(),
{
    if s.len() > 0 {
        lemma_sort_desc_len(s.drop_last());
        lemma_insert_desc_len(sort_desc(s.drop_last()), s.last());
    }
}

/// Where the boundary index `j` is known — everything before `j` scores at
/// least `e`, the entry at `j` (if any) strictly less — the stable insertion
/// is exactly `Seq::insert` at `j`.
pub proof fn lemma_insert_desc_split(s: Seq<(Seq<char>, i32)>, e: (Seq<char>, i32), j: int)
    requires
        0 <= j <= s.len(),
        forall|k: int| 0 <= k < j ==> (#[trigger] s[k]).1 >= e.1,
        j < s.len() ==> s[j].1 < e.1,
    ensures
        insert_desc(s, e) == s.insert(j, e),
    decreases s.len(),
{
    if s.len() == 0 {
        assert(insert_desc(s, e) =~= s.insert(0, e));
    } else if j == 0 {
        assert(insert_desc(s, e) =~= s.insert(0, e));
    } else {
        assert(s[0].1 >= e.1);
        lemma_insert_desc_split(s.drop_first(), e, j - 1);
        assert(seq![s[0]] + s.drop_first().insert(j - 1, e) =~= s.insert(j, e));
    }
}

/// Inserting into a descending list keeps it descending; the head of the
/// result is the inserted entry or the old head.
pub proof fn lemma_insert_desc_sorted(s: Seq<(Seq<char>, i32)>, e: (Seq<char>, i32))
    requires
        sorted_desc(s),
    ensures
        sorted_desc(insert_desc(s, e)),
        insert_desc(s, e)[0] == e || (s.len() > 0 && insert_desc(s, e)[0] == s[0]),
    decreases s.len(),
{
    lemma_insert_desc_len(s, e);
    if s.len() == 0 {
    } else if s[0].1 >= e.1 {
        let tail = s.drop_first();
        assert(sorted_desc(tail));
        lemma_insert_desc_sorted(tail, e);
        let rest = insert_desc(tail, e);
        let r = seq![s[0]] + rest;
        assert(s[0].1 >= rest[0].1);
        assert forall|i: int, j: int| 0 <= i < j < r.len() implies r[i].1 >= r[j].1 by {
            if i == 0 {
                if j == 1 {
                    assert(r[j] == rest[0]);
                } else {
                    assert(r[j] == rest[j - 1]);
                    assert(rest[0].1 >= rest[j - 1].1);
                }
            } else {
                assert(r[i] == rest[i - 1]);
                assert(r[j] == rest[j - 1]);
            }
        }
    } else {
        let r = seq![e] + s;
        assert forall|i: int, j: int| 0 <= i < j < r.len() implies r[i].1 >= r[j].1 by {
            if i == 0 {
                assert(r[j] == s[j - 1]);
                if j > 1 {
                    assert(s[0].1 >= s[j - 1].1);
                }
            }
        }
    }
}

/// Inserting adds exactly the inserted entry to the contents.
pub proof fn lemma_insert_desc_multiset(s: Seq<(Seq<char>, i32)>, e: (Seq<char>, i32))
    ensures
        insert_desc(s, e).to_multiset() == s.to_multiset().insert(e),
    decreases s.len(),
{
    broadcast use group_to_multiset_ensures;
    broadcast use vstd::multiset::group_multiset_axioms;

    if s.len() == 0 {
        assert(s.to_multiset() =~= Multiset::<(Seq<char>, i32)>::empty());
        assert(insert_desc(s, e) =~= s.push(e));
    } else if s[0].1 >= e.1 {
        let tail = s.drop_first();
        lemma_insert_desc_multiset(tail, e);
        lemma_multiset_commutative(seq![s[0]], insert_desc(tail, e));
        lemma_multiset_commutative(seq![s[0]], tail);
        assert(seq![s[0]] + tail =~= s);
        assert(seq![s[0]].to_multiset() =~= Multiset::<(Seq<char>, i32)>::empty().insert(s[0]))
            by {
            assert(seq![s[0]] =~= Seq::<(Seq<char>, i32)>::empty().push(s[0]));
            assert(Seq::<(Seq<char>, i32)>::empty().to_multiset() =~= Multiset::<
                (Seq<char>, i32),
            >::empty());
        }
        assert(insert_desc(s, e).to_multiset() =~= s.to_multiset().insert(e));
    } else {
        lemma_multiset_commutative(seq![e], s);
        assert(seq![e].to_multiset() =~= Multiset::<(Seq<char>, i32)>::empty().insert(e)) by {
            assert(seq![e] =~= Seq::<(Seq<char>, i32)>::empty().push(e));
            assert(Seq::<(Seq<char>, i32)>::empty().to_multiset() =~= Multiset::<
                (Seq<char>, i32),
            >::empty());
        }
        assert(insert_desc(s, e).to_multiset() =~= s.to_multiset().insert(e));
    }
}

/// Ranking order: the sorted image is descending by score throughout.
pub proof fn lemma_sort_desc_sorted(s: Seq<(Seq<char>, i32)>)
    ensures
        sorted_desc(sort_desc(s)),
    decreases s.len(),
{
    if s.len() > 0 {
        lemma_sort_desc_sorted(s.drop_last());
        lemma_insert_desc_sorted(sort_desc(s.drop_last()), s.last());
    }
}

/// Sorting permutes: exactly the input entries come out, no omission, no
/// duplication, no filtering.
pub proof fn lemma_sort_desc_permutes(s: Seq<(Seq<char>, i32)>)
    ensures
        sort_desc(s).to_multiset() == s.to_multiset(),
    decreases s.len(),
{
    broadcast use group_to_multiset_ensures;

    if s.len() > 0 {
        lemma_sort_desc_permutes(s.drop_last());
        lemma_insert_desc_multiset(sort_desc(s.drop_last()), s.last());
        assert(s =~= s.drop_last().push(s.last()));
    }
}

/// Sorts the entries descending by score with a stable insertion sort: ties
/// keep their input order.
pub fn rank(entries: &Vec<(String, i32)>) -> (out: Vec<(String, i32)>)
    ensures
        entries_view(out@) == sort_desc(entries_view(entries@)),
        sorted_desc(entries_view(out@)),
{
    let ghost whole = entries_view(entries@);
    let mut out: Vec<(String, i32)> = Vec::new();
    for i in 0..entries.len()
        invariant
            whole == entries_view(entries@),
            entries_view(out@) == sort_desc(whole.subrange(0, i as int)),
    {
        let score = entries[i].1;
        let mut j: usize = 0;
        while j < out.len() && out[j].1 >= score
            invariant
                j <= out@.len(),
                forall|k: int| 0 <= k < j ==> (#[trigger] out@[k]).1 >= score,
            decreases out@.len() - j,
        {
            j = j + 1;
        }
        let ghost prev = out@;
        let entry = (entries[i].0.clone(), score);
        out.insert(j, entry);
        proof {
            let ev = (entries@[i as int].0@, score);
            assert forall|k: int| 0 <= k < j implies (#[trigger] entries_view(prev)[k]).1 >= ev.1
                by {
                assert(entries_view(prev)[k].1 == prev[k].1);
            }
            lemma_insert_desc_split(entries_view(prev), ev, j as int);
            assert(entries_view(out@) =~= entries_view(prev).insert(j as int, ev));
            assert(whole.subrange(0, i + 1).drop_last() =~= whole.subrange(0, i as int));
            assert(whole.subrange(0, i + 1).last() == ev);
        }
    }
    proof {
        assert(whole.subrange(0, entries@.len() as int) =~= whole);
        lemma_sort_desc_sorted(whole);
    }
    out
}

} // verus!
