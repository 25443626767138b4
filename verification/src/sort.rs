use vstd::prelude::*;

verus! {

/// Insert `x` into a sequence sorted descending by key, after every element
/// whose key is at least `x`'s — the position a stable sort gives an
/// element that arrives after the ones already placed.
pub open spec fn spec_insert_desc<T>(s: Seq<(u64, T)>, x: (u64, T)) -> Seq<(u64, T)>
    decreases s.len(),
{
    if s.len() == 0 {
        seq![x]
    } else if s.last().0 >= x.0 {
        s.push(x)
    } else {
        spec_insert_desc(s.drop_last(), x).push(s.last())
    }
}

/// Stable descending sort by key: elements are taken left to right and each
/// is inserted after the already-placed elements with keys at least its
/// own, so elements with equal keys keep their input order.
pub open spec fn spec_sort_desc<T>(s: Seq<(u64, T)>) -> Seq<(u64, T)>
    decreases s.len(),
{
    if s.len() == 0 {
        Seq::empty()
    } else {
        spec_insert_desc(spec_sort_desc(s.drop_last()), s.last())
    }
}

/// Keys never increase along the sequence.
pub open spec fn spec_sorted_desc<T>(s: Seq<(u64, T)>) -> bool {
    forall|i: int, j: int| 0 <= i < j < s.len() ==> s[i].0 >= s[j].0
}

/// Inserting grows the length by one.
pub proof fn lemma_insert_desc_len<T>(s: Seq<(u64, T)>, x: (u64, T))
    ensures
        spec_insert_desc(s, x).len() == s.len() + 1,
    decreases s.len(),
{
    if s.len() > 0 && !(s.last().0 >= x.0) {
        lemma_insert_desc_len(s.drop_last(), x);
    }
}

/// Sorting keeps the length.
pub proof fn lemma_sort_desc_len<T>(s: Seq<(u64, T)>)
    ensures
        spec_sort_desc(s).len() == s.len(),
    decreases s.len(),
{
    if s.len() > 0 {
        lemma_sort_desc_len(s.drop_last());
        lemma_insert_desc_len(spec_sort_desc(s.drop_last()), s.last());
    }
}

/// A lower bound on every key survives an insertion that respects it.
pub proof fn lemma_insert_desc_key_lb<T>(s: Seq<(u64, T)>, x: (u64, T), k: u64)
    requires
        forall|i: int| 0 <= i < s.len() ==> (#[trigger] s[i]).0 >= k,
        x.0 >= k,
    ensures
        forall|i: int|
            0 <= i < spec_insert_desc(s, x).len() ==> (#[trigger] spec_insert_desc(s, x)[i]).0
                >= k,
    decreases s.len(),
{
    if s.len() > 0 && !(s.last().0 >= x.0) {
        lemma_insert_desc_key_lb(s.drop_last(), x, k);
        lemma_insert_desc_len(s.drop_last(), x);
    }
}

/// Inserting into a sorted sequence keeps it sorted.
pub proof fn lemma_insert_desc_sorted<T>(s: Seq<(u64, T)>, x: (u64, T))
    requires
        spec_sorted_desc(s),
    ensures
        spec_sorted_desc(spec_insert_desc(s, x)),
    decreases s.len(),
{
    if s.len() == 0 {
    } else if s.last().0 >= x.0 {
        let t = s.push(x);
        assert forall|i: int, j: int| 0 <= i < j < t.len() implies t[i].0 >= t[j].0 by {
            if j == s.len() as int {
                if i < s.len() - 1 {
                    assert(s[i].0 >= s.last().0);
                }
            }
        }
    } else {
        assert(spec_sorted_desc(s.drop_last()));
        lemma_insert_desc_sorted(s.drop_last(), x);
        assert forall|i: int| 0 <= i < s.drop_last().len() implies (#[trigger] s.drop_last()[i]).0
            >= s.last().0 by {
            assert(s[i].0 >= s.last().0);
        }
        lemma_insert_desc_key_lb(s.drop_last(), x, s.last().0);
        lemma_insert_desc_len(s.drop_last(), x);
        let t = spec_insert_desc(s.drop_last(), x);
        let u = t.push(s.last());
        assert forall|i: int, j: int| 0 <= i < j < u.len() implies u[i].0 >= u[j].0 by {
            if j == t.len() as int {
                assert(t[i].0 >= s.last().0);
            }
        }
    }
}

/// Sorting law: the result is sorted descending by key.
pub proof fn lemma_sort_desc_sorted<T>(s: Seq<(u64, T)>)
    ensures
        spec_sorted_desc(spec_sort_desc(s)),
    decreases s.len(),
{
    if s.len() > 0 {
        lemma_sort_desc_sorted(s.drop_last());
        lemma_insert_desc_sorted(spec_sort_desc(s.drop_last()), s.last());
    }
}

/// Idempotence law: sorting a sequence that is already sorted descending
/// gives back exactly that sequence, so re-ranking ranked output is a no-op.
pub proof fn lemma_sort_desc_idempotent<T>(s: Seq<(u64, T)>)
    requires
        spec_sorted_desc(s),
    ensures
        spec_sort_desc(s) == s,
    decreases s.len(),
{
    if s.len() > 0 {
        assert(spec_sorted_desc(s.drop_last()));
        lemma_sort_desc_idempotent(s.drop_last());
        if s.len() == 1 {
            assert(spec_insert_desc(s.drop_last(), s.last()) =~= s);
        } else {
            assert(s.drop_last().last().0 >= s.last().0) by {
                assert(s[s.len() - 2].0 >= s[s.len() - 1].0);
            }
            assert(s.drop_last().push(s.last()) =~= s);
        }
    }
}

/// Insertion adds exactly the new element to the sequence's multiset.
pub proof fn lemma_insert_desc_multiset<T>(s: Seq<(u64, T)>, x: (u64, T))
    ensures
        spec_insert_desc(s, x).to_multiset() == s.to_multiset().insert(x),
    decreases s.len(),
{
    broadcast use vstd::seq_lib::group_to_multiset_ensures;

    if s.len() == 0 {
        assert(seq![x] =~= Seq::<(u64, T)>::empty().push(x));
    } else if s.last().0 >= x.0 {
    } else {
        lemma_insert_desc_multiset(s.drop_last(), x);
        assert(s.drop_last().push(s.last()) =~= s);
        assert(s.drop_last().to_multiset().insert(x).insert(s.last())
            =~= s.drop_last().to_multiset().insert(s.last()).insert(x));
    }
}

/// Permutation law: sorting rearranges the elements and nothing more.
pub proof fn lemma_sort_desc_multiset<T>(s: Seq<(u64, T)>)
    ensures
        spec_sort_desc(s).to_multiset() == s.to_multiset(),
    decreases s.len(),
{
    broadcast use vstd::seq_lib::group_to_multiset_ensures;

    if s.len() > 0 {
        lemma_sort_desc_multiset(s.drop_last());
        lemma_insert_desc_multiset(spec_sort_desc(s.drop_last()), s.last());
        assert(s.drop_last().push(s.last()) =~= s);
    }
}

/// Insert one keyed element into a vector sorted descending by key, keeping
/// it sorted and placing the new element after equal keys.
fn insert_desc<T>(s: Vec<(u64, T)>, x: (u64, T)) -> (r: Vec<(u64, T)>)
    ensures
        r@ == spec_insert_desc(s@, x),
    decreases s@.len(),
{
    let mut s = s;
    if s.len() == 0 {
        s.push(x);
        s
    } else if s[s.len() - 1].0 >= x.0 {
        s.push(x);
        s
    } else {
        let ghost s0 = s@;
        let last = s.pop().unwrap();
        let mut r = insert_desc(s, x);
        r.push(last);
        proof {
            assert(s0.drop_last() =~= s0.subrange(0, s0.len() - 1));
        }
        r
    }
}

/// Stable descending sort of a keyed vector, exactly the order
/// `spec_sort_desc` describes.
pub fn sort_pairs_desc<T>(v: Vec<(u64, T)>) -> (r: Vec<(u64, T)>)
    ensures
        r@ == spec_sort_desc(v@),
    decreases v@.len(),
{
    let mut v = v;
    if v.len() == 0 {
        proof {
            assert(v@ =~= Seq::<(u64, T)>::empty());
        }
        v
    } else {
        let last = v.pop().unwrap();
        let sorted = sort_pairs_desc(v);
        insert_desc(sorted, last)
    }
}

} // verus!
