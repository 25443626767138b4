use vstd::prelude::*;

use crate::scan::FileRecord;
use crate::sort::lemma_sort_desc_idempotent;
use crate::sort::lemma_sort_desc_len;
use crate::sort::lemma_sort_desc_sorted;
use crate::sort::sort_pairs_desc;
use crate::sort::spec_sort_desc;

verus! {

/// The (modification time, base name) pairs the recency ranking orders.
pub open spec fn spec_recency_pairs(rs: Seq<FileRecord>) -> Seq<(u64, String)> {
    rs.map(|i: int, r: FileRecord| (r.modified_at, r.name))
}

/// Every record, ranked most recently modified first; records with equal
/// modification times keep their scan order (the sort is stable).
pub open spec fn spec_ranked(rs: Seq<FileRecord>) -> Seq<(u64, String)> {
    spec_sort_desc(spec_recency_pairs(rs))
}

/// Idempotence law of the recency ranking: the ranked pairs are sorted
/// descending already, so ranking them again changes nothing.
pub proof fn lemma_ranking_idempotent(rs: Seq<FileRecord>)
    ensures
        spec_sort_desc(spec_ranked(rs)) == spec_ranked(rs),
{
    lemma_sort_desc_sorted(spec_recency_pairs(rs));
    lemma_sort_desc_idempotent(spec_ranked(rs));
}

/// The base names of the `k` most recently modified records, most recent
/// first — all of them, in ranked order, when fewer than `k` exist.
pub fn top_recent(records: &Vec<FileRecord>, k: usize) -> (names: Vec<String>)
    ensures
        names@.len() == if k <= records@.len() {
            k as int
        } else {
            records@.len() as int
        },
        forall|i: int| 0 <= i < names@.len() ==> names@[i] == spec_ranked(records@)[i].1,
{
    let mut pairs: Vec<(u64, String)> = Vec::new();
    let mut i: usize = 0;
    while i < records.len()
        invariant
            i <= records@.len(),
            pairs@.len() == i,
            forall|j: int|
                0 <= j < i ==> #[trigger] pairs@[j] == (records@[j].modified_at, records@[j].name),
        decreases records@.len() - i,
    {
        pairs.push((records[i].modified_at, records[i].name.clone()));
        i = i + 1;
    }
    proof {
        assert(pairs@ =~= spec_recency_pairs(records@));
        lemma_sort_desc_len(pairs@);
    }
    let sorted = sort_pairs_desc(pairs);
    let limit: usize = if k <= sorted.len() {
        k
    } else {
        sorted.len()
    };
    let mut names: Vec<String> = Vec::new();
    let mut j: usize = 0;
    while j < limit
        invariant
            j <= limit,
            limit <= sorted@.len(),
            sorted@ == spec_ranked(records@),
            names@.len() == j,
            forall|jj: int| 0 <= jj < j ==> #[trigger] names@[jj] == sorted@[jj].1,
        decreases limit - j,
    {
        names.push(sorted[j].1.clone());
        j = j + 1;
    }
    names
}

} // verus!
