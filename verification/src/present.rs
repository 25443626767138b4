use vstd::prelude::*;

use crate::aggregate::LanguageAggregate;
use crate::percent::LanguagePercentage;
use crate::sort::lemma_sort_desc_len;
use crate::sort::sort_pairs_desc;
use crate::sort::spec_sort_desc;

verus! {

/// Each aggregate keyed by its byte size, for the statistics table's order.
pub open spec fn spec_size_pairs(aggs: Seq<LanguageAggregate>) -> Seq<(u64, LanguageAggregate)> {
    aggs.map(|i: int, a: LanguageAggregate| (a.byte_size, a))
}

/// The statistics table's row order: the aggregates sorted by byte size,
/// largest first, equal sizes keeping their aggregate order.
pub open spec fn spec_table_order(aggs: Seq<LanguageAggregate>) -> Seq<LanguageAggregate> {
    spec_sort_desc(spec_size_pairs(aggs)).map(|i: int, p: (u64, LanguageAggregate)| p.1)
}

/// The aggregates in the order the statistics table shows them.
pub fn aggregates_by_size(aggs: &Vec<LanguageAggregate>) -> (r: Vec<LanguageAggregate>)
    ensures
        r@ == spec_table_order(aggs@),
{
    let mut pairs: Vec<(u64, LanguageAggregate)> = Vec::new();
    let mut i: usize = 0;
    while i < aggs.len()
        invariant
            i <= aggs@.len(),
            pairs@.len() == i,
            forall|j: int| 0 <= j < i ==> #[trigger] pairs@[j] == (aggs@[j].byte_size, aggs@[j]),
        decreases aggs@.len() - i,
    {
        pairs.push((aggs[i].byte_size, clone_aggregate(&aggs[i])));
        i = i + 1;
    }
    proof {
        assert(pairs@ =~= spec_size_pairs(aggs@));
        lemma_sort_desc_len(pairs@);
    }
    let sorted = sort_pairs_desc(pairs);
    let mut r: Vec<LanguageAggregate> = Vec::new();
    let mut j: usize = 0;
    while j < sorted.len()
        invariant
            j <= sorted@.len(),
            sorted@ == spec_sort_desc(spec_size_pairs(aggs@)),
            r@.len() == j,
            forall|jj: int| 0 <= jj < j ==> #[trigger] r@[jj] == sorted@[jj].1,
        decreases sorted@.len() - j,
    {
        r.push(clone_aggregate(&sorted[j].1));
        j = j + 1;
    }
    proof {
        assert(r@ =~= spec_table_order(aggs@));
    }
    r
}

/// Each percentage keyed by its hundredths value, for the bar chart's order.
pub open spec fn spec_gauge_pairs(ps: Seq<LanguagePercentage>) -> Seq<(u64, String)> {
    ps.map(|i: int, p: LanguagePercentage| (p.percent_hundredths as u64, p.language_label))
}

/// The chart entries a sorted gauge list yields: one (label, whole percent)
/// bar per language holding at least one whole percent, in list order.
pub open spec fn spec_bar_entries(sorted: Seq<(u64, String)>) -> Seq<(String, u64)>
    decreases sorted.len(),
{
    if sorted.len() == 0 {
        Seq::empty()
    } else {
        let rest = spec_bar_entries(sorted.drop_last());
        if sorted.last().0 >= 100 {
            rest.push((sorted.last().1, sorted.last().0 / 100))
        } else {
            rest
        }
    }
}

/// What the language distribution bar chart shows for these percentages:
/// largest share first, shares under one percent dropped, each value the
/// whole-percent part of the share.
pub open spec fn spec_bar_data(ps: Seq<LanguagePercentage>) -> Seq<(String, u64)> {
    spec_bar_entries(spec_sort_desc(spec_gauge_pairs(ps)))
}

/// The bar chart's (label, whole percent) entries for these percentages.
pub fn bar_data(ps: &Vec<LanguagePercentage>) -> (r: Vec<(String, u64)>)
    ensures
        r@ == spec_bar_data(ps@),
{
    let mut pairs: Vec<(u64, String)> = Vec::new();
    let mut i: usize = 0;
    while i < ps.len()
        invariant
            i <= ps@.len(),
            pairs@.len() == i,
            forall|j: int|
                0 <= j < i ==> #[trigger] pairs@[j] == (
                    ps@[j].percent_hundredths as u64,
                    ps@[j].language_label,
                ),
        decreases ps@.len() - i,
    {
        pairs.push((ps[i].percent_hundredths as u64, ps[i].language_label.clone()));
        i = i + 1;
    }
    proof {
        assert(pairs@ =~= spec_gauge_pairs(ps@));
        lemma_sort_desc_len(pairs@);
    }
    let sorted = sort_pairs_desc(pairs);
    let mut r: Vec<(String, u64)> = Vec::new();
    let mut j: usize = 0;
    while j < sorted.len()
        invariant
            j <= sorted@.len(),
            sorted@ == spec_sort_desc(spec_gauge_pairs(ps@)),
            r@ == spec_bar_entries(sorted@.subrange(0, j as int)),
        decreases sorted@.len() - j,
    {
        proof {
            assert(sorted@.subrange(0, j + 1).drop_last() =~= sorted@.subrange(0, j as int));
            assert(sorted@.subrange(0, j + 1).last() == sorted@[j as int]);
        }
        if sorted[j].0 >= 100 {
            r.push((sorted[j].1.clone(), sorted[j].0 / 100));
        }
        j = j + 1;
    }
    proof {
        assert(sorted@.subrange(0, sorted@.len() as int) =~= sorted@);
    }
    r
}

/// An equal copy of one aggregate.
fn clone_aggregate(a: &LanguageAggregate) -> (r: LanguageAggregate)
    ensures
        r == *a,
{
    LanguageAggregate {
        language_label: a.language_label.clone(),
        file_count: a.file_count,
        line_count: a.line_count,
        byte_size: a.byte_size,
    }
}

} // verus!
