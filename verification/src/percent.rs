use vstd::prelude::*;

use vstd::arithmetic::div_mod::lemma_div_is_ordered;
use vstd::arithmetic::div_mod::lemma_div_multiples_vanish_fancy;

use crate::aggregate::LanguageAggregate;

verus! {

/// A language's share of the total project bytes, held in hundredths of a
/// percent so that the shares stay exact integers: 6667 reads as 66.67%.
pub struct LanguagePercentage {
    pub language_label: String,
    pub percent_hundredths: u32,
}

/// The share `bytes / total` in hundredths of a percent, rounded to the
/// nearest hundredth. A zero total gives a zero share, so an empty project
/// has well-defined percentages and no division fault.
pub open spec fn spec_percent_hundredths(bytes: u64, total: u64) -> int {
    if total == 0 {
        0
    } else {
        (bytes * 10000 + total / 2) / (total as int)
    }
}

/// One language's share of the total, in hundredths of a percent. A share
/// of a part never exceeds the whole: at most 10000, that is 100.00%.
pub fn percent_hundredths(bytes: u64, total: u64) -> (p: u32)
    requires
        bytes <= total,
    ensures
        p == spec_percent_hundredths(bytes, total),
        p <= 10000,
{
    if total == 0 {
        0
    } else {
        let num: u128 = bytes as u128 * 10000 + (total / 2) as u128;
        let q: u128 = num / (total as u128);
        proof {
            lemma_div_is_ordered(
                bytes * 10000 + total / 2,
                (total as int) * 10000 + total / 2,
                total as int,
            );
            lemma_div_multiples_vanish_fancy(10000, (total / 2) as int, total as int);
        }
        q as u32
    }
}

/// Derive each language's share of the total project bytes. The labels and
/// the order of the aggregates are kept; each share is the rounded
/// hundredths-of-a-percent quotient, and zero whenever the total is zero.
pub fn get_percentages(aggs: &Vec<LanguageAggregate>, total_bytes: u64) -> (ps: Vec<
    LanguagePercentage,
>)
    requires
        forall|i: int| 0 <= i < aggs@.len() ==> (#[trigger] aggs@[i]).byte_size <= total_bytes,
    ensures
        ps@.len() == aggs@.len(),
        forall|i: int|
            0 <= i < ps@.len() ==> (#[trigger] ps@[i]).language_label@
                == aggs@[i].language_label@,
        forall|i: int|
            0 <= i < ps@.len() ==> (#[trigger] ps@[i]).percent_hundredths
                == spec_percent_hundredths(aggs@[i].byte_size, total_bytes),
        forall|i: int| 0 <= i < ps@.len() ==> (#[trigger] ps@[i]).percent_hundredths <= 10000,
{
    let mut ps: Vec<LanguagePercentage> = Vec::new();
    let mut i: usize = 0;
    while i < aggs.len()
        invariant
            i <= aggs@.len(),
            ps@.len() == i,
            forall|j: int| 0 <= j < aggs@.len() ==> (#[trigger] aggs@[j]).byte_size <= total_bytes,
            forall|j: int|
                0 <= j < i ==> (#[trigger] ps@[j]).language_label@ == aggs@[j].language_label@,
            forall|j: int|
                0 <= j < i ==> (#[trigger] ps@[j]).percent_hundredths == spec_percent_hundredths(
                    aggs@[j].byte_size,
                    total_bytes,
                ),
            forall|j: int| 0 <= j < i ==> (#[trigger] ps@[j]).percent_hundredths <= 10000,
        decreases aggs@.len() - i,
    {
        let p = percent_hundredths(aggs[i].byte_size, total_bytes);
        ps.push(
            LanguagePercentage {
                language_label: aggs[i].language_label.clone(),
                percent_hundredths: p,
            },
        );
        i = i + 1;
    }
    ps
}

} // verus!
