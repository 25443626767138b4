use vstd::prelude::*;

use crate::classifier::language_for_extension;
use crate::classifier::spec_language_for;
use crate::scan::FileRecord;

verus! {

/// Per-language totals over the scanned records: how many files the
/// language has, their lines, and their bytes.
pub struct LanguageAggregate {
    pub language_label: String,
    pub file_count: u32,
    pub line_count: u32,
    pub byte_size: u64,
}

/// Whether a record's extension is classified to a language.
pub open spec fn spec_classified(r: FileRecord) -> bool {
    match r.extension {
        Some(x) => spec_language_for(x@) is Some,
        None => false,
    }
}

/// The language label a classified record counts toward.
pub open spec fn spec_label_of(r: FileRecord) -> Seq<char> {
    match r.extension {
        Some(x) => match spec_language_for(x@) {
            Some(l) => l,
            None => Seq::empty(),
        },
        None => Seq::empty(),
    }
}

/// Byte size summed over the classified records: the grand total the
/// aggregation publishes. Only classified files contribute, a deliberate
/// policy of this library.
pub open spec fn spec_classified_bytes(rs: Seq<FileRecord>) -> int
    decreases rs.len(),
{
    if rs.len() == 0 {
        0
    } else {
        spec_classified_bytes(rs.drop_last()) + if spec_classified(rs.last()) {
            rs.last().byte_size as int
        } else {
            0int
        }
    }
}

/// Byte size summed over every record, classified or not.
pub open spec fn spec_all_bytes(rs: Seq<FileRecord>) -> int
    decreases rs.len(),
{
    if rs.len() == 0 {
        0
    } else {
        spec_all_bytes(rs.drop_last()) + rs.last().byte_size as int
    }
}

/// How many classified records carry this language label.
pub open spec fn spec_lang_files(rs: Seq<FileRecord>, label: Seq<char>) -> int
    decreases rs.len(),
{
    if rs.len() == 0 {
        0
    } else {
        spec_lang_files(rs.drop_last(), label) + if spec_classified(rs.last())
            && spec_label_of(rs.last()) == label {
            1int
        } else {
            0int
        }
    }
}

/// Line count summed over the classified records of this language.
pub open spec fn spec_lang_lines(rs: Seq<FileRecord>, label: Seq<char>) -> int
    decreases rs.len(),
{
    if rs.len() == 0 {
        0
    } else {
        spec_lang_lines(rs.drop_last(), label) + if spec_classified(rs.last())
            && spec_label_of(rs.last()) == label {
            rs.last().line_count as int
        } else {
            0int
        }
    }
}

/// Byte size summed over the classified records of this language.
pub open spec fn spec_lang_bytes(rs: Seq<FileRecord>, label: Seq<char>) -> int
    decreases rs.len(),
{
    if rs.len() == 0 {
        0
    } else {
        spec_lang_bytes(rs.drop_last(), label) + if spec_classified(rs.last())
            && spec_label_of(rs.last()) == label {
            rs.last().byte_size as int
        } else {
            0int
        }
    }
}

/// Byte size summed over the aggregates themselves.
pub open spec fn spec_agg_bytes(aggs: Seq<LanguageAggregate>) -> int
    decreases aggs.len(),
{
    if aggs.len() == 0 {
        0
    } else {
        spec_agg_bytes(aggs.drop_last()) + aggs.last().byte_size as int
    }
}

/// Whether some aggregate carries this language label.
pub open spec fn spec_has_label(aggs: Seq<LanguageAggregate>, label: Seq<char>) -> bool {
    exists|i: int| 0 <= i < aggs.len() && aggs[i].language_label@ == label
}

/// What a correct aggregation of `rs` looks like: labels are unique keys;
/// every aggregate holds exactly its language's file, line and byte sums
/// over `rs` and stands for at least one record; and a label missing from
/// the aggregates has no classified records at all. Together: a language
/// appears if and only if some classified record carries it.
pub open spec fn spec_aggregates_ok(aggs: Seq<LanguageAggregate>, rs: Seq<FileRecord>) -> bool {
    &&& forall|i: int, j: int|
        #![trigger aggs[i], aggs[j]]
        0 <= i < j < aggs.len() ==> aggs[i].language_label@ != aggs[j].language_label@
    &&& forall|i: int|
        #![trigger aggs[i]]
        0 <= i < aggs.len() ==> {
            &&& aggs[i].file_count == spec_lang_files(rs, aggs[i].language_label@)
            &&& aggs[i].line_count == spec_lang_lines(rs, aggs[i].language_label@)
            &&& aggs[i].byte_size == spec_lang_bytes(rs, aggs[i].language_label@)
            &&& aggs[i].file_count > 0
        }
    &&& forall|label: Seq<char>|
        #![trigger spec_lang_files(rs, label)]
        spec_has_label(aggs, label) || spec_lang_files(rs, label) == 0
}

/// Every per-language sum is nonnegative, a language never has more files
/// than there are records, and its bytes never exceed the classified total,
/// which never exceeds the total over all records.
pub proof fn lemma_lang_bounds(rs: Seq<FileRecord>, label: Seq<char>)
    ensures
        0 <= spec_lang_files(rs, label) <= rs.len(),
        0 <= spec_lang_lines(rs, label),
        0 <= spec_lang_bytes(rs, label) <= spec_classified_bytes(rs),
        0 <= spec_classified_bytes(rs) <= spec_all_bytes(rs),
    decreases rs.len(),
{
    if rs.len() > 0 {
        lemma_lang_bounds(rs.drop_last(), label);
    }
}

/// A language with no files has no lines and no bytes either.
pub proof fn lemma_lang_zero(rs: Seq<FileRecord>, label: Seq<char>)
    requires
        spec_lang_files(rs, label) == 0,
    ensures
        spec_lang_lines(rs, label) == 0,
        spec_lang_bytes(rs, label) == 0,
    decreases rs.len(),
{
    if rs.len() > 0 {
        lemma_lang_bounds(rs.drop_last(), label);
        lemma_lang_zero(rs.drop_last(), label);
    }
}

/// Every sum over a prefix is at most the sum over the whole sequence.
pub proof fn lemma_prefix_le(rs: Seq<FileRecord>, j: int, label: Seq<char>)
    requires
        0 <= j <= rs.len(),
    ensures
        spec_lang_files(rs.subrange(0, j), label) <= spec_lang_files(rs, label),
        spec_lang_lines(rs.subrange(0, j), label) <= spec_lang_lines(rs, label),
        spec_lang_bytes(rs.subrange(0, j), label) <= spec_lang_bytes(rs, label),
        spec_classified_bytes(rs.subrange(0, j)) <= spec_classified_bytes(rs),
    decreases rs.len() - j,
{
    if j == rs.len() {
        assert(rs.subrange(0, j) =~= rs);
    } else {
        lemma_prefix_le(rs, j + 1, label);
        assert(rs.subrange(0, j + 1).drop_last() =~= rs.subrange(0, j));
        assert(rs.subrange(0, j + 1).last() == rs[j]);
    }
}

/// How every sum changes when a classified record is appended.
pub proof fn lemma_classified_push(rs: Seq<FileRecord>, r: FileRecord, label: Seq<char>)
    requires
        spec_classified(r),
    ensures
        spec_lang_files(rs.push(r), label) == spec_lang_files(rs, label) + if spec_label_of(r)
            == label {
            1int
        } else {
            0int
        },
        spec_lang_lines(rs.push(r), label) == spec_lang_lines(rs, label) + if spec_label_of(r)
            == label {
            r.line_count as int
        } else {
            0int
        },
        spec_lang_bytes(rs.push(r), label) == spec_lang_bytes(rs, label) + if spec_label_of(r)
            == label {
            r.byte_size as int
        } else {
            0int
        },
        spec_classified_bytes(rs.push(r)) == spec_classified_bytes(rs) + r.byte_size,
{
    assert(rs.push(r).drop_last() =~= rs);
    assert(rs.push(r).last() == r);
}

/// Appending an unclassified record changes no sum but the all-records one.
pub proof fn lemma_unclassified_push(rs: Seq<FileRecord>, r: FileRecord, label: Seq<char>)
    requires
        !spec_classified(r),
    ensures
        spec_lang_files(rs.push(r), label) == spec_lang_files(rs, label),
        spec_lang_lines(rs.push(r), label) == spec_lang_lines(rs, label),
        spec_lang_bytes(rs.push(r), label) == spec_lang_bytes(rs, label),
        spec_classified_bytes(rs.push(r)) == spec_classified_bytes(rs),
{
    assert(rs.push(r).drop_last() =~= rs);
    assert(rs.push(r).last() == r);
}

/// Replacing one aggregate moves the byte sum by the difference.
pub proof fn lemma_agg_bytes_update(aggs: Seq<LanguageAggregate>, k: int, v: LanguageAggregate)
    requires
        0 <= k < aggs.len(),
    ensures
        spec_agg_bytes(aggs.update(k, v)) == spec_agg_bytes(aggs) - aggs[k].byte_size
            + v.byte_size,
    decreases aggs.len(),
{
    if k == aggs.len() - 1 {
        assert(aggs.update(k, v).drop_last() =~= aggs.drop_last());
        assert(aggs.update(k, v).last() == v);
    } else {
        assert(aggs.update(k, v).drop_last() =~= aggs.drop_last().update(k, v));
        assert(aggs.update(k, v).last() == aggs.last());
        lemma_agg_bytes_update(aggs.drop_last(), k, v);
    }
}

/// The classified byte total never exceeds the byte total over all records,
/// and the two are equal exactly when every record is classified.
pub proof fn lemma_classified_bytes_le_all(rs: Seq<FileRecord>)
    ensures
        spec_classified_bytes(rs) <= spec_all_bytes(rs),
        (forall|k: int| 0 <= k < rs.len() ==> spec_classified(#[trigger] rs[k]))
            ==> spec_classified_bytes(rs) == spec_all_bytes(rs),
    decreases rs.len(),
{
    if rs.len() > 0 {
        lemma_classified_bytes_le_all(rs.drop_last());
        if forall|k: int| 0 <= k < rs.len() ==> spec_classified(#[trigger] rs[k]) {
            assert(forall|k: int|
                0 <= k < rs.drop_last().len() ==> spec_classified(#[trigger] rs.drop_last()[k]));
            assert(spec_classified(rs.last()));
        }
    }
}

/// Byte conservation law: the aggregates' byte sizes sum to the published
/// total, which never exceeds the byte size of all scanned records, with
/// equality exactly when every record is classified.
pub proof fn lemma_aggregate_byte_conservation(
    aggs: Seq<LanguageAggregate>,
    total: int,
    rs: Seq<FileRecord>,
)
    requires
        spec_agg_bytes(aggs) == total,
        total == spec_classified_bytes(rs),
    ensures
        spec_agg_bytes(aggs) <= spec_all_bytes(rs),
        (forall|k: int| 0 <= k < rs.len() ==> spec_classified(#[trigger] rs[k]))
            ==> spec_agg_bytes(aggs) == spec_all_bytes(rs),
{
    lemma_classified_bytes_le_all(rs);
}

/// A classified record makes its language's file count positive.
pub proof fn lemma_lang_files_pos(rs: Seq<FileRecord>, k: int)
    requires
        0 <= k < rs.len(),
        spec_classified(rs[k]),
    ensures
        spec_lang_files(rs, spec_label_of(rs[k])) >= 1,
    decreases rs.len(),
{
    if k == rs.len() - 1 {
        lemma_lang_bounds(rs.drop_last(), spec_label_of(rs[k]));
    } else {
        assert(rs.drop_last()[k] == rs[k]);
        lemma_lang_files_pos(rs.drop_last(), k);
    }
}

/// Completeness law: in a correct aggregation, every classified record's
/// language appears among the aggregates.
pub proof fn lemma_aggregates_complete(aggs: Seq<LanguageAggregate>, rs: Seq<FileRecord>, k: int)
    requires
        spec_aggregates_ok(aggs, rs),
        0 <= k < rs.len(),
        spec_classified(rs[k]),
    ensures
        spec_has_label(aggs, spec_label_of(rs[k])),
{
    lemma_lang_files_pos(rs, k);
}

/// The first aggregate carrying this label, if any.
fn find_label(aggs: &Vec<LanguageAggregate>, label: &str) -> (r: Option<usize>)
    ensures
        match r {
            Some(k) => k < aggs@.len() && aggs@[k as int].language_label@ == label@,
            None => forall|j: int|
                0 <= j < aggs@.len() ==> (#[trigger] aggs@[j]).language_label@ != label@,
        },
{
    let mut j: usize = 0;
    while j < aggs.len()
        invariant
            j <= aggs@.len(),
            forall|jj: int| 0 <= jj < j ==> (#[trigger] aggs@[jj]).language_label@ != label@,
        decreases aggs@.len() - j,
    {
        if crate::strutil::str_eq(aggs[j].language_label.as_str(), label) {
            return Some(j);
        }
        j = j + 1;
    }
    None
}

/// Fold the records into per-language aggregates and the grand byte total.
/// Each classified record adds one to its language's file count and its
/// lines and bytes to the language's sums and to the total; unclassified
/// records contribute nothing. Empty input yields no aggregates and a zero
/// total. The bounds asked of the caller are exactly what the fixed-width
/// counters force.
pub fn aggregate(records: &Vec<FileRecord>) -> (result: (Vec<LanguageAggregate>, u64))
    requires
        records@.len() <= u32::MAX,
        spec_classified_bytes(records@) <= u64::MAX,
        forall|label: Seq<char>| #[trigger] spec_lang_lines(records@, label) <= u32::MAX,
    ensures
        spec_aggregates_ok(result.0@, records@),
        result.1 == spec_classified_bytes(records@),
        spec_agg_bytes(result.0@) == result.1,
        forall|i: int| 0 <= i < result.0@.len() ==> (#[trigger] result.0@[i]).byte_size <= result.1,
{
    let mut aggs: Vec<LanguageAggregate> = Vec::new();
    let mut total: u64 = 0;
    let mut i: usize = 0;
    while i < records.len()
        invariant
            i <= records@.len(),
            records@.len() <= u32::MAX,
            spec_classified_bytes(records@) <= u64::MAX,
            forall|label: Seq<char>| #[trigger] spec_lang_lines(records@, label) <= u32::MAX,
            spec_aggregates_ok(aggs@, records@.subrange(0, i as int)),
            total == spec_classified_bytes(records@.subrange(0, i as int)),
            spec_agg_bytes(aggs@) == total,
        decreases records@.len() - i,
    {
        let ghost prefix = records@.subrange(0, i as int);
        let ghost prefix1 = records@.subrange(0, i + 1);
        let ghost r_g = records@[i as int];
        proof {
            assert(prefix1 =~= prefix.push(r_g));
        }
        let r = &records[i];
        let label_opt = match &r.extension {
            Some(x) => language_for_extension(x.as_str()),
            None => None,
        };
        match label_opt {
            None => {
                proof {
                    assert(!spec_classified(r_g));
                    assert forall|ii: int| #![trigger aggs@[ii]] 0 <= ii < aggs@.len() implies {
                        &&& aggs@[ii].file_count == spec_lang_files(prefix1, aggs@[ii].language_label@)
                        &&& aggs@[ii].line_count == spec_lang_lines(prefix1, aggs@[ii].language_label@)
                        &&& aggs@[ii].byte_size == spec_lang_bytes(prefix1, aggs@[ii].language_label@)
                        &&& aggs@[ii].file_count > 0
                    } by {
                        lemma_unclassified_push(prefix, r_g, aggs@[ii].language_label@);
                    }
                    assert forall|label: Seq<char>|
                        !spec_has_label(aggs@, label) implies #[trigger] spec_lang_files(
                        prefix1,
                        label,
                    ) == 0 by {
                        lemma_unclassified_push(prefix, r_g, label);
                    }
                    lemma_unclassified_push(prefix, r_g, Seq::empty());
                }
            },
            Some(label) => {
                proof {
                    assert(spec_classified(r_g));
                    assert(spec_label_of(r_g) == label@);
                    lemma_prefix_le(records@, i + 1, label@);
                    lemma_lang_bounds(records@, label@);
                    lemma_lang_bounds(prefix, label@);
                    lemma_classified_push(prefix, r_g, label@);
                    assert(spec_lang_lines(records@, label@) <= u32::MAX);
                }
                let found = find_label(&aggs, label.as_str());
                let ghost aggs0 = aggs@;
                match found {
                    Some(k) => {
                        let label2 = aggs[k].language_label.clone();
                        let fc = aggs[k].file_count;
                        let lc = aggs[k].line_count;
                        let bs = aggs[k].byte_size;
                        proof {
                            // The updated counters stay within their types:
                            // every new value is that language's sum over
                            // the longer prefix, bounded by its sum over
                            // the whole input.
                            assert(fc < u32::MAX);
                            assert(lc + r_g.line_count == spec_lang_lines(prefix1, label@));
                            assert(spec_lang_lines(prefix1, label@) <= spec_lang_lines(
                                records@,
                                label@,
                            ));
                            assert(bs + r_g.byte_size == spec_lang_bytes(prefix1, label@));
                            assert(total + r_g.byte_size == spec_classified_bytes(prefix1));
                        }
                        aggs[k] = LanguageAggregate {
                            language_label: label2,
                            file_count: fc + 1,
                            line_count: lc + r.line_count,
                            byte_size: bs + r.byte_size,
                        };
                        total = total + r.byte_size;
                        proof {
                            lemma_agg_bytes_update(
                                aggs0,
                                k as int,
                                LanguageAggregate {
                                    language_label: aggs@[k as int].language_label,
                                    file_count: (fc + 1) as u32,
                                    line_count: (lc + r_g.line_count) as u32,
                                    byte_size: (bs + r_g.byte_size) as u64,
                                },
                            );
                            assert(aggs@[k as int].language_label@ == label@);
                            assert forall|ii: int| #![trigger aggs@[ii]] 0 <= ii < aggs@.len() implies {
                                &&& aggs@[ii].file_count == spec_lang_files(
                                    prefix1,
                                    aggs@[ii].language_label@,
                                )
                                &&& aggs@[ii].line_count == spec_lang_lines(
                                    prefix1,
                                    aggs@[ii].language_label@,
                                )
                                &&& aggs@[ii].byte_size == spec_lang_bytes(
                                    prefix1,
                                    aggs@[ii].language_label@,
                                )
                                &&& aggs@[ii].file_count > 0
                            } by {
                                lemma_classified_push(prefix, r_g, aggs@[ii].language_label@);
                                if ii != k {
                                    assert(aggs@[ii] == aggs0[ii]);
                                    assert(aggs0[ii].language_label@ != label@);
                                }
                            }
                            assert forall|label3: Seq<char>|
                                !spec_has_label(aggs@, label3) implies #[trigger] spec_lang_files(
                                prefix1,
                                label3,
                            ) == 0 by {
                                assert(!spec_has_label(aggs0, label3)) by {
                                    if spec_has_label(aggs0, label3) {
                                        let wi = choose|wi: int|
                                            0 <= wi < aggs0.len() && aggs0[wi].language_label@
                                                == label3;
                                        assert(aggs@[wi].language_label@ == label3);
                                    }
                                }
                                assert(label3 != label@) by {
                                    assert(aggs@[k as int].language_label@ == label@);
                                }
                                lemma_classified_push(prefix, r_g, label3);
                            }
                        }
                    },
                    None => {
                        proof {
                            assert(!spec_has_label(aggs0, label@));
                            assert(spec_lang_files(prefix, label@) == 0);
                            lemma_lang_zero(prefix, label@);
                        }
                        aggs.push(
                            LanguageAggregate {
                                language_label: label,
                                file_count: 1,
                                line_count: r.line_count,
                                byte_size: r.byte_size,
                            },
                        );
                        total = total + r.byte_size;
                        proof {
                            assert(aggs@.drop_last() =~= aggs0);
                            assert forall|ii: int| #![trigger aggs@[ii]] 0 <= ii < aggs@.len() implies {
                                &&& aggs@[ii].file_count == spec_lang_files(
                                    prefix1,
                                    aggs@[ii].language_label@,
                                )
                                &&& aggs@[ii].line_count == spec_lang_lines(
                                    prefix1,
                                    aggs@[ii].language_label@,
                                )
                                &&& aggs@[ii].byte_size == spec_lang_bytes(
                                    prefix1,
                                    aggs@[ii].language_label@,
                                )
                                &&& aggs@[ii].file_count > 0
                            } by {
                                lemma_classified_push(prefix, r_g, aggs@[ii].language_label@);
                                if ii < aggs@.len() - 1 {
                                    assert(aggs@[ii] == aggs0[ii]);
                                    assert(aggs0[ii].language_label@ != label@);
                                } else {
                                    assert(aggs@[ii].language_label@ == label@);
                                }
                            }
                            assert forall|label3: Seq<char>|
                                !spec_has_label(aggs@, label3) implies #[trigger] spec_lang_files(
                                prefix1,
                                label3,
                            ) == 0 by {
                                assert(!spec_has_label(aggs0, label3)) by {
                                    if spec_has_label(aggs0, label3) {
                                        let wi = choose|wi: int|
                                            0 <= wi < aggs0.len() && aggs0[wi].language_label@
                                                == label3;
                                        assert(aggs@[wi].language_label@ == label3);
                                    }
                                }
                                assert(label3 != label@) by {
                                    assert(aggs@[aggs@.len() - 1].language_label@ == label@);
                                }
                                lemma_classified_push(prefix, r_g, label3);
                            }
                        }
                    },
                }
            },
        }
        i = i + 1;
    }
    proof {
        assert(records@.subrange(0, records@.len() as int) =~= records@);
        assert forall|ii: int| 0 <= ii < aggs@.len() implies (#[trigger] aggs@[ii]).byte_size
            <= total by {
            lemma_lang_bounds(records@, aggs@[ii].language_label@);
        }
    }
    (aggs, total)
}

} // verus!
