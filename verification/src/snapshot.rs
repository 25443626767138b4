use vstd::prelude::*;
use vstd::string::StringExecFns;

use crate::aggregate::aggregate;
use crate::aggregate::spec_agg_bytes;
use crate::aggregate::spec_aggregates_ok;
use crate::aggregate::spec_classified_bytes;
use crate::aggregate::spec_lang_lines;
use crate::aggregate::LanguageAggregate;
use crate::percent::get_percentages;
use crate::percent::spec_percent_hundredths;
use crate::percent::LanguagePercentage;
use crate::recency::spec_ranked;
use crate::recency::top_recent;
use crate::scan::FileRecord;

verus! {

/// How many recently modified files the dashboard lists.
pub const RECENT_COUNT: usize = 5;

/// The immutable bundle built once at startup and rendered for the whole
/// session: per-language aggregates, the grand byte total, the language
/// percentages, the most recently modified file names, and the text blobs
/// the external collaborators supplied.
pub struct Snapshot {
    pub aggregates: Vec<LanguageAggregate>,
    pub total_bytes: u64,
    pub percentages: Vec<LanguagePercentage>,
    pub recent_files: Vec<String>,
    pub tree_text: String,
    pub branch_text: String,
    pub log_text: String,
    pub log_graph_text: String,
    pub status_text: String,
}

/// The text itself when it holds anything, the fixed fallback line when it
/// is empty.
pub open spec fn spec_text_or(text: Seq<char>, fallback: Seq<char>) -> Seq<char> {
    if text.len() == 0 {
        fallback
    } else {
        text
    }
}

/// Replace empty branch-listing output with its fallback line.
pub fn branches_or_fallback(text: String) -> (r: String)
    ensures
        r@ == spec_text_or(text@, "Not a git repository. No branches found."@),
{
    if text.as_str().is_empty() {
        String::from_str("Not a git repository. No branches found.")
    } else {
        text
    }
}

/// Replace empty log output with its fallback line.
pub fn log_or_fallback(text: String) -> (r: String)
    ensures
        r@ == spec_text_or(text@, "Not a git repository. No log found."@),
{
    if text.as_str().is_empty() {
        String::from_str("Not a git repository. No log found.")
    } else {
        text
    }
}

/// Replace empty working-tree status output with its fallback line.
pub fn status_or_fallback(text: String) -> (r: String)
    ensures
        r@ == spec_text_or(text@, "Not a git repository. No status found."@),
{
    if text.as_str().is_empty() {
        String::from_str("Not a git repository. No status found.")
    } else {
        text
    }
}

impl Snapshot {
    /// The log text the verbose flag selects: the graph form when verbose
    /// is on, the short form otherwise.
    pub fn selected_log(&self, verbose: bool) -> (r: &String)
        ensures
            r@ == if verbose {
                self.log_graph_text@
            } else {
                self.log_text@
            },
    {
        if verbose {
            &self.log_graph_text
        } else {
            &self.log_text
        }
    }
}

/// Build the snapshot from the scanned records and the collaborators'
/// text blobs: aggregate the records, derive the percentages, rank the
/// recent files, and substitute the fixed fallback line for any empty
/// version-control text. The tree text is kept as handed in — its failure
/// is fatal upstream and has no fallback.
pub fn build_snapshot(
    records: &Vec<FileRecord>,
    tree_text: String,
    branch_text: String,
    log_text: String,
    log_graph_text: String,
    status_text: String,
) -> (s: Snapshot)
    requires
        records@.len() <= u32::MAX,
        spec_classified_bytes(records@) <= u64::MAX,
        forall|label: Seq<char>| #[trigger] spec_lang_lines(records@, label) <= u32::MAX,
    ensures
        spec_aggregates_ok(s.aggregates@, records@),
        s.total_bytes == spec_classified_bytes(records@),
        spec_agg_bytes(s.aggregates@) == s.total_bytes,
        s.percentages@.len() == s.aggregates@.len(),
        forall|i: int|
            0 <= i < s.percentages@.len() ==> (#[trigger] s.percentages@[i]).language_label@
                == s.aggregates@[i].language_label@,
        forall|i: int|
            0 <= i < s.percentages@.len() ==> (#[trigger] s.percentages@[i]).percent_hundredths
                == spec_percent_hundredths(s.aggregates@[i].byte_size, s.total_bytes),
        s.recent_files@.len() == if RECENT_COUNT <= records@.len() {
            RECENT_COUNT as int
        } else {
            records@.len() as int
        },
        forall|i: int|
            0 <= i < s.recent_files@.len() ==> (#[trigger] s.recent_files@[i]) == spec_ranked(
                records@,
            )[i].1,
        s.tree_text == tree_text,
        s.branch_text@ == spec_text_or(branch_text@, "Not a git repository. No branches found."@),
        s.log_text@ == spec_text_or(log_text@, "Not a git repository. No log found."@),
        s.log_graph_text@ == spec_text_or(log_graph_text@, "Not a git repository. No log found."@),
        s.status_text@ == spec_text_or(status_text@, "Not a git repository. No status found."@),
{
    let (aggregates, total_bytes) = aggregate(records);
    let percentages = get_percentages(&aggregates, total_bytes);
    let recent_files = top_recent(records, RECENT_COUNT);
    Snapshot {
        aggregates,
        total_bytes,
        percentages,
        recent_files,
        tree_text,
        branch_text: branches_or_fallback(branch_text),
        log_text: log_or_fallback(log_text),
        log_graph_text: log_or_fallback(log_graph_text),
        status_text: status_or_fallback(status_text),
    }
}

} // verus!
