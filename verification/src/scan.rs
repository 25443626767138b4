use vstd::prelude::*;

use crate::classifier::spec_language_for;
use crate::strutil::str_eq;

verus! {

/// One regular file as the directory walk reports it, before any filtering:
/// its path relative to the scan root (as the ignore policy sees paths), its
/// base name, its raw extension if it has one, and the plain facts read from
/// the filesystem.
pub struct ScanEntry {
    pub path: String,
    pub name: String,
    pub extension: Option<String>,
    pub byte_size: u64,
    pub line_count: u32,
    pub modified_at: u64,
}

/// One scanned file that passed the ignore policy and carries a recognized
/// extension. Immutable once built; folded into the aggregates and the
/// recency ranking, not kept in the snapshot.
pub struct FileRecord {
    pub name: String,
    pub extension: Option<String>,
    pub byte_size: u64,
    pub line_count: u32,
    pub modified_at: u64,
}

/// The capability that answers "is this path excluded from statistics?".
/// `NoFilter` excludes nothing — also the degraded form when the backing
/// data of ignore mode is unavailable. `TrackedFiles` keeps exactly the
/// paths the version-control system reports as tracked.
pub enum IgnorePolicy {
    NoFilter,
    TrackedFiles(Vec<String>),
}

/// Whether some entry of the list equals the path.
pub open spec fn spec_path_listed(list: Seq<String>, path: Seq<char>) -> bool {
    exists|i: int| 0 <= i < list.len() && list[i]@ == path
}

/// A path is excluded only under `TrackedFiles`, and there exactly when the
/// list holds no entry equal to it.
pub open spec fn spec_excluded(policy: IgnorePolicy, path: Seq<char>) -> bool {
    match policy {
        IgnorePolicy::NoFilter => false,
        IgnorePolicy::TrackedFiles(listed) => !spec_path_listed(listed@, path),
    }
}

impl IgnorePolicy {
    /// Decide whether `path` is excluded from the scan.
    pub fn is_excluded(&self, path: &str) -> (r: bool)
        ensures
            r == spec_excluded(*self, path@),
    {
        match self {
            IgnorePolicy::NoFilter => false,
            IgnorePolicy::TrackedFiles(listed) => {
                let mut i: usize = 0;
                while i < listed.len()
                    invariant
                        *self is TrackedFiles,
                        self->TrackedFiles_0 == *listed,
                        i <= listed@.len(),
                        forall|j: int| 0 <= j < i ==> listed@[j]@ != path@,
                    decreases listed@.len() - i,
                {
                    if str_eq(listed[i].as_str(), path) {
                        proof {
                            assert(spec_path_listed(listed@, path@)) by {
                                assert(listed@[i as int]@ == path@);
                            }
                        }
                        return false;
                    }
                    i = i + 1;
                }
                true
            },
        }
    }
}

/// How many newline bytes a text holds.
pub open spec fn spec_newline_count(s: Seq<u8>) -> int
    decreases s.len(),
{
    if s.len() == 0 {
        0
    } else {
        spec_newline_count(s.drop_last()) + if s.last() == 10u8 {
            1int
        } else {
            0int
        }
    }
}

/// How many newline-delimited lines a text holds: one per newline byte,
/// plus a final unterminated line when the text does not end in a newline.
/// The empty text has no lines.
pub open spec fn spec_line_count(s: Seq<u8>) -> int {
    if s.len() == 0 {
        0
    } else {
        spec_newline_count(s) + if s.last() == 10u8 {
            0int
        } else {
            1int
        }
    }
}

/// A text never holds more newlines than bytes, and one that does not end
/// in a newline has strictly fewer.
pub proof fn lemma_newline_count_le_len(s: Seq<u8>)
    ensures
        0 <= spec_newline_count(s) <= s.len(),
        s.len() > 0 && s.last() != 10u8 ==> spec_newline_count(s) <= s.len() - 1,
    decreases s.len(),
{
    if s.len() > 0 {
        lemma_newline_count_le_len(s.drop_last());
    }
}

/// Count the newline-delimited lines of a file's content, as reading the
/// file as text and walking its lines would. Total: the content may hold
/// any number of bytes, and a line count always fits the wide counter,
/// since a text never has more lines than bytes.
pub fn count_lines_u64(content: &Vec<u8>) -> (n: u64)
    ensures
        n == spec_line_count(content@),
{
    let len: usize = content.len();
    let mut newlines: u64 = 0;
    let mut i: usize = 0;
    while i < len
        invariant
            len == content@.len(),
            i <= len,
            newlines == spec_newline_count(content@.subrange(0, i as int)),
            newlines <= i,
        decreases len - i,
    {
        proof {
            assert(content@.subrange(0, i + 1).drop_last() =~= content@.subrange(0, i as int));
            assert(content@.subrange(0, i + 1).last() == content@[i as int]);
        }
        if content[i] == 10u8 {
            newlines = newlines + 1;
        }
        i = i + 1;
    }
    proof {
        assert(content@.subrange(0, len as int) =~= content@);
        lemma_newline_count_le_len(content@);
    }
    if len == 0 {
        0
    } else if content[len - 1] == 10u8 {
        newlines
    } else {
        newlines + 1
    }
}

/// The line count narrowed to the record's 32-bit counter. Only texts of
/// more than `u32::MAX` lines are left out — exactly the inputs the
/// narrowing cannot represent; the byte size is unconstrained.
pub fn count_lines(content: &Vec<u8>) -> (n: u32)
    requires
        spec_line_count(content@) <= u32::MAX,
    ensures
        n == spec_line_count(content@),
{
    let wide = count_lines_u64(content);
    wide as u32
}

/// The line count a scan entry records for the outcome of reading a file
/// as text: a file that could not be read or decoded counts zero lines.
pub open spec fn spec_read_line_count(content: Option<Vec<u8>>) -> int {
    match content {
        Some(b) => spec_line_count(b@),
        None => 0,
    }
}

/// Decide a scan entry's line count from a file-read outcome: zero for an
/// unreadable or undecodable file, the newline-delimited count otherwise,
/// and `None` exactly when that count does not fit the record's 32-bit
/// counter.
pub fn entry_line_count(content: &Option<Vec<u8>>) -> (r: Option<u32>)
    ensures
        match r {
            Some(n) => n == spec_read_line_count(*content),
            None => spec_read_line_count(*content) > u32::MAX,
        },
{
    match content {
        None => Some(0),
        Some(b) => {
            let wide = count_lines_u64(b);
            if wide <= u32::MAX as u64 {
                Some(wide as u32)
            } else {
                None
            }
        },
    }
}

/// A scan entry is kept exactly when the ignore policy does not exclude its
/// path and its extension is classified to a language.
pub open spec fn spec_entry_kept(e: ScanEntry, policy: IgnorePolicy) -> bool {
    &&& !spec_excluded(policy, e.path@)
    &&& match e.extension {
        Some(x) => spec_language_for(x@) is Some,
        None => false,
    }
}

/// The record a kept entry turns into: the same plain facts, the path
/// dropped.
pub open spec fn spec_record_of(e: ScanEntry) -> FileRecord {
    FileRecord {
        name: e.name,
        extension: e.extension,
        byte_size: e.byte_size,
        line_count: e.line_count,
        modified_at: e.modified_at,
    }
}

/// The records a scan produces from its entries, in entry order: one per
/// kept entry, nothing for the rest.
pub open spec fn spec_scan_records(entries: Seq<ScanEntry>, policy: IgnorePolicy) -> Seq<FileRecord>
    decreases entries.len(),
{
    if entries.len() == 0 {
        Seq::empty()
    } else {
        let rest = spec_scan_records(entries.drop_last(), policy);
        if spec_entry_kept(entries.last(), policy) {
            rest.push(spec_record_of(entries.last()))
        } else {
            rest
        }
    }
}

/// The filtering half of the directory scan: keep each entry whose path the
/// ignore policy admits and whose extension the classifier recognizes, and
/// turn it into a `FileRecord`. Unrecognized and excluded files contribute
/// to nothing, not even the total byte size.
pub fn records_from_entries(entries: &Vec<ScanEntry>, policy: &IgnorePolicy) -> (records: Vec<
    FileRecord,
>)
    ensures
        records@ == spec_scan_records(entries@, *policy),
{
    let mut records: Vec<FileRecord> = Vec::new();
    let mut i: usize = 0;
    while i < entries.len()
        invariant
            i <= entries@.len(),
            records@ == spec_scan_records(entries@.subrange(0, i as int), *policy),
        decreases entries@.len() - i,
    {
        proof {
            assert(entries@.subrange(0, i + 1).drop_last() =~= entries@.subrange(0, i as int));
            assert(entries@.subrange(0, i + 1).last() == entries@[i as int]);
        }
        let entry = &entries[i];
        let excluded = policy.is_excluded(entry.path.as_str());
        if !excluded {
            let classified = match &entry.extension {
                Some(x) => language_recognizes(x.as_str()),
                None => false,
            };
            if classified {
                let record = FileRecord {
                    name: entry.name.clone(),
                    extension: clone_extension(&entry.extension),
                    byte_size: entry.byte_size,
                    line_count: entry.line_count,
                    modified_at: entry.modified_at,
                };
                records.push(record);
            }
        }
        i = i + 1;
    }
    proof {
        assert(entries@.subrange(0, entries@.len() as int) =~= entries@);
    }
    records
}

/// Whether the classifier knows this extension.
fn language_recognizes(ext: &str) -> (r: bool)
    ensures
        r == (spec_language_for(ext@) is Some),
{
    let label = crate::classifier::language_for_extension(ext);
    label.is_some()
}

/// An equal copy of a raw extension.
fn clone_extension(ext: &Option<String>) -> (r: Option<String>)
    ensures
        r == *ext,
{
    match ext {
        Some(x) => Some(x.clone()),
        None => None,
    }
}

} // verus!
