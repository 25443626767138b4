use pstat::aggregate::aggregate;
use pstat::aggregate::LanguageAggregate;
use pstat::classifier::language_for_extension;
use pstat::percent::get_percentages;
use pstat::percent::percent_hundredths;
use pstat::scan::count_lines;
use pstat::scan::count_lines_u64;
use pstat::scan::entry_line_count;
use pstat::scan::records_from_entries;
use pstat::scan::FileRecord;
use pstat::scan::IgnorePolicy;
use pstat::scan::ScanEntry;

fn entry(path: &str, name: &str, ext: Option<&str>, bytes: u64, lines: u32, mtime: u64) -> ScanEntry {
    ScanEntry {
        path: String::from(path),
        name: String::from(name),
        extension: ext.map(String::from),
        byte_size: bytes,
        line_count: lines,
        modified_at: mtime,
    }
}

fn record(name: &str, ext: Option<&str>, bytes: u64, lines: u32, mtime: u64) -> FileRecord {
    FileRecord {
        name: String::from(name),
        extension: ext.map(String::from),
        byte_size: bytes,
        line_count: lines,
        modified_at: mtime,
    }
}

fn find<'a>(aggs: &'a [LanguageAggregate], label: &str) -> &'a LanguageAggregate {
    aggs.iter()
        .find(|a| a.language_label == label)
        .unwrap_or_else(|| panic!("no aggregate for {}", label))
}

#[test]
fn classifier_known_extensions() {
    let expected = [
        ("rs", "Rust"),
        ("r", "R"),
        ("c", "C"),
        ("cs", "C#"),
        ("cpp", "C++"),
        ("java", "Java"),
        ("scala", "Scala"),
        ("erl", "Erlang"),
        ("html", "HTML"),
        ("css", "CSS"),
        ("ejs", "EJS"),
        ("rb", "Ruby"),
        ("php", "PHP"),
        ("js", "JavaScript"),
        ("ts", "TypeScript"),
        ("py", "Python"),
        ("go", "Go"),
        ("bash", "Bash"),
    ];
    for (ext, label) in expected {
        assert_eq!(language_for_extension(ext).as_deref(), Some(label));
    }
}

#[test]
fn classifier_unknown_extensions() {
    assert_eq!(language_for_extension("unknown"), None);
    assert_eq!(language_for_extension(""), None);
    assert_eq!(language_for_extension("RS"), None);
    assert_eq!(language_for_extension("rss"), None);
}

#[test]
fn count_lines_cases() {
    assert_eq!(count_lines(&Vec::new()), 0);
    assert_eq!(count_lines(&b"a".to_vec()), 1);
    assert_eq!(count_lines(&b"a\n".to_vec()), 1);
    assert_eq!(count_lines(&b"a\nb".to_vec()), 2);
    assert_eq!(count_lines(&b"\n\n".to_vec()), 2);
    assert_eq!(count_lines(&b"a\r\nb\r\n".to_vec()), 2);
}

#[test]
fn count_lines_u64_matches_narrow_count() {
    assert_eq!(count_lines_u64(&Vec::new()), 0);
    assert_eq!(count_lines_u64(&b"a".to_vec()), 1);
    assert_eq!(count_lines_u64(&b"a\nb\n".to_vec()), 2);
    assert_eq!(count_lines_u64(&b"a\nb".to_vec()), 2);
}

#[test]
fn entry_line_count_zero_for_unreadable_file() {
    // A file that could not be read or decoded as text counts zero lines.
    assert_eq!(entry_line_count(&None), Some(0));
    assert_eq!(entry_line_count(&Some(Vec::new())), Some(0));
    assert_eq!(entry_line_count(&Some(b"a\nb".to_vec())), Some(2));
}

#[test]
fn ignore_policy_membership() {
    let none = IgnorePolicy::NoFilter;
    assert!(!none.is_excluded("anything"));

    let listed = IgnorePolicy::TrackedFiles(vec![
        String::from("src/a.rs"),
        String::from("README.md"),
    ]);
    assert!(!listed.is_excluded("src/a.rs"));
    assert!(!listed.is_excluded("README.md"));
    assert!(listed.is_excluded("src/b.rs"));
    assert!(listed.is_excluded(""));
}

#[test]
fn scan_filters_unclassified_and_excluded() {
    let entries = vec![
        entry("a.rs", "a.rs", Some("rs"), 200, 10, 1),
        entry("notes.txt", "notes.txt", Some("txt"), 50, 5, 2),
        entry("Makefile", "Makefile", None, 30, 3, 3),
        entry("b.py", "b.py", Some("py"), 100, 5, 4),
    ];
    let records = records_from_entries(&entries, &IgnorePolicy::NoFilter);
    let names: Vec<&str> = records.iter().map(|r| r.name.as_str()).collect();
    assert_eq!(names, vec!["a.rs", "b.py"]);

    let policy = IgnorePolicy::TrackedFiles(vec![String::from("b.py")]);
    let records = records_from_entries(&entries, &policy);
    let names: Vec<&str> = records.iter().map(|r| r.name.as_str()).collect();
    assert_eq!(names, vec!["b.py"]);
}

#[test]
fn aggregate_counts_per_language() {
    let records = vec![
        record("a.rs", Some("rs"), 200, 10, 1),
        record("b.rs", Some("rs"), 300, 20, 2),
        record("c.py", Some("py"), 100, 5, 3),
    ];
    let (aggs, total) = aggregate(&records);
    assert_eq!(total, 600);
    assert_eq!(aggs.len(), 2);
    let rust = find(&aggs, "Rust");
    assert_eq!((rust.file_count, rust.line_count, rust.byte_size), (2, 30, 500));
    let python = find(&aggs, "Python");
    assert_eq!((python.file_count, python.line_count, python.byte_size), (1, 5, 100));
}

#[test]
fn aggregate_skips_unclassified_records() {
    let records = vec![
        record("a.rs", Some("rs"), 200, 10, 1),
        record("weird", Some("xyz"), 999, 9, 2),
        record("noext", None, 999, 9, 3),
    ];
    let (aggs, total) = aggregate(&records);
    assert_eq!(total, 200);
    assert_eq!(aggs.len(), 1);
    assert_eq!(aggs[0].language_label, "Rust");
}

#[test]
fn aggregate_bytes_are_conserved() {
    // The aggregates' byte sizes sum to the published total, which never
    // exceeds the byte size of all records; they are equal when every
    // record is classified.
    let mixed = vec![
        record("a.rs", Some("rs"), 200, 10, 1),
        record("b.py", Some("py"), 100, 5, 2),
        record("c.bin", Some("bin"), 999, 9, 3),
    ];
    let (aggs, total) = aggregate(&mixed);
    let agg_sum: u64 = aggs.iter().map(|a| a.byte_size).sum();
    let all_bytes: u64 = mixed.iter().map(|r| r.byte_size).sum();
    assert_eq!(agg_sum, total);
    assert!(total <= all_bytes);
    assert_eq!(total, 300);

    let classified = vec![
        record("a.rs", Some("rs"), 200, 10, 1),
        record("b.py", Some("py"), 100, 5, 2),
    ];
    let (aggs, total) = aggregate(&classified);
    let agg_sum: u64 = aggs.iter().map(|a| a.byte_size).sum();
    let all_bytes: u64 = classified.iter().map(|r| r.byte_size).sum();
    assert_eq!(agg_sum, total);
    assert_eq!(total, all_bytes);
}

#[test]
fn three_file_project_scenario() {
    // A project of a.rs (10 lines, 200 bytes), b.py (5 lines, 100 bytes)
    // and c.unknown: the unknown file contributes nothing.
    let entries = vec![
        entry("a.rs", "a.rs", Some("rs"), 200, 10, 1),
        entry("b.py", "b.py", Some("py"), 100, 5, 2),
        entry("c.unknown", "c.unknown", Some("unknown"), 12345, 77, 3),
    ];
    let records = records_from_entries(&entries, &IgnorePolicy::NoFilter);
    assert_eq!(records.len(), 2);
    let (aggs, total) = aggregate(&records);
    assert_eq!(total, 300);
    assert_eq!(aggs.len(), 2);
    let rust = find(&aggs, "Rust");
    assert_eq!((rust.file_count, rust.line_count, rust.byte_size), (1, 10, 200));
    let python = find(&aggs, "Python");
    assert_eq!((python.file_count, python.line_count, python.byte_size), (1, 5, 100));

    let ps = get_percentages(&aggs, total);
    assert_eq!(ps.len(), 2);
    let rust_share = ps.iter().find(|p| p.language_label == "Rust").unwrap();
    let python_share = ps.iter().find(|p| p.language_label == "Python").unwrap();
    // 66.67% and 33.33%, held in hundredths of a percent.
    assert_eq!(rust_share.percent_hundredths, 6667);
    assert_eq!(python_share.percent_hundredths, 3333);
}

#[test]
fn empty_directory_scenario() {
    let entries: Vec<ScanEntry> = Vec::new();
    let records = records_from_entries(&entries, &IgnorePolicy::NoFilter);
    assert!(records.is_empty());
    let (aggs, total) = aggregate(&records);
    assert!(aggs.is_empty());
    assert_eq!(total, 0);
    let ps = get_percentages(&aggs, total);
    assert!(ps.is_empty());
}

#[test]
fn percentages_zero_total_is_zero() {
    assert_eq!(percent_hundredths(0, 0), 0);
    let aggs = Vec::new();
    let ps = get_percentages(&aggs, 0);
    assert!(ps.is_empty());
}

#[test]
fn percentages_round_to_nearest_hundredth() {
    assert_eq!(percent_hundredths(2, 3), 6667);
    assert_eq!(percent_hundredths(1, 3), 3333);
    assert_eq!(percent_hundredths(1, 8000), 1);
    assert_eq!(percent_hundredths(3, 8000), 4);
    assert_eq!(percent_hundredths(1, 1), 10000);
    assert_eq!(percent_hundredths(0, 5), 0);
}
