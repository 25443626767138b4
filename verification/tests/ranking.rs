use pstat::recency::top_recent;
use pstat::scan::FileRecord;
use pstat::sort::sort_pairs_desc;

fn record(name: &str, mtime: u64) -> FileRecord {
    FileRecord {
        name: String::from(name),
        extension: Some(String::from("rs")),
        byte_size: 10,
        line_count: 1,
        modified_at: mtime,
    }
}

#[test]
fn sort_orders_descending() {
    let v = vec![(3u64, String::from("c")), (9, String::from("a")), (5, String::from("b"))];
    let sorted = sort_pairs_desc(v);
    let keys: Vec<u64> = sorted.iter().map(|p| p.0).collect();
    assert_eq!(keys, vec![9, 5, 3]);
}

#[test]
fn sort_keeps_equal_keys_in_input_order() {
    let v = vec![
        (5u64, String::from("x")),
        (5, String::from("y")),
        (7, String::from("z")),
        (5, String::from("w")),
    ];
    let sorted = sort_pairs_desc(v);
    let names: Vec<&str> = sorted.iter().map(|p| p.1.as_str()).collect();
    assert_eq!(names, vec!["z", "x", "y", "w"]);
}

#[test]
fn sort_of_sorted_input_is_identity() {
    let v = vec![
        (9u64, String::from("a")),
        (9, String::from("b")),
        (4, String::from("c")),
        (1, String::from("d")),
    ];
    let sorted = sort_pairs_desc(v.clone());
    assert_eq!(sorted, v);
}

#[test]
fn top_recent_takes_most_recent_first() {
    let records = vec![
        record("a", 5),
        record("b", 1),
        record("c", 9),
        record("d", 9),
        record("e", 3),
        record("f", 2),
    ];
    let names = top_recent(&records, 5);
    assert_eq!(names, vec!["c", "d", "a", "e", "f"]);
}

#[test]
fn top_recent_with_fewer_records_returns_all() {
    let records = vec![record("a", 2), record("b", 7), record("c", 4)];
    let names = top_recent(&records, 5);
    assert_eq!(names, vec!["b", "c", "a"]);
}

#[test]
fn top_recent_of_empty_is_empty() {
    let records: Vec<FileRecord> = Vec::new();
    let names = top_recent(&records, 5);
    assert!(names.is_empty());
}

#[test]
fn top_recent_zero_k_is_empty() {
    let records = vec![record("a", 2)];
    let names = top_recent(&records, 0);
    assert!(names.is_empty());
}
