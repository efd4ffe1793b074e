use chess_transfers::id_field::parse_id;
use chess_transfers::loader::{classify_record, rows_to_insert, SkipReason};
use chess_transfers::table::TransferTable;

fn fields(v: &[&str]) -> Vec<String> {
    v.iter().map(|s| s.to_string()).collect()
}

fn row(url: &str, id: i32, fed: &str, form: &str, date: &str) -> (String, i32, String, String, String) {
    (url.to_string(), id, fed.to_string(), form.to_string(), date.to_string())
}

#[test]
fn parse_id_accepts_signed_decimals() {
    assert_eq!(parse_id("1"), Some(1));
    assert_eq!(parse_id("+42"), Some(42));
    assert_eq!(parse_id("-17"), Some(-17));
    assert_eq!(parse_id("007"), Some(7));
    assert_eq!(parse_id("2147483647"), Some(i32::MAX));
    assert_eq!(parse_id("-2147483648"), Some(i32::MIN));
}

#[test]
fn parse_id_rejects_other_text() {
    assert_eq!(parse_id(""), None);
    assert_eq!(parse_id("-"), None);
    assert_eq!(parse_id("+"), None);
    assert_eq!(parse_id("abc"), None);
    assert_eq!(parse_id(" 1"), None);
    assert_eq!(parse_id("1 "), None);
    assert_eq!(parse_id("1.5"), None);
    assert_eq!(parse_id("--1"), None);
    assert_eq!(parse_id("2147483648"), None);
    assert_eq!(parse_id("-2147483649"), None);
    assert_eq!(parse_id("99999999999999999999"), None);
}

#[test]
fn parse_id_agrees_with_std() {
    for s in ["0", "12", "-5", "+8", "", "x", "2147483648", "-2147483648", "1e3", "١٢"] {
        assert_eq!(parse_id(s), s.parse::<i32>().ok(), "{}", s);
    }
}

#[test]
fn classify_gives_row_or_reason() {
    assert_eq!(
        classify_record(&fields(&["http://a.com", "3", "USA", "A", "2024-01-01"])),
        Ok(row("http://a.com", 3, "USA", "A", "2024-01-01"))
    );
    assert_eq!(
        classify_record(&fields(&["http://a.com", "3", "USA", "A", "2024-01-01", "extra"])),
        Ok(row("http://a.com", 3, "USA", "A", "2024-01-01"))
    );
    assert_eq!(
        classify_record(&fields(&["http://a.com", "3", "USA", "A"])),
        Err(SkipReason::TooFewFields)
    );
    assert_eq!(classify_record(&fields(&[])), Err(SkipReason::TooFewFields));
    assert_eq!(
        classify_record(&fields(&["http://a.com", "x3", "USA", "A", "2024-01-01"])),
        Err(SkipReason::BadId)
    );
}

#[test]
fn rows_to_insert_skips_and_counts() {
    let records = vec![
        fields(&["u1", "1", "F", "G", "D"]),
        fields(&["u2", "2"]),
        fields(&["u3", "three", "F", "G", "D"]),
        fields(&["u4", "4", "F", "G", "D"]),
    ];
    let (rows, skipped) = rows_to_insert(&records);
    assert_eq!(rows, vec![row("u1", 1, "F", "G", "D"), row("u4", 4, "F", "G", "D")]);
    assert_eq!(skipped, 2);
}

#[test]
fn table_end_to_end_example() {
    let mut t = TransferTable::new();
    t.insert_record("http://example.com", 1, "USA", "A", "2024-01-01");
    assert_eq!(t.read_record_by_id(1), Some(row("http://example.com", 1, "USA", "A", "2024-01-01")));
    t.update_record(1, "http://new-url.com", "CAN", "B", "2024-02-01");
    assert_eq!(t.read_record_by_id(1), Some(row("http://new-url.com", 1, "CAN", "B", "2024-02-01")));
    t.delete_record(1);
    assert_eq!(t.read_record_by_id(1), None);
    assert_eq!(t.len(), 0);
}

#[test]
fn table_update_touches_only_the_id() {
    let mut t = TransferTable::new();
    t.insert_record("a", 1, "F1", "G1", "D1");
    t.insert_record("b", 2, "F2", "G2", "D2");
    t.update_record(2, "bb", "F", "G", "D");
    assert_eq!(t.read_records(), vec![row("a", 1, "F1", "G1", "D1"), row("bb", 2, "F", "G", "D")]);
    t.update_record(9, "z", "z", "z", "z");
    assert_eq!(t.len(), 2);
    assert_eq!(t.read_record_by_id(9), None);
}

#[test]
fn table_lookup_reads_first_of_equal_ids_and_delete_removes_all() {
    let mut t = TransferTable::new();
    t.insert_record("first", 5, "F", "G", "D");
    t.insert_record("other", 6, "F", "G", "D");
    t.insert_record("second", 5, "F", "G", "D");
    assert_eq!(t.read_record_by_id(5).unwrap().0, "first");
    t.delete_record(5);
    assert_eq!(t.read_records(), vec![row("other", 6, "F", "G", "D")]);
}

#[test]
fn table_load_replaces_rows() {
    let mut t = TransferTable::new();
    t.insert_record("old", 1, "F", "G", "D");
    let records = vec![
        fields(&["u1", "1", "F", "G", "D"]),
        fields(&["u2", "2", "F", "G", "D"]),
        fields(&["short"]),
    ];
    assert_eq!(t.load_records(&records), 2);
    assert_eq!(t.load_records(&records), 2);
    assert_eq!(t.len(), 2);
    assert_eq!(t.read_record_by_id(1).unwrap().0, "u1");
}
