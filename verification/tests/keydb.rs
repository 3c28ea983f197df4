use kitty_rc::parse_db_entry;
use kitty_rc::latest_pubkey;
use kitty_rc::DbEntry;

#[test]
fn test_parse_db_entry() {
    let line = "12345\t67890\t1:abc123\t1704067200";
    let entry = parse_db_entry(line).unwrap();
    assert_eq!(entry.pid, 12345);
    assert_eq!(entry.window_id, "67890");
    assert_eq!(entry.pubkey, "1:abc123");
    assert_eq!(entry.timestamp, 1704067200);
}

#[test]
fn test_parse_db_entry_no_window_id() {
    let line = "12345\t\t1:abc123\t1704067200";
    let entry = parse_db_entry(line).unwrap();
    assert_eq!(entry.pid, 12345);
    assert_eq!(entry.window_id, "");
    assert_eq!(entry.pubkey, "1:abc123");
    assert_eq!(entry.timestamp, 1704067200);
}

#[test]
fn test_parse_db_entry_no_timestamp() {
    let line = "12345\t67890\t1:abc123";
    let entry = parse_db_entry(line).unwrap();
    assert_eq!(entry.pid, 12345);
    assert_eq!(entry.window_id, "67890");
    assert_eq!(entry.pubkey, "1:abc123");
    assert_eq!(entry.timestamp, 0);
}

#[test]
fn test_parse_db_entry_rejects_two_fields() {
    assert!(parse_db_entry("12345\tonly").is_none());
    assert!(parse_db_entry("notanumber\tx\ty").is_none());
}

#[test]
fn test_latest_pubkey_picks_newest_matching() {
    let entries = vec![
        DbEntry { pid: 1, window_id: "a".to_string(), pubkey: "old".to_string(), timestamp: 5 },
        DbEntry { pid: 2, window_id: "b".to_string(), pubkey: "other".to_string(), timestamp: 99 },
        DbEntry { pid: 1, window_id: "c".to_string(), pubkey: "new".to_string(), timestamp: 7 },
    ];
    assert_eq!(latest_pubkey(&entries, 1).map(|s| s.as_str()), Some("new"));
    assert_eq!(latest_pubkey(&entries, 3), None);
}

#[test]
fn test_db_entry_to_line_round_trips() {
    let entry = DbEntry {
        pid: 42,
        window_id: "7".to_string(),
        pubkey: "1:key".to_string(),
        timestamp: 1000,
    };
    let line = entry.to_line();
    assert_eq!(line, "42\t7\t1:key\t1000");
    let back = parse_db_entry(&line).unwrap();
    assert_eq!(back.pid, 42);
    assert_eq!(back.pubkey, "1:key");
    assert_eq!(back.timestamp, 1000);
}
