use voicepaste::history::{
    apply_retention, apply_retention_at, list, new_entry, newest_first, HistoryEntry, RETENTION_FOREVER,
};

fn entry(created_at: i64) -> HistoryEntry {
    HistoryEntry {
        id: created_at.to_string(),
        created_at,
        text: "hello".to_string(),
        engine: "local".to_string(),
        language: "en".to_string(),
        duration_ms: 100,
    }
}

#[test]
fn forever_retention_keeps_old_entries() {
    let mut entries = vec![entry(1)];
    apply_retention(&mut entries, RETENTION_FOREVER);
    assert_eq!(entries.len(), 1);
}

#[test]
fn retention_removes_entries_before_cutoff() {
    let now = chrono::Utc::now().timestamp();
    let mut entries = vec![entry(now - 2 * 86_400), entry(now)];
    apply_retention(&mut entries, 1);
    assert_eq!(entries.len(), 1);
    assert_eq!(entries[0].created_at, now);
}

#[test]
fn retention_window_keeps_the_cutoff_second() {
    let now = 10 * 86_400;
    let mut entries = vec![entry(now - 86_400 - 1), entry(now - 86_400), entry(now)];
    apply_retention_at(&mut entries, 1, now);
    let kept: Vec<i64> = entries.iter().map(|e| e.created_at).collect();
    assert_eq!(kept, vec![now - 86_400, now]);
    apply_retention_at(&mut entries, 1, now);
    assert_eq!(entries.len(), 2);
}

#[test]
fn listing_is_newest_first() {
    let listed = newest_first(vec![entry(1), entry(2), entry(3)]);
    let order: Vec<i64> = listed.iter().map(|e| e.created_at).collect();
    assert_eq!(order, vec![3, 2, 1]);
    let (shown, changed) = list(vec![entry(1), entry(5 * 86_400)], 1, 5 * 86_400);
    assert_eq!(shown.len(), 1);
    assert!(changed);
}

#[test]
fn appended_entries_are_numbered_by_time_and_position() {
    let e = new_entry("hi".to_string(), "cascade", "ru", 1500, 1_700_000_000_123, 1_700_000_000, 4);
    assert_eq!(e.id, "1700000000123-4");
    assert_eq!(e.created_at, 1_700_000_000);
    assert_eq!(e.text, "hi");
    assert_eq!(e.engine, "cascade");
    assert_eq!(e.language, "ru");
    assert_eq!(e.duration_ms, 1500);
}
