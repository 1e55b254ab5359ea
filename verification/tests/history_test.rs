use input0::history::{append_entry, history_path, history_tmp_path, load_history, save_history, HistoryFile, MAX_HISTORY_ENTRIES};
use input0::llm::HistoryEntry;

fn make_entry(original: &str, corrected: &str) -> HistoryEntry {
    HistoryEntry { original: original.to_string(), corrected: corrected.to_string() }
}

#[test]
fn test_caps_at_max_entries() {
    let entries: Vec<HistoryEntry> = (0..15)
        .map(|i| make_entry(&format!("original_{}", i), &format!("corrected_{}", i)))
        .collect();
    let loaded = save_history(&entries);
    assert_eq!(loaded.len(), MAX_HISTORY_ENTRIES);
    assert_eq!(loaded[0].original, "original_5");
    assert_eq!(loaded[9].original, "original_14");
}

#[test]
fn test_exactly_max_entries() {
    let entries: Vec<HistoryEntry> = (0..MAX_HISTORY_ENTRIES)
        .map(|i| make_entry(&format!("orig_{}", i), &format!("corr_{}", i)))
        .collect();
    let loaded = save_history(&entries);
    assert_eq!(loaded.len(), MAX_HISTORY_ENTRIES);
    assert_eq!(loaded[0].original, "orig_0");
}

#[test]
fn test_save_empty_vec() {
    let loaded = save_history(&[]);
    assert!(loaded.is_empty());
}

#[test]
fn test_load_empty_dir() {
    let entries = load_history(HistoryFile::Missing);
    assert!(entries.is_empty());
}

#[test]
fn test_corrupt_file_returns_empty() {
    let loaded = load_history(HistoryFile::Read { text: "this is not valid json!!!".to_string(), entries: None });
    assert!(loaded.is_empty());
}

#[test]
fn test_empty_file_returns_empty() {
    let loaded = load_history(HistoryFile::Read { text: String::new(), entries: None });
    assert!(loaded.is_empty());
}

#[test]
fn test_whitespace_only_file_returns_empty() {
    let loaded = load_history(HistoryFile::Read { text: "   \n  \t  ".to_string(), entries: None });
    assert!(loaded.is_empty());
}

#[test]
fn history_read_entries_are_returned() {
    let loaded = load_history(HistoryFile::Read {
        text: "[...]".to_string(),
        entries: Some(vec![make_entry("a", "b")]),
    });
    assert_eq!(loaded.len(), 1);
    assert_eq!(loaded[0].corrected, "b");
    assert!(load_history(HistoryFile::Unreadable).is_empty());
}

#[test]
fn append_keeps_latest_ten() {
    let mut entries: Vec<HistoryEntry> = (0..10).map(|i| make_entry(&format!("o{}", i), "c")).collect();
    append_entry(&mut entries, make_entry("new", "NEW"));
    assert_eq!(entries.len(), 10);
    assert_eq!(entries[0].original, "o1");
    assert_eq!(entries[9].original, "new");
    let mut few = vec![make_entry("a", "b")];
    append_entry(&mut few, make_entry("c", "d"));
    assert_eq!(few.len(), 2);
    assert_eq!(few[1].corrected, "d");
}

#[test]
fn history_paths() {
    assert_eq!(history_path("/cfg"), "/cfg/history.json");
    assert_eq!(history_tmp_path("/cfg"), "/cfg/.history.json.tmp");
}

#[test]
fn saved_then_loaded_history_is_the_latest_ten() {
    let mut history: Vec<HistoryEntry> = (0..12)
        .map(|i| make_entry(&format!("o{}", i), &format!("c{}", i)))
        .collect();
    append_entry(&mut history, make_entry("瑞嗯特", "React"));
    let kept = save_history(&history);
    let text = "[\n  {\n    \"original\": \"...\"\n  }\n]".to_string();
    let loaded = load_history(HistoryFile::Read { text, entries: Some(kept) });
    assert_eq!(loaded.len(), 10);
    assert_eq!(loaded[0].original, "o3");
    assert_eq!(loaded[9].corrected, "React");
}
