use input0::store::StoreFile;
use input0::vocabulary::{
    add_entry, load_vocabulary, remove_entry, save_vocabulary, vocabulary_path, MAX_VOCABULARY_ENTRIES,
};

fn terms(v: &[&str]) -> Vec<String> {
    v.iter().map(|s| s.to_string()).collect()
}

#[test]
fn add_is_deduplicating_and_case_sensitive() {
    let mut v = terms(&["React"]);
    assert!(!add_entry(&mut v, "React".to_string()));
    assert_eq!(v, terms(&["React"]));
    assert!(add_entry(&mut v, "react".to_string()));
    assert_eq!(v, terms(&["React", "react"]));
}

#[test]
fn remove_takes_every_occurrence() {
    let mut v = terms(&["a", "b", "a", "c"]);
    assert!(remove_entry(&mut v, "a"));
    assert_eq!(v, terms(&["b", "c"]));
    assert!(!remove_entry(&mut v, "zzz"));
    assert_eq!(v, terms(&["b", "c"]));
}

#[test]
fn remove_undoes_add() {
    let original = terms(&["Tauri", "Vite"]);
    let mut v = original.clone();
    assert!(add_entry(&mut v, "Zustand".to_string()));
    assert!(remove_entry(&mut v, "Zustand"));
    assert_eq!(v, original);
}

#[test]
fn save_then_load_roundtrip() {
    let v = terms(&["瑞嗯特", "Tauri", "with \"quotes\"", ""]);
    let text = save_vocabulary(&v).unwrap();
    assert_eq!(load_vocabulary(StoreFile::Text(text)), v);
}

#[test]
fn save_caps_to_most_recent() {
    let v: Vec<String> = (0..MAX_VOCABULARY_ENTRIES + 3).map(|i| format!("t{}", i)).collect();
    let text = save_vocabulary(&v).unwrap();
    let loaded = load_vocabulary(StoreFile::Text(text));
    assert_eq!(loaded.len(), MAX_VOCABULARY_ENTRIES);
    assert_eq!(loaded[0], "t3");
    assert_eq!(loaded[MAX_VOCABULARY_ENTRIES - 1], format!("t{}", MAX_VOCABULARY_ENTRIES + 2));
}

#[test]
fn load_tolerates_bad_files() {
    assert!(load_vocabulary(StoreFile::Missing).is_empty());
    assert!(load_vocabulary(StoreFile::Unreadable).is_empty());
    assert!(load_vocabulary(StoreFile::Text("   \n\t ".to_string())).is_empty());
    assert!(load_vocabulary(StoreFile::Text("not json".to_string())).is_empty());
    assert!(load_vocabulary(StoreFile::Text("[1, 2]".to_string())).is_empty());
    assert_eq!(load_vocabulary(StoreFile::Text(" [\"x\"] ".to_string())), terms(&["x"]));
}

#[test]
fn vocabulary_file_location() {
    assert_eq!(vocabulary_path("/cfg"), "/cfg/vocabulary.json");
}
