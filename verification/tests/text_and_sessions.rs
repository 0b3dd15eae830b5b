use voice_assistant::session::{
    session_file_path, session_id_for, session_ids_from_file_names, session_timestamp,
};
use voice_assistant::text::{
    chars_of, concat_text, contains, decimal_string, ends_with, replace, same_text, string_from_chars,
    text_le,
};

fn strings(v: &[&str]) -> Vec<String> {
    v.iter().map(|s| s.to_string()).collect()
}

#[test]
fn contains_finds_japanese_words() {
    assert!(contains("今日の音楽をかけて", "音楽"));
    assert!(contains("ミュージック", "ミュージック"));
    assert!(!contains("おはよう", "音楽"));
    assert!(contains("abc", ""));
    assert!(!contains("", "a"));
}

#[test]
fn ends_with_checks_the_tail() {
    assert!(ends_with("chat_1.json", ".json"));
    assert!(!ends_with("chat_1.json.bak", ".json"));
    assert!(!ends_with("json", ".json"));
}

#[test]
fn replace_removes_every_occurrence() {
    assert_eq!(replace("a.json.json", ".json", ""), "a");
    assert_eq!(replace("x.jsonb.json", ".json", ""), "xb");
    assert_eq!(replace("aaa", "aa", "b"), "ba");
    assert_eq!(replace("plain", ".json", ""), "plain");
}

#[test]
fn text_order_is_character_order() {
    assert!(text_le("chat_1", "chat_2"));
    assert!(!text_le("chat_2", "chat_1"));
    assert!(text_le("chat", "chat_1"));
    assert!(text_le("same", "same"));
    assert!(text_le("", ""));
}

#[test]
fn decimal_strings() {
    assert_eq!(decimal_string(0), "0");
    assert_eq!(decimal_string(14), "14");
    assert_eq!(decimal_string(50021), "50021");
    assert_eq!(decimal_string(u64::MAX), u64::MAX.to_string());
}

#[test]
fn small_helpers() {
    assert!(same_text("四国めたん", "四国めたん"));
    assert!(!same_text("四国めたん", "四国"));
    assert_eq!(chars_of("ずん"), vec!['ず', 'ん']);
    assert_eq!(string_from_chars(&vec!['a', '音']), "a音");
    assert_eq!(concat_text("Chat: ", "x"), "Chat: x");
}

#[test]
fn session_listing_keeps_json_files_newest_first() {
    let names = strings(&[
        "chat_20240101_120000.json",
        "notes.txt",
        "chat_20240202_080000.json",
        "a.json.json",
        "chat_20231231_235959.json",
    ]);
    assert_eq!(
        session_ids_from_file_names(&names),
        strings(&["chat_20240202_080000", "chat_20240101_120000", "chat_20231231_235959", "a"])
    );
}

#[test]
fn session_listing_of_nothing_is_empty() {
    assert!(session_ids_from_file_names(&Vec::new()).is_empty());
    assert!(session_ids_from_file_names(&strings(&["readme.md"])).is_empty());
}

#[test]
fn saved_session_is_listed_again() {
    let id = session_id_for("20240315_101112");
    assert_eq!(id, "chat_20240315_101112");
    let path = session_file_path(&id);
    assert_eq!(path, "sessions/chat_20240315_101112.json");
    let file_name = path.strip_prefix("sessions/").unwrap().to_string();
    assert_eq!(session_ids_from_file_names(&vec![file_name]), vec![id]);
}

#[test]
fn timestamps_have_fixed_width() {
    assert_eq!(session_timestamp(2024, 3, 15, 10, 11, 12), "20240315_101112");
    assert_eq!(session_timestamp(7, 1, 2, 3, 4, 5), "00070102_030405");
}

#[test]
fn later_sessions_are_listed_first() {
    let times = [(2024, 3, 15, 10, 11, 12), (2024, 3, 15, 9, 59, 59), (2023, 12, 31, 23, 59, 59), (2024, 10, 1, 0, 0, 0)];
    let names: Vec<String> = times
        .iter()
        .map(|&(y, mo, d, h, mi, s)| format!("{}.json", session_id_for(&session_timestamp(y, mo, d, h, mi, s))))
        .collect();
    assert_eq!(
        session_ids_from_file_names(&names),
        strings(&["chat_20241001_000000", "chat_20240315_101112", "chat_20240315_095959", "chat_20231231_235959"])
    );
}
