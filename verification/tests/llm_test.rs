use input0::errors::AppError;
use input0::llm::{
    build_context_message, build_system_prompt, connection_outcome, connection_test_messages, extract_api_error,
    is_affirmative, optimize_messages, optimize_outcome, optional_model, validation_client_settings,
    validation_messages, validation_outcome, ChatReply, HistoryEntry, LlmClient,
};
use input0::config::AppConfig;

fn entry(o: &str, c: &str) -> HistoryEntry {
    HistoryEntry { original: o.to_string(), corrected: c.to_string() }
}

#[test]
fn system_prompt_sections_follow_inputs() {
    let plain = build_system_prompt("auto", false, &[], &[]);
    assert!(plain.starts_with("You are a speech-to-text post-processing assistant."));
    assert!(plain.contains("## Technical Term Correction (CRITICAL)"));
    assert!(plain.contains("## Using Prior Context"));
    assert!(!plain.contains("## Text Structuring"));
    assert!(!plain.contains("## User Custom Vocabulary"));
    assert!(!plain.contains("## User Profile Tags"));
    assert!(plain.ends_with("apply the phonetic correction rules above."));

    let vocab = vec!["Tauri".to_string(), "Zustand".to_string()];
    let tags = vec!["Developer".to_string(), "AI".to_string()];
    let full = build_system_prompt("en", true, &vocab, &tags);
    assert!(full.contains("## Text Structuring (Signal-Driven)"));
    assert!(full.contains("Terms: Tauri, Zustand\n"));
    assert!(full.contains("work domains: Developer, AI.\n"));
    assert!(full.contains("The input is primarily English."));
}

#[test]
fn system_prompt_language_notes() {
    let zh = build_system_prompt("zh", false, &[], &[]);
    assert!(zh.contains("Preserve the Chinese variant used by the speaker"));
    let hans = build_system_prompt("zh-CN", false, &[], &[]);
    assert!(hans.contains("请输出简体中文"));
    assert!(!hans.contains("do not convert between them"));
    let hant = build_system_prompt("zh-TW", false, &[], &[]);
    assert!(hant.contains("請輸出繁體中文"));
    assert_ne!(hans, hant);
    assert!(hans.ends_with("转换为对应的简体。"));
    assert!(hant.ends_with("轉換為對應的繁體。"));
    assert!(zh.ends_with("(simplified or traditional) — do not convert between them."));
    let other = build_system_prompt("ja", false, &[], &[]);
    assert!(other.contains("Auto-detect the language."));
}

#[test]
fn test_build_context_message_no_app_no_history() {
    assert!(build_context_message(&[], None).is_none());
}

#[test]
fn test_build_context_message_with_source_app_only() {
    let msg = build_context_message(&[], Some("VS Code")).unwrap();
    assert_eq!(msg.role, "user");
    assert!(msg.content.starts_with("[Prior conversation context for reference"));
    assert!(msg.content.ends_with("[Active application: VS Code]\n\n"));
}

#[test]
fn test_build_context_message_with_source_app_and_history() {
    let history = vec![entry("瑞嗯特", "React"), entry("诶辟爱", "API")];
    let msg = build_context_message(&history, Some("Slack")).unwrap();
    assert!(msg.content.contains("[Active application: Slack]\n\n1. STT: 瑞嗯特 → Corrected: React\n2. STT: 诶辟爱 → Corrected: API\n"));
}

#[test]
fn context_keeps_the_last_ten_numbered_from_one() {
    let history: Vec<HistoryEntry> = (0..12).map(|i| entry(&format!("o{}", i), &format!("c{}", i))).collect();
    let msg = build_context_message(&history, None).unwrap();
    assert!(!msg.content.contains("STT: o0 "));
    assert!(!msg.content.contains("STT: o1 "));
    assert!(msg.content.contains("1. STT: o2 → Corrected: c2\n"));
    assert!(msg.content.ends_with("10. STT: o11 → Corrected: c11\n"));
}

#[test]
fn optimize_request_layout() {
    let msgs = optimize_messages("raw", "auto", &[], false, &[], None, &[]);
    assert_eq!(msgs.len(), 2);
    assert_eq!(msgs[0].role, "system");
    assert_eq!(msgs[1].role, "user");
    assert_eq!(msgs[1].content, "raw");
    let msgs = optimize_messages("raw", "auto", &[entry("a", "b")], false, &[], None, &[]);
    assert_eq!(msgs.len(), 3);
    assert!(msgs[1].content.contains("1. STT: a → Corrected: b"));
    assert_eq!(msgs[2].content, "raw");
}

#[test]
fn validation_and_test_requests() {
    let msgs = validation_messages("瑞嗯特", "React");
    assert_eq!(msgs.len(), 2);
    assert_eq!(msgs[0].role, "system");
    assert!(msgs[0].content.contains("Respond with ONLY 'yes' or 'no'."));
    assert_eq!(msgs[1].content, "Original: 瑞嗯特\nCorrect: React");
    let t = connection_test_messages();
    assert_eq!(t.len(), 1);
    assert_eq!(t[0].content, "Hello");
}

#[test]
fn api_error_text() {
    assert_eq!(extract_api_error(404, None), "API request failed (HTTP 404)");
    assert_eq!(extract_api_error(401, Some("Invalid key".to_string())), "Invalid key");
    assert_eq!(extract_api_error(0, None), "API request failed (HTTP 0)");
}

fn llm_message(r: Result<String, AppError>) -> String {
    match r {
        Err(AppError::Llm(m)) => m,
        _ => panic!("expected an LLM error"),
    }
}

#[test]
fn reply_outcomes() {
    assert_eq!(optimize_outcome(ChatReply::Parsed(Some(vec!["done".to_string(), "x".to_string()]))).unwrap(), "done");
    assert_eq!(llm_message(optimize_outcome(ChatReply::Parsed(None))), "Response missing 'choices' field");
    assert_eq!(llm_message(optimize_outcome(ChatReply::Parsed(Some(vec![])))), "Response contains empty 'choices' array");
    assert_eq!(llm_message(optimize_outcome(ChatReply::Network("refused".to_string()))), "Network error: refused");
    assert_eq!(llm_message(optimize_outcome(ChatReply::Unreadable("eof".to_string()))), "Failed to parse response JSON: eof");
    assert_eq!(llm_message(optimize_outcome(ChatReply::Http { status: 500, message: None })), "API request failed (HTTP 500)");
    assert_eq!(
        llm_message(connection_outcome(ChatReply::Unreadable("eof".to_string()), "m")),
        "Failed to parse response: eof"
    );
    assert_eq!(
        connection_outcome(ChatReply::Parsed(Some(vec!["hi".to_string()])), "gpt-4o").unwrap(),
        "Connected — model gpt-4o is working"
    );
}

#[test]
fn validation_answers() {
    assert!(is_affirmative("Yes."));
    assert!(is_affirmative("  YES\n"));
    assert!(!is_affirmative("no"));
    assert!(!is_affirmative("maybe yes"));
    assert_eq!(validation_outcome(ChatReply::Parsed(Some(vec![" yes ".to_string()]))).unwrap(), true);
    assert_eq!(validation_outcome(ChatReply::Parsed(Some(vec!["No".to_string()]))).unwrap(), false);
    assert!(validation_outcome(ChatReply::Parsed(None)).is_err());
}

#[test]
fn client_settings() {
    let c = LlmClient::new("k".to_string(), "https://api.example.com/v1".to_string(), None).unwrap();
    assert_eq!(c.model(), "gpt-4o-mini");
    assert_eq!(c.chat_url(), "https://api.example.com/v1/chat/completions");
    assert_eq!(c.authorization(), "Bearer k");
    let c = LlmClient::new("k".to_string(), "u".to_string(), Some("gpt-4".to_string())).unwrap();
    assert_eq!(c.model(), "gpt-4");
    assert_eq!(optional_model(""), None);
    assert_eq!(optional_model("m"), Some("m".to_string()));
    let cfg = AppConfig::default();
    assert_eq!(llm_message(validation_client_settings(&cfg).map(|_| String::new())),
        "API Key is required to validate vocabulary entries");
    let cfg = AppConfig { api_key: "key".to_string(), model: String::new(), ..AppConfig::default() };
    let (k, u, m) = validation_client_settings(&cfg).unwrap();
    assert_eq!(k, "key");
    assert_eq!(u, "https://api.openai.com/v1");
    assert_eq!(m, None);
}
