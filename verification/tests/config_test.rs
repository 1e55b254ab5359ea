use input0::config::{
    config_dir, config_file_path, config_path, default_hf_endpoint, default_stt_model, normalize_language,
    update_field, AppConfig,
};
use input0::errors::AppError;

#[test]
fn test_default_config_values() {
    let config = AppConfig::default();
    assert_eq!(config.api_key, "");
    assert_eq!(config.api_base_url, "https://api.openai.com/v1");
    assert_eq!(config.model, "gpt-4o-mini");
    assert_eq!(config.language, "auto");
    assert_eq!(config.hotkey, "Option+Space");
    assert_eq!(config.model_path, "");
    assert_eq!(config.stt_model, "whisper-base");
    assert_eq!(config.text_structuring, true);
    assert_eq!(config.hf_endpoint, "https://huggingface.co");
}

#[test]
fn test_config_dir_function_returns_path() {
    let result = config_dir();
    assert!(result.is_ok(), "config_dir() should succeed");
    let path = result.unwrap();
    assert!(
        path.contains("com.input0.app"),
        "Config dir should contain app identifier, got: {}",
        path
    );
}

#[test]
fn test_config_path_function_returns_toml_path() {
    let result = config_path();
    assert!(result.is_ok(), "config_path() should succeed");
    let path = result.unwrap();
    assert_eq!(
        std::path::Path::new(&path).file_name().and_then(|n| n.to_str()),
        Some("config.toml"),
        "config path filename should be config.toml"
    );
}

#[test]
fn test_update_api_key() {
    let updated = update_field(AppConfig::default(), "api_key", "new-api-key").expect("Update api_key");
    assert_eq!(updated.api_key, "new-api-key");
}

#[test]
fn test_update_api_base_url() {
    let updated = update_field(AppConfig::default(), "api_base_url", "https://newurl.com")
        .expect("Update api_base_url");
    assert_eq!(updated.api_base_url, "https://newurl.com");
}

#[test]
fn test_update_language() {
    let updated = update_field(AppConfig::default(), "language", "en").expect("Update language");
    assert_eq!(updated.language, "en");
}

#[test]
fn test_update_hotkey() {
    let updated = update_field(AppConfig::default(), "hotkey", "Cmd+Space").expect("Update hotkey");
    assert_eq!(updated.hotkey, "Cmd+Space");
}

#[test]
fn test_update_model_path() {
    let updated = update_field(AppConfig::default(), "model_path", "/new/path/model.bin")
        .expect("Update model_path");
    assert_eq!(updated.model_path, "/new/path/model.bin");
}

#[test]
fn test_update_invalid_field() {
    let result = update_field(AppConfig::default(), "nonexistent_field", "some-value");
    assert!(result.is_err(), "Unknown field should return error");
}

#[test]
fn test_update_preserves_other_fields() {
    let config = AppConfig {
        api_key: "original-key".to_string(),
        api_base_url: "https://original.com".to_string(),
        model: "gpt-4o".to_string(),
        language: "zh".to_string(),
        hotkey: "Fn".to_string(),
        model_path: "/original/model".to_string(),
        stt_model: default_stt_model(),
        text_structuring: false,
        user_tags: Vec::new(),
        custom_models: Vec::new(),
        onboarding_completed: false,
        input_device: String::new(),
        hf_endpoint: default_hf_endpoint(),
    };
    let updated = update_field(config, "language", "en").expect("Update language only");
    assert_eq!(updated.language, "en");
    assert_eq!(updated.api_key, "original-key");
    assert_eq!(updated.api_base_url, "https://original.com");
    assert_eq!(updated.model, "gpt-4o");
    assert_eq!(updated.hotkey, "Fn");
    assert_eq!(updated.model_path, "/original/model");
}

#[test]
fn test_update_field_user_tags() {
    let tags_json = r#"["Developer","AI","Frontend"]"#;
    let updated = update_field(AppConfig::default(), "user_tags", tags_json).expect("Update user_tags");
    assert_eq!(updated.user_tags, vec!["Developer", "AI", "Frontend"]);
    match update_field(AppConfig::default(), "user_tags", "not json") {
        Err(AppError::Config(m)) => assert_eq!(m, "Invalid user_tags JSON: not json"),
        _ => panic!("bad JSON must be refused"),
    }
}

#[test]
fn test_update_field_hf_endpoint() {
    let updated = update_field(AppConfig::default(), "hf_endpoint", "https://hf-mirror.com")
        .expect("Update hf_endpoint");
    assert_eq!(updated.hf_endpoint, "https://hf-mirror.com");
}

#[test]
fn update_field_sets_flags() {
    let updated = update_field(AppConfig::default(), "text_structuring", "false").unwrap();
    assert!(!updated.text_structuring);
    let updated = update_field(AppConfig::default(), "onboarding_completed", "true").unwrap();
    assert!(updated.onboarding_completed);
    match update_field(AppConfig::default(), "text_structuring", "yes") {
        Err(AppError::Config(m)) => assert_eq!(m, "Invalid boolean value for text_structuring: yes"),
        _ => panic!("a non-boolean must be refused"),
    }
    match update_field(AppConfig::default(), "bogus", "x") {
        Err(e) => assert_eq!(e.message(), "Configuration error: Unknown config field: bogus"),
        Ok(_) => panic!("unknown field must be refused"),
    }
}

#[test]
fn update_field_sets_input_device_and_stt_model() {
    let updated = update_field(AppConfig::default(), "input_device", "USB Mic").unwrap();
    assert_eq!(updated.input_device, "USB Mic");
    let updated = update_field(updated, "stt_model", "paraformer-zh").unwrap();
    assert_eq!(updated.stt_model, "paraformer-zh");
    assert_eq!(updated.input_device, "USB Mic");
}

#[test]
fn legacy_chinese_code_becomes_simplified() {
    let mut c = AppConfig { language: "zh".to_string(), ..AppConfig::default() };
    assert!(normalize_language(&mut c));
    assert_eq!(c.language, "zh-CN");
    assert!(!normalize_language(&mut c));
    assert_eq!(c.language, "zh-CN");
    let mut d = AppConfig::default();
    assert!(!normalize_language(&mut d));
    assert_eq!(d, AppConfig::default());
}

#[test]
fn config_file_path_joins_directory() {
    assert_eq!(config_file_path("/home/a/.config/com.input0.app"), "/home/a/.config/com.input0.app/config.toml");
}
