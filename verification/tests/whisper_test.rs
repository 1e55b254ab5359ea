use input0::stt::{
    init_model_check, initial_prompt_for_language, language_to_stt_lang, map_language_for_sensevoice,
    paraformer_files_check, recognized_text, transcribe_check, transcript_from_segments, whisper_language,
    ModelSlot,
};
use input0::errors::AppError;

#[test]
fn test_is_model_loaded_initially_false() {
    let slot: ModelSlot<()> = ModelSlot::new();
    assert!(!slot.is_model_loaded());
}

#[test]
fn test_init_model_nonexistent_file() {
    let result = init_model_check(false, false, true, "/nonexistent/path/model.bin");
    assert!(result.is_err());
    let err_str = result.unwrap_err().message();
    assert!(err_str.contains("not found") || err_str.contains("already initialized"));
}

#[test]
fn test_transcribe_without_model() {
    let result = transcribe_check(false, 100);
    assert!(result.is_err());
}

#[test]
fn test_transcribe_empty_audio_without_model() {
    let result = transcribe_check(false, 0);
    assert!(result.is_err() || !result.unwrap());
}

#[test]
fn test_initial_prompt_zh_cn_returns_simplified_prompt() {
    let prompt = initial_prompt_for_language("zh-CN");
    assert_eq!(prompt, Some("以下是普通话的句子。"));
}

#[test]
fn test_initial_prompt_zh_tw_returns_traditional_prompt() {
    let prompt = initial_prompt_for_language("zh-TW");
    assert_eq!(prompt, Some("以下是國語的句子。"));
}

#[test]
fn test_initial_prompt_legacy_zh_still_returns_simplified() {
    let prompt = initial_prompt_for_language("zh");
    assert_eq!(prompt, Some("以下是普通话的句子。"));
}

#[test]
fn test_initial_prompt_other_languages_returns_none() {
    assert!(initial_prompt_for_language("en").is_none());
    assert!(initial_prompt_for_language("ja").is_none());
    assert!(initial_prompt_for_language("ko").is_none());
    assert!(initial_prompt_for_language("auto").is_none());
}

#[test]
fn test_model_slot_keeps_first_model() {
    let mut slot: ModelSlot<u32> = ModelSlot::new();
    assert!(slot.store(7).is_ok());
    assert!(slot.is_model_loaded());
    match slot.store(8) {
        Err(AppError::Whisper(m)) => assert_eq!(m, "Failed to store whisper context"),
        _ => panic!("second store must fail"),
    }
    assert_eq!(slot.model(), Some(&7));
}

#[test]
fn test_init_checks_in_order() {
    assert!(matches!(init_model_check(true, false, false, "x"), Err(AppError::Whisper(m)) if m == "Model already initialized"));
    assert!(matches!(init_model_check(false, false, false, "/m.bin"), Err(AppError::Whisper(m)) if m == "Model file not found: /m.bin"));
    assert!(matches!(init_model_check(false, true, false, "x"), Err(AppError::Whisper(m)) if m == "Invalid model path encoding"));
    assert!(init_model_check(false, true, true, "x").is_ok());
    assert!(matches!(paraformer_files_check(true, false, "m", "t"), Err(AppError::Whisper(m)) if m == "Paraformer tokens file not found: t"));
    assert!(matches!(paraformer_files_check(false, false, "m", "t"), Err(AppError::Whisper(m)) if m == "Paraformer model file not found: m"));
    assert!(paraformer_files_check(true, true, "m", "t").is_ok());
}

#[test]
fn test_transcribe_check_runs_only_with_audio() {
    assert_eq!(transcribe_check(true, 0).unwrap(), false);
    assert_eq!(transcribe_check(true, 16000).unwrap(), true);
}

#[test]
fn language_to_stt_lang_folds_chinese_variants() {
    assert_eq!(language_to_stt_lang("zh-CN"), "zh");
    assert_eq!(language_to_stt_lang("zh-TW"), "zh");
    assert_eq!(language_to_stt_lang("zh"), "zh");
    for code in ["auto", "en", "ja", "ko", "es", "fr", "de"] {
        assert_eq!(language_to_stt_lang(code), code);
    }
}

#[test]
fn test_whisper_language_parameter() {
    assert_eq!(whisper_language("auto"), None);
    assert_eq!(whisper_language("zh-TW"), Some("zh"));
    assert_eq!(whisper_language("en"), Some("en"));
}

#[test]
fn test_sensevoice_language_map() {
    assert_eq!(map_language_for_sensevoice("zh-CN"), "zh");
    assert_eq!(map_language_for_sensevoice("zh-TW"), "zh");
    assert_eq!(map_language_for_sensevoice("zh"), "zh");
    assert_eq!(map_language_for_sensevoice("en"), "en");
    assert_eq!(map_language_for_sensevoice("ja"), "ja");
    assert_eq!(map_language_for_sensevoice("ko"), "ko");
    assert_eq!(map_language_for_sensevoice("auto"), "auto");
    assert_eq!(map_language_for_sensevoice("es"), "auto");
}

#[test]
fn test_transcript_from_segments_joins_and_trims() {
    let segs = vec![" Hello".to_string(), " world. ".to_string(), "\n".to_string()];
    assert_eq!(transcript_from_segments(&segs), "Hello world.");
    assert_eq!(transcript_from_segments(&[]), "");
    assert_eq!(recognized_text("  你好  "), "你好");
}
