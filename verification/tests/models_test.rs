use input0::models::manager::{
    download_error, download_status_error, download_tmp_name, existing_file_progress,
    is_model_downloaded, list_models_with_status, model_file_path, model_file_paths, moonshine_model_paths,
    paraformer_model_paths, sensevoice_model_paths, whisper_model_path, DownloadAction, DownloadPhase, DownloadStep, ModelDownload,
};
use input0::models::registry::{
    all_models, get_model, recommended_models_for_language, suggest_model_switch, BackendKind,
};
use input0::errors::AppError;

#[test]
fn test_get_model_found() {
    let model = get_model("whisper-base");
    assert!(model.is_some());
    assert_eq!(model.unwrap().id, "whisper-base");
}

#[test]
fn test_get_model_not_found() {
    assert!(get_model("nonexistent").is_none());
}

#[test]
fn test_all_models_have_files() {
    for model in all_models() {
        assert!(!model.files.is_empty(), "Model {} has no files", model.id);
    }
}

#[test]
fn test_recommended_models_for_chinese() {
    let recs = recommended_models_for_language("zh");
    let ids: Vec<&str> = recs.iter().map(|m| m.id.as_str()).collect();
    assert!(ids.contains(&"sensevoice-small"));
    assert!(ids.contains(&"paraformer-zh"));
}

#[test]
fn test_recommended_models_for_english() {
    let recs = recommended_models_for_language("en");
    let ids: Vec<&str> = recs.iter().map(|m| m.id.as_str()).collect();
    assert!(ids.contains(&"whisper-large-v3-turbo"));
    assert!(ids.contains(&"moonshine-base-en"));
}

#[test]
fn test_recommended_models_fallback() {
    let recs = recommended_models_for_language("unknown-lang");
    assert!(recs.is_empty());
}

#[test]
fn test_suggest_switch_when_needed() {
    let suggestion = suggest_model_switch("whisper-base", "zh");
    assert!(suggestion.is_some());
    let recs = suggestion.unwrap();
    assert!(recs.len() >= 2);
    let ids: Vec<&str> = recs.iter().map(|(id, _, _)| id.as_str()).collect();
    assert!(ids.contains(&"sensevoice-small"));
    assert!(ids.contains(&"paraformer-zh"));
}

#[test]
fn test_suggest_switch_not_needed_any_recommended() {
    let suggestion = suggest_model_switch("sensevoice-small", "zh");
    assert!(suggestion.is_none());
    let suggestion2 = suggest_model_switch("paraformer-zh", "zh");
    assert!(suggestion2.is_none());
}

#[test]
fn test_suggest_switch_no_nag_for_unknown_lang() {
    let suggestion = suggest_model_switch("whisper-base", "unknown-lang");
    assert!(suggestion.is_none());
}

#[test]
fn test_list_models_returns_all() {
    let models = list_models_with_status("whisper-base", &[]);
    assert_eq!(models.len(), all_models().len());
}

#[test]
fn test_list_models_marks_active() {
    let models = list_models_with_status("whisper-base", &[]);
    let active_count = models.iter().filter(|m| m.is_active).count();
    assert_eq!(active_count, 1);
    assert!(models.iter().any(|m| m.id == "whisper-base" && m.is_active));
}

#[test]
fn test_list_models_marks_downloaded_by_position() {
    let models = list_models_with_status("none", &[false, true]);
    assert!(!models[0].is_downloaded);
    assert!(models[1].is_downloaded);
    assert!(models.iter().skip(2).all(|m| !m.is_downloaded));
    assert!(models.iter().all(|m| !m.is_active));
}

#[test]
fn test_paraformer_trilingual_registered() {
    let model = get_model("paraformer-trilingual").expect("paraformer-trilingual must be registered");
    assert_eq!(model.backend, BackendKind::Paraformer);
    assert_eq!(model.files.len(), 2);
    let paths: Vec<&str> = model.files.iter().map(|f| f.relative_path.as_str()).collect();
    assert!(paths.contains(&"model.int8.onnx"));
    assert!(paths.contains(&"tokens.txt"));
    assert_eq!(model.total_size_bytes, 245_119_000);
}

#[test]
fn test_paraformer_trilingual_recommended_for_cantonese() {
    let recs = recommended_models_for_language("yue");
    let ids: Vec<&str> = recs.iter().map(|m| m.id.as_str()).collect();
    assert_eq!(ids, vec!["paraformer-trilingual"]);
}

#[test]
fn test_fire_red_asr_v1_registered() {
    let model = get_model("fire-red-asr-v1").expect("fire-red-asr-v1 must be registered");
    assert_eq!(model.backend, BackendKind::FireRedAsr);
    let paths: Vec<&str> = model.files.iter().map(|f| f.relative_path.as_str()).collect();
    assert_eq!(paths, vec!["encoder.int8.onnx", "decoder.int8.onnx", "tokens.txt"]);
}

#[test]
fn test_large_models_not_in_recommendation_pool() {
    for lang in ["zh", "en", "ja", "ko", "yue", "auto", "zh-CN", "zh-TW"] {
        let recs = recommended_models_for_language(lang);
        let ids: Vec<&str> = recs.iter().map(|m| m.id.as_str()).collect();
        assert!(!ids.contains(&"fire-red-asr-v1"), "{}", lang);
        assert!(!ids.contains(&"zipformer-ctc-zh"), "{}", lang);
    }
}

#[test]
fn test_zipformer_ctc_zh_registered() {
    let model = get_model("zipformer-ctc-zh").expect("zipformer-ctc-zh must be registered");
    assert_eq!(model.backend, BackendKind::ZipformerCtc);
    assert_eq!(model.files.len(), 2);
}

#[test]
fn test_chinese_variants_recommend_like_zh() {
    let ids = |lang: &str| -> Vec<String> {
        recommended_models_for_language(lang).into_iter().map(|m| m.id).collect()
    };
    assert!(!ids("zh").is_empty());
    assert_eq!(ids("zh-CN"), ids("zh"));
    assert_eq!(ids("zh-TW"), ids("zh"));
    assert!(suggest_model_switch("whisper-base", "zh-TW").is_some());
    assert!(suggest_model_switch("paraformer-zh", "zh-CN").is_none());
}

#[test]
fn test_model_paths_are_under_models_dir() {
    assert_eq!(model_file_path("/cfg", "whisper-base", "ggml-base.bin"), "/cfg/models/whisper-base/ggml-base.bin");
    assert_eq!(model_file_path("/cfg/", "m", "x"), "/cfg/models/m/x");
    let (onnx, tokens) = sensevoice_model_paths("/cfg", "sensevoice-small");
    assert_eq!(onnx, "/cfg/models/sensevoice-small/model.int8.onnx");
    assert_eq!(tokens, "/cfg/models/sensevoice-small/tokens.txt");
    let (onnx, tokens) = paraformer_model_paths("/cfg", "paraformer-zh");
    assert!(onnx.ends_with("paraformer-zh/model.int8.onnx"));
    assert!(tokens.ends_with("paraformer-zh/tokens.txt"));
    let (p, e, u, c, t) = moonshine_model_paths("/cfg", "moonshine-base-en");
    assert!(p.ends_with("preprocess.onnx"));
    assert!(e.ends_with("encode.int8.onnx"));
    assert!(u.ends_with("uncached_decode.int8.onnx"));
    assert!(c.ends_with("cached_decode.int8.onnx"));
    assert!(t.ends_with("moonshine-base-en/tokens.txt"));
}

#[test]
fn test_whisper_model_path_known_and_unknown() {
    let p = whisper_model_path("/cfg", "whisper-base").unwrap();
    assert_eq!(p, "/cfg/models/whisper-base/ggml-base.bin");
    match whisper_model_path("/cfg", "nope") {
        Err(AppError::Config(m)) => assert_eq!(m, "Unknown model: nope"),
        _ => panic!("unknown model must be refused"),
    }
}

#[test]
fn test_model_file_paths_follow_catalogue() {
    let paths = model_file_paths("/c", "fire-red-asr-v1").unwrap();
    assert_eq!(paths, vec![
        "/c/models/fire-red-asr-v1/encoder.int8.onnx".to_string(),
        "/c/models/fire-red-asr-v1/decoder.int8.onnx".to_string(),
        "/c/models/fire-red-asr-v1/tokens.txt".to_string(),
    ]);
    assert!(model_file_paths("/c", "nope").is_none());
}

#[test]
fn test_is_model_downloaded_rules() {
    assert!(is_model_downloaded("whisper-base", &[Some(10)]));
    assert!(!is_model_downloaded("whisper-base", &[Some(0)]));
    assert!(!is_model_downloaded("whisper-base", &[None]));
    assert!(!is_model_downloaded("whisper-base", &[]));
    assert!(is_model_downloaded("sensevoice-small", &[Some(1), Some(2)]));
    assert!(!is_model_downloaded("sensevoice-small", &[Some(1), None]));
    assert!(!is_model_downloaded("nonexistent", &[]));
}

#[test]
fn test_download_session_fetches_missing_and_keeps_present_files() {
    let (mut d, a) = ModelDownload::begin("paraformer-zh", Ok("/cfg".to_string())).unwrap();
    assert!(matches!(&a, DownloadAction::PrepareDirs { models_dir, model_dir }
        if models_dir == "/cfg/models" && model_dir == "/cfg/models/paraformer-zh"));
    assert_eq!(d.phase(), DownloadPhase::Preparing);

    let (p, a) = d.dirs_ready();
    assert!(p.is_none());
    assert!(matches!(&a, DownloadAction::Inspect { dest } if dest == "/cfg/models/paraformer-zh/model.int8.onnx"));

    let (p, a) = d.inspected(Some(0));
    assert!(p.is_none());
    assert!(matches!(&a, DownloadAction::Request { url }
        if url == "https://huggingface.co/csukuangfj/sherpa-onnx-paraformer-zh-2024-03-09/resolve/main/model.int8.onnx"));

    let (_, a) = d.responded(true, "200 OK", None);
    assert!(matches!(&a, DownloadAction::Open { tmp } if tmp == "/cfg/models/paraformer-zh/model.int8.onnx.downloading"));
    let (_, a) = d.opened();
    assert!(matches!(a, DownloadAction::Receive));

    let (p1, _) = d.chunk_received(100);
    let (p2, a) = d.chunk_received(50);
    let p1 = p1.unwrap();
    let p2 = p2.unwrap();
    assert_eq!(p1.downloaded_bytes, 100);
    assert_eq!(p2.downloaded_bytes, 150);
    assert_eq!(d.received_bytes(), 150);
    assert_eq!(p2.total_bytes, 217000000);
    assert_eq!(p2.file_name, "model.int8.onnx");
    assert_eq!(p2.model_id, "paraformer-zh");
    assert_eq!((p2.file_index, p2.total_files), (0, 2));
    assert!(matches!(a, DownloadAction::Receive));

    let (_, a) = d.body_ended();
    assert!(matches!(&a, DownloadAction::Store { tmp, dest }
        if tmp == "/cfg/models/paraformer-zh/model.int8.onnx.downloading"
            && dest == "/cfg/models/paraformer-zh/model.int8.onnx"));
    let (_, a) = d.stored();
    assert!(matches!(&a, DownloadAction::Inspect { dest } if dest == "/cfg/models/paraformer-zh/tokens.txt"));

    let (p, a) = d.inspected(Some(7));
    let p = p.unwrap();
    assert_eq!((p.downloaded_bytes, p.total_bytes), (75000, 75000));
    assert_eq!((p.file_index, p.total_files), (1, 2));
    assert_eq!(p.file_name, "tokens.txt");
    assert!(matches!(a, DownloadAction::Finish(Ok(()))));
    assert_eq!(d.phase(), DownloadPhase::Finished);
}

#[test]
fn test_download_session_uses_content_length() {
    let (mut d, _) = ModelDownload::begin("paraformer-zh", Ok("/cfg".to_string())).unwrap();
    d.dirs_ready();
    d.inspected(None);
    d.responded(true, "200 OK", Some(999));
    d.opened();
    let (p, _) = d.chunk_received(1);
    assert_eq!(p.unwrap().total_bytes, 999);
}

#[test]
fn test_download_session_errors() {
    assert!(matches!(ModelDownload::begin("nope", Ok("/cfg".to_string())),
        Err(AppError::Config(m)) if m == "Unknown model: nope"));
    assert!(matches!(ModelDownload::begin("nope", Err(AppError::Config("no dir".to_string()))),
        Err(AppError::Config(m)) if m == "Unknown model: nope"));
    assert!(matches!(ModelDownload::begin("whisper-base", Err(AppError::Config("no dir".to_string()))),
        Err(AppError::Config(m)) if m == "no dir"));

    let (mut d, _) = ModelDownload::begin("whisper-base", Ok("/cfg".to_string())).unwrap();
    let (_, a) = d.failed(DownloadStep::ModelDir, "denied");
    assert!(matches!(a, DownloadAction::Finish(Err(AppError::Config(m)))
        if m == "Failed to create model directory: denied"));

    let (mut d, _) = ModelDownload::begin("whisper-base", Ok("/cfg".to_string())).unwrap();
    d.dirs_ready();
    d.inspected(None);
    let (_, a) = d.responded(false, "404 Not Found", None);
    assert!(matches!(a, DownloadAction::Finish(Err(AppError::Config(m)))
        if m == "Download failed for ggml-base.bin: HTTP 404 Not Found"));

    let (mut d, _) = ModelDownload::begin("whisper-base", Ok("/cfg".to_string())).unwrap();
    d.dirs_ready();
    d.inspected(None);
    let (_, a) = d.failed(DownloadStep::Request, "timeout");
    assert!(matches!(a, DownloadAction::Finish(Err(AppError::Config(m)))
        if m == "Failed to download ggml-base.bin: timeout"));

    assert!(matches!(download_status_error("a.bin", "404 Not Found"),
        AppError::Config(m) if m == "Download failed for a.bin: HTTP 404 Not Found"));
    assert!(matches!(download_error(DownloadStep::Rename, "a.bin", "busy"),
        AppError::Config(m) if m == "Failed to rename downloaded file: busy"));
    assert!(matches!(download_error(DownloadStep::ModelsDir, "", "busy"),
        AppError::Config(m) if m == "Failed to create models directory: busy"));
    assert_eq!(download_tmp_name("tokens.txt"), "tokens.txt.downloading");
    let f = get_model("paraformer-zh").unwrap().files;
    let done = existing_file_progress("paraformer-zh", &f[1], 1, 2);
    assert_eq!((done.downloaded_bytes, done.total_bytes), (75000, 75000));
}
