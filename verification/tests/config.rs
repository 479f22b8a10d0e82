use std::path::PathBuf;

use hybrid_asr::config::{
    ensure_file_exists, infer_app_auth_url_from_online_url, HybridAsrConfig, LocalAsrConfig,
    DEFAULT_ONLINE_ASR_URL, DEFAULT_PROD_APP_AUTH_URL, DEFAULT_TEST_APP_AUTH_URL,
};
use hybrid_asr::engine::local::{
    build_recognizer_config, check_model_files, final_results, recognize_segment,
    recognizer_created, AsrSegmentResult, SegmentSpan,
};
use hybrid_asr::paths::{dir_name_or, resolve_dir_name};
use hybrid_asr::text::{same_text, trim, write_integer};
use hybrid_asr::AsrMode;

fn local_config() -> LocalAsrConfig<f32> {
    LocalAsrConfig {
        asr_model_dir: "models/sense-voice-zh-en".to_string(),
        vad_model_dir: "models/silero_vad".to_string(),
        auto_download: false,
        download_url: None,
        target_dir: None,
        vad_download_url: None,
        vad_target_dir: None,
        sample_rate: 16_000,
        num_threads: 4,
        use_itn: true,
        provider: "cpu".to_string(),
        min_silence_duration: 0.5,
        min_speech_duration: 0.25,
        vad_threshold: 0.5,
    }
}

#[test]
fn the_token_service_follows_the_recognition_service() {
    assert_eq!(
        infer_app_auth_url_from_online_url(DEFAULT_ONLINE_ASR_URL),
        DEFAULT_TEST_APP_AUTH_URL
    );
    assert_eq!(
        infer_app_auth_url_from_online_url("wss://aivoice.haier.net/ws"),
        DEFAULT_PROD_APP_AUTH_URL
    );
    assert_eq!(
        infer_app_auth_url_from_online_url(""),
        DEFAULT_PROD_APP_AUTH_URL
    );
}

#[test]
fn model_files_are_found_in_their_directories() {
    let config = local_config();
    assert_eq!(
        config.asr_model_dir_path(),
        PathBuf::from("models/sense-voice-zh-en")
    );
    assert_eq!(config.vad_model_dir_path(), PathBuf::from("models/silero_vad"));
    let model = config.model_path();
    assert_eq!(
        model.dir.join(model.file_name),
        PathBuf::from("models/sense-voice-zh-en/model.int8.onnx")
    );
    let tokens = config.tokens_path();
    assert_eq!(
        tokens.dir.join(tokens.file_name),
        PathBuf::from("models/sense-voice-zh-en/tokens.txt")
    );
    let vad = config.vad_model_path();
    assert_eq!(
        vad.dir.join(vad.file_name),
        PathBuf::from("models/silero_vad/silero_vad_v5.onnx")
    );
}

#[test]
fn the_mode_follows_the_configuration() {
    assert_eq!(HybridAsrConfig::Local(local_config()).mode(), AsrMode::Local);
}

#[test]
fn a_missing_file_is_named() {
    assert_eq!(ensure_file_exists(true, "a/b", "model"), Ok(()));
    assert_eq!(
        ensure_file_exists(false, "a/b", "model"),
        Err("model 不存在: a/b".to_string())
    );
}

#[test]
fn both_model_files_are_needed() {
    assert!(check_model_files(true, "m", true, "t").is_ok());
    assert_eq!(
        check_model_files(false, "m", false, "t").unwrap_err().to_string(),
        "SenseVoice model 不存在: m"
    );
    assert_eq!(
        check_model_files(true, "m", false, "t").unwrap_err().to_string(),
        "SenseVoice tokens 不存在: t"
    );
}

#[test]
fn the_recogniser_is_set_up_from_the_configuration() {
    let recognizer = build_recognizer_config(&local_config());
    assert_eq!(recognizer.sample_rate, 16_000);
    assert_eq!(recognizer.num_threads, 4);
    assert_eq!(recognizer.provider, "cpu");
    assert_eq!(recognizer.language, "auto");
    assert!(recognizer.use_itn);
    assert_eq!(recognizer.model.file_name, "model.int8.onnx");
    assert_eq!(recognizer.tokens.file_name, "tokens.txt");
    assert_eq!(recognizer.tokens.dir, PathBuf::from("models/sense-voice-zh-en"));
    assert_eq!(recognizer_created(Some(3)).unwrap(), 3);
    assert_eq!(
        recognizer_created(None::<u8>).unwrap_err().to_string(),
        "SenseVoice offline recognizer creation failed"
    );
}

fn span() -> SegmentSpan<f64> {
    SegmentSpan {
        start_time: 1.5,
        end_time: 2.0,
        start_sample: 24_000,
        sample_count: 8_000,
    }
}

#[test]
fn silence_is_no_result() {
    assert!(recognize_segment(None, span()).is_none());
    assert!(recognize_segment(Some(" \n ".to_string()), span()).is_none());
    let segment = recognize_segment(Some(" 你好 世界\u{A0}".to_string()), span()).unwrap();
    assert_eq!(segment.text, "你好 世界");
    assert_eq!(segment.start_time, 1.5);
    assert_eq!(segment.end_time, 2.0);
    assert_eq!(segment.start_sample, 24_000);
    assert_eq!(segment.sample_count, 8_000);
}

#[test]
fn local_results_are_final() {
    let segments = vec![
        AsrSegmentResult {
            text: "one".to_string(),
            start_time: 0.0,
            end_time: 1.0,
            start_sample: 0,
            sample_count: 16_000,
        },
        AsrSegmentResult {
            text: "two".to_string(),
            start_time: 1.0,
            end_time: 1.5,
            start_sample: 16_000,
            sample_count: 8_000,
        },
    ];
    let results = final_results(segments);
    assert_eq!(results.len(), 2);
    assert_eq!(results[0].text, "one");
    assert_eq!(results[1].text, "two");
    assert_eq!(results[1].start_sample, 16_000);
    assert_eq!(results[1].sample_count, 8_000);
    assert_eq!(results[1].end_time, 1.5);
    assert!(results.iter().all(|result| result.is_final));
}

#[test]
fn directories_are_named_by_their_last_part() {
    assert_eq!(resolve_dir_name("./missing/sense", "fallback"), "sense");
    assert_eq!(resolve_dir_name("a/b/", "fallback"), "b");
    assert_eq!(resolve_dir_name("a/b/.", "fallback"), "b");
    assert_eq!(resolve_dir_name("a//b//", "fallback"), "b");
    assert_eq!(resolve_dir_name("name", "fallback"), "name");
    assert_eq!(resolve_dir_name("/data/a:b/model", "fallback"), "model");
    assert_eq!(resolve_dir_name("/data/a:b", "fallback"), "a:b");
    assert_eq!(resolve_dir_name("", "fallback"), "fallback");
    assert_eq!(resolve_dir_name(".", "fallback"), "fallback");
    assert_eq!(resolve_dir_name("a/..", "fallback"), "fallback");
    assert_eq!(resolve_dir_name("/", "fallback"), "fallback");
    assert_eq!(resolve_dir_name("a/ ", "fallback"), "fallback");
    assert_eq!(dir_name_or(None, "fallback"), "fallback");
    assert_eq!(dir_name_or(Some(String::new()), "fallback"), "fallback");
    assert_eq!(dir_name_or(Some("x".to_string()), "fallback"), "x");
}

#[test]
fn text_helpers_agree_with_their_names() {
    assert_eq!(trim("\u{2003} a b \t"), "a b");
    assert_eq!(trim(""), "");
    assert_eq!(trim("\u{8D8A}"), "\u{8D8A}");
    assert!(same_text("ab", "ab"));
    assert!(!same_text("ab", "aB"));
    assert_eq!(write_integer(0), "0");
    assert_eq!(write_integer(10_205), "10205");
    assert_eq!(write_integer(-7), "-7");
}
