use serde_json::Value;
use std::path::{Path, PathBuf};
use zeroclaw::gitee_tts::{
    audio_result, create_failed, gender_of, plan_request, poll_step, polling_timeout,
    task_failed, task_id_from, GiteeTtsTool, PollStep, TtsPlan, VoiceGender,
};
use zeroclaw::i18n::{t, CliTranslations, Locale};
use zeroclaw::model::Tool;
use zeroclaw::static_files::{
    app_asset_path, cache_control, file_headers, pick_web_dir, relative_file_path, WebDirConfig,
};

fn json(text: &str) -> Value {
    serde_json::from_str(text).unwrap()
}

fn reject_message(plan: &TtsPlan) -> String {
    match plan {
        TtsPlan::Reject(r) => {
            assert!(!r.success);
            assert_eq!(r.output, "");
            r.error.clone().unwrap()
        }
        TtsPlan::Submit(_) => panic!("expected a refusal"),
    }
}

#[test]
fn test_gitee_tts_tool_name() {
    let tool = GiteeTtsTool::new("test_token".to_string());
    assert_eq!(tool.name(), "tts");
}

#[test]
fn test_gitee_tts_tool_spec() {
    let tool = GiteeTtsTool::new("test_token".to_string());
    let spec = tool.spec();
    assert_eq!(spec.name, "tts");
    assert!(!spec.description.is_empty());
    assert!(spec.parameters.get("properties").is_some());
}

#[test]
fn tool_keeps_its_token_and_timeout() {
    let tool = GiteeTtsTool::new("secret".to_string());
    assert_eq!(tool.api_token(), "secret");
    assert_eq!(tool.timeout_secs(), 300);
    let schema = tool.parameters_schema();
    assert_eq!(schema["required"], json("[\"text\"]"));
    assert_eq!(schema["properties"]["pitch"]["maximum"], json("5"));
}

#[test]
fn request_with_defaults() {
    let plan = plan_request(&json("{\"text\":\"hello\"}")).unwrap();
    match plan {
        TtsPlan::Submit(q) => {
            assert_eq!(q.text, "hello");
            assert_eq!(q.gender, VoiceGender::Male);
            assert_eq!(q.pitch, 3);
            assert_eq!(q.speed, 3);
        }
        TtsPlan::Reject(_) => panic!("expected a request"),
    }
}

#[test]
fn request_with_voice_and_levels() {
    let args = json("{\"text\":\"hi\",\"voice\":\"Young WOMEN\",\"pitch\":2,\"speed\":5}");
    match plan_request(&args).unwrap() {
        TtsPlan::Submit(q) => {
            assert_eq!(q.gender, VoiceGender::Female);
            assert_eq!(q.gender.as_str(), "female");
            assert_eq!(q.pitch, 2);
            assert_eq!(q.speed, 5);
        }
        TtsPlan::Reject(_) => panic!("expected a request"),
    }
}

#[test]
fn gender_words_pick_the_voice() {
    assert_eq!(gender_of(&json("{\"gender\":\"FEMALE\"}")), VoiceGender::Female);
    assert_eq!(gender_of(&json("{\"gender\":\"女声\"}")), VoiceGender::Female);
    assert_eq!(gender_of(&json("{\"voice\":\"a girl\"}")), VoiceGender::Female);
    assert_eq!(gender_of(&json("{\"gender\":\"male\"}")), VoiceGender::Male);
    assert_eq!(gender_of(&json("{\"gender\":1,\"voice\":\"female\"}")), VoiceGender::Male);
    assert_eq!(gender_of(&json("{}")), VoiceGender::Male);
}

#[test]
fn missing_text_is_an_error() {
    let e = plan_request(&json("{\"gender\":\"male\"}")).unwrap_err();
    assert_eq!(e, "Missing required parameter: text");
    let e = plan_request(&json("{\"text\":7}")).unwrap_err();
    assert_eq!(e, "Missing required parameter: text");
}

#[test]
fn empty_text_is_refused() {
    let plan = plan_request(&json("{\"text\":\"\"}")).unwrap();
    assert_eq!(reject_message(&plan), "Text cannot be empty");
}

#[test]
fn text_length_is_counted_in_bytes() {
    let at_limit = format!("{{\"text\":\"{}\"}}", "a".repeat(5000));
    assert!(matches!(plan_request(&json(&at_limit)).unwrap(), TtsPlan::Submit(_)));
    let over = format!("{{\"text\":\"{}\"}}", "a".repeat(5001));
    let plan = plan_request(&json(&over)).unwrap();
    assert_eq!(reject_message(&plan), "Text too long (max 5000 characters)");
    let wide = format!("{{\"text\":\"{}\"}}", "语".repeat(2000));
    let plan = plan_request(&json(&wide)).unwrap();
    assert_eq!(reject_message(&plan), "Text too long (max 5000 characters)");
}

#[test]
fn task_id_is_read_from_the_reply() {
    assert_eq!(task_id_from(&json("{\"task_id\":\"abc\"}")).unwrap(), "abc");
    assert_eq!(
        task_id_from(&json("{\"error\":\"bad token\"}")).unwrap_err(),
        "API error: \"bad token\""
    );
    assert_eq!(
        task_id_from(&json("{\"task_id\":5}")).unwrap_err(),
        "Task ID not found in response"
    );
    assert_eq!(
        task_id_from(&json("{}")).unwrap_err(),
        "Task ID not found in response"
    );
}

#[test]
fn poll_replies_are_read() {
    let done = poll_step(&json("{\"status\":\"success\",\"output\":{\"file_url\":\"http://x/a.wav\"}}"));
    assert!(matches!(done, PollStep::Done(ref u) if u == "http://x/a.wav"));
    let no_url = poll_step(&json("{\"status\":\"success\"}"));
    assert!(matches!(no_url, PollStep::Failed(ref m) if m == "File URL not found in successful response"));
    let failed = poll_step(&json("{\"status\":\"failed\",\"message\":\"quota\"}"));
    assert!(matches!(failed, PollStep::Failed(ref m) if m == "Task failed: quota"));
    let cancelled = poll_step(&json("{\"status\":\"cancelled\"}"));
    assert!(matches!(cancelled, PollStep::Failed(ref m) if m == "Task cancelled: Unknown error"));
    let error = poll_step(&json("{\"error\":{\"code\":1}}"));
    assert!(matches!(error, PollStep::Failed(ref m) if m == "Task error: {\"code\":1}"));
    assert!(matches!(poll_step(&json("{\"status\":\"running\"}")), PollStep::Pending));
    assert!(matches!(poll_step(&json("{}")), PollStep::Pending));
    assert_eq!(polling_timeout(), "Task polling timeout after 180 attempts");
}

#[test]
fn run_results_carry_their_messages() {
    let ok = audio_result("http://x/a.wav", "hello");
    assert!(ok.success);
    assert!(ok.error.is_none());
    let doc = json(&ok.output);
    assert_eq!(doc["type"], json("\"audio\""));
    assert_eq!(doc["url"], json("\"http://x/a.wav\""));
    assert_eq!(doc["text"], json("\"hello\""));
    assert_eq!(doc["message"], json("\"语音生成成功\""));
    let e = create_failed("timeout");
    assert!(!e.success);
    assert_eq!(e.error.as_deref(), Some("Failed to create TTS task: timeout"));
    let e = task_failed("gone");
    assert_eq!(e.error.as_deref(), Some("TTS task failed: gone"));
}

#[test]
fn messages_fall_back_to_the_key() {
    assert_eq!(t("cli.about"), "ZeroClaw - 零开销，零妥协，100% Rust");
    assert_eq!(t("common.error"), "发生错误。");
    assert_eq!(t("no.such.key"), "no.such.key");
    let tr = CliTranslations::new();
    assert_eq!(tr.get("common.loading"), "加载中...");
    assert_ne!(Locale::En, Locale::ZhCN);
}

#[test]
fn asset_paths_and_headers() {
    assert_eq!(app_asset_path("/_app/assets/x.js"), "assets/x.js");
    assert_eq!(app_asset_path("/other/page"), "/other/page");
    assert_eq!(relative_file_path("/index.html"), "index.html");
    assert_eq!(relative_file_path("index.html"), "index.html");
    assert_eq!(cache_control("assets/app.js"), "public, max-age=31536000, immutable");
    assert_eq!(cache_control("index.html"), "no-cache");
    let h = file_headers("/srv/web/assets/app.js", "assets/app.js");
    assert_eq!(h.content_type, "text/javascript");
    assert_eq!(h.cache_control, "public, max-age=31536000, immutable");
    let h = file_headers("/srv/web/blob.unknownext", "blob.unknownext");
    assert_eq!(h.content_type, "application/octet-stream");
    assert_eq!(h.cache_control, "no-cache");
    let config = WebDirConfig::new(None);
    assert!(config.web_dir.is_none());
}

#[test]
fn first_existing_directory_is_served() {
    let picked = pick_web_dir(vec![
        (PathBuf::from("/missing"), false),
        (PathBuf::from("/home/u/.zeroclaw/web/dist"), true),
        (PathBuf::from("/srv/web/dist"), true),
    ]);
    assert_eq!(
        picked.web_dir.as_ref().as_deref(),
        Some(Path::new("/home/u/.zeroclaw/web/dist"))
    );
    let none = pick_web_dir(vec![(PathBuf::from("/missing"), false)]);
    assert!(none.web_dir.is_none());
}
