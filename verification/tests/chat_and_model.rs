use orchestrator::chat;
use orchestrator::chat::{ChatCompletionResponse, ChatMessage, ChoiceResponse, MessageResponse};
use orchestrator::lines::{channel_name, LineBuffer, TranscriptBuffer};
use orchestrator::model;
use orchestrator::model::{Platform, ResourceType, SourceType};

fn plain_message(role: &str, content: &str) -> ChatMessage {
    ChatMessage {
        role: role.to_string(),
        content: Some(content.to_string()),
        tool_calls: None,
        tool_call_id: None,
        name: None,
        cache_control: None,
    }
}

fn stored_message(role: &str, content: &str) -> model::Message {
    model::new_message(
        "m".to_string(),
        "c".to_string(),
        role.to_string(),
        content.to_string(),
        None,
        None,
        None,
        None,
        "now".to_string(),
    )
}

#[test]
fn chat_url_construction() {
    assert_eq!(chat::build_chat_url("https://api.openai.com/v1"), "https://api.openai.com/v1/chat/completions");
    assert_eq!(chat::build_chat_url("https://api.openai.com/v1/"), "https://api.openai.com/v1/chat/completions");
    assert_eq!(chat::build_chat_url("https://host.example"), "https://host.example/v1/chat/completions");
    assert_eq!(
        chat::build_chat_url("https://host.example/custom/chat/completions"),
        "https://host.example/custom/chat/completions"
    );
    assert_eq!(chat::build_chat_url("https://h//"), "https://h/v1/chat/completions");
}

#[test]
fn cache_control_marks_only_tool_messages() {
    let mut messages = vec![
        plain_message("user", "hi"),
        plain_message("tool", "result"),
        plain_message("assistant", "ok"),
    ];
    chat::apply_cache_control(&mut messages);
    assert!(messages[0].cache_control.is_none());
    assert_eq!(
        messages[1].cache_control.as_ref().map(|c| c.cache_type.as_str()),
        Some("ephemeral")
    );
    assert!(messages[2].cache_control.is_none());
    // applying it twice changes nothing more
    chat::apply_cache_control(&mut messages);
    assert_eq!(
        messages[1].cache_control.as_ref().map(|c| c.cache_type.as_str()),
        Some("ephemeral")
    );
    assert_eq!(messages[1].content.as_deref(), Some("result"));
}

#[test]
fn system_message_goes_first() {
    let r = chat::assemble_chat_messages(Some("be brief".to_string()), vec![plain_message("user", "hi")]);
    assert_eq!(r.len(), 2);
    assert_eq!(r[0].role, "system");
    assert_eq!(r[0].content.as_deref(), Some("be brief"));
    assert_eq!(r[1].role, "user");
    let r = chat::assemble_chat_messages(None, vec![plain_message("user", "hi")]);
    assert_eq!(r.len(), 1);
}

#[test]
fn titling_prompt_filters_and_caps() {
    let mut stored = vec![stored_message("tool", "noise")];
    for i in 0..12 {
        stored.push(stored_message("user", &format!("u{}", i)));
    }
    stored.push(stored_message("system", "skip me"));
    let prompt = chat::title_messages(&stored);
    // one instruction plus at most ten turns
    assert_eq!(prompt.len(), 11);
    assert_eq!(prompt[0].role, "system");
    assert_eq!(prompt[1].content.as_deref(), Some("u0"));
    assert_eq!(prompt[10].content.as_deref(), Some("u9"));
}

#[test]
fn title_extraction_trims() {
    let resp = ChatCompletionResponse {
        id: "r".to_string(),
        choices: vec![ChoiceResponse {
            message: MessageResponse { role: None, content: Some("  A Title \n".to_string()) },
            index: None,
            finish_reason: None,
        }],
        created: None,
    };
    assert_eq!(chat::extract_title(&resp).as_deref(), Some("A Title"));
    let empty = ChatCompletionResponse { id: "r".to_string(), choices: vec![], created: None };
    assert!(chat::extract_title(&empty).is_none());
}

#[test]
fn long_titles_are_clamped() {
    let short = "a title";
    assert_eq!(chat::clamp_title(short), "a title");
    let long: String = "x".repeat(60);
    let clamped = chat::clamp_title(&long);
    assert_eq!(clamped.chars().count(), 53);
    assert!(clamped.ends_with("..."));
    let exactly_fifty: String = "y".repeat(50);
    assert_eq!(chat::clamp_title(&exactly_fifty), exactly_fifty);
}

#[test]
fn type_encodings_round_trip() {
    assert_eq!(model::resource_type_to_string(&ResourceType::Audio), "audio");
    assert_eq!(model::resource_type_to_string(&ResourceType::Video), "video");
    assert!(matches!(model::string_to_resource_type("video"), ResourceType::Video));
    assert!(matches!(model::string_to_resource_type("audio"), ResourceType::Audio));
    assert!(matches!(model::string_to_resource_type("junk"), ResourceType::Audio));
    assert_eq!(model::source_type_to_string(&SourceType::Url), "url");
    assert!(matches!(model::string_to_source_type("url"), SourceType::Url));
    assert!(matches!(model::string_to_source_type(""), SourceType::File));
    assert_eq!(
        model::platform_to_string(&Some(Platform::Youtube)).as_deref(),
        Some("youtube")
    );
    assert_eq!(model::platform_to_string(&None), None);
    assert_eq!(
        model::string_to_platform(&Some("bilibili".to_string())),
        Some(Platform::Bilibili)
    );
    assert_eq!(model::string_to_platform(&Some("mars".to_string())), None);
    assert_eq!(model::string_to_platform(&None), None);
}

#[test]
fn url_detection() {
    assert!(model::is_url("https://example.com"));
    assert!(model::is_url("HTTP://EXAMPLE.COM"));
    assert!(!model::is_url("/home/user/file.mp3"));
    assert_eq!(model::detect_url_platform("https://www.youtube.com/watch?v=1"), Some(Platform::Youtube));
    assert_eq!(model::detect_url_platform("https://youtu.be/x"), Some(Platform::Youtube));
    assert_eq!(model::detect_url_platform("https://www.bilibili.com/v/1"), Some(Platform::Bilibili));
    assert_eq!(model::detect_url_platform("https://b23.tv/x"), Some(Platform::Bilibili));
    assert_eq!(model::detect_url_platform("https://example.com"), Some(Platform::Other));
    assert_eq!(model::detect_url_platform("not a url"), None);
}

#[test]
fn resource_type_detection() {
    assert!(matches!(model::detect_resource_type("https://any.example"), ResourceType::Video));
    assert!(matches!(model::detect_resource_type("/v/a.MP4"), ResourceType::Video));
    assert!(matches!(model::detect_resource_type("/v/a.webm"), ResourceType::Video));
    assert!(matches!(model::detect_resource_type("/a/b.mp3"), ResourceType::Audio));
    assert!(matches!(model::detect_resource_type("/a/noext"), ResourceType::Audio));
    assert!(matches!(model::detect_resource_type("/a.dir/noext"), ResourceType::Audio));
    assert!(matches!(model::detect_resource_type(".hidden"), ResourceType::Audio));
}

#[test]
fn url_resources_are_validated() {
    let r = model::new_url_resource(
        "r1".to_string(),
        "v".to_string(),
        "ftp://example.com".to_string(),
        "now".to_string(),
    );
    assert!(r.is_err());
    let r = model::new_url_resource(
        "r1".to_string(),
        "v".to_string(),
        "https://youtu.be/x".to_string(),
        "now".to_string(),
    )
    .unwrap();
    assert!(matches!(r.resource_type, ResourceType::Video));
    assert!(matches!(r.source_type, SourceType::Url));
    assert_eq!(r.platform, Some(Platform::Youtube));
}

#[test]
fn task_lifecycle_fields() {
    let mut task = model::new_task(
        "t1".to_string(),
        "r1".to_string(),
        model::TranscriptionParams {
            model: None,
            language: None,
            device: None,
            compute_type: None,
            beam_size: None,
            best_of: None,
            condition_on_previous_text: None,
            initial_prompt: None,
            word_timestamps: None,
            translate: None,
        },
        "t0".to_string(),
    );
    assert_eq!(task.status, "pending");
    model::mark_task_running(&mut task);
    assert_eq!(task.status, "running");
    model::complete_task(&mut task, "/out/t1.json".to_string(), Some("log".to_string()), "t2".to_string());
    assert_eq!(task.status, "completed");
    assert_eq!(task.result.as_deref(), Some("/out/t1.json"));
    assert_eq!(task.completed_at.as_deref(), Some("t2"));
    assert_eq!(task.log.as_deref(), Some("log"));
    model::fail_task(&mut task, "oops".to_string(), "t3".to_string());
    assert_eq!(task.status, "failed");
    assert_eq!(task.error.as_deref(), Some("oops"));
}

#[test]
fn resource_records_latest_completed_task() {
    let mut res = model::new_file_resource(
        "r1".to_string(),
        "a".to_string(),
        "/a.mp3".to_string(),
        "t0".to_string(),
    );
    model::record_completed_task(&mut res, "t9".to_string(), "t5".to_string());
    assert_eq!(res.latest_completed_task_id.as_deref(), Some("t9"));
    assert_eq!(res.updated_at, "t5");
}

#[test]
fn ai_config_edit_keeps_creation_time() {
    let cfg = model::new_ai_config(
        "c1".to_string(),
        "main".to_string(),
        "https://api.example/v1".to_string(),
        "key-123".to_string(),
        "gpt".to_string(),
        "t0".to_string(),
    );
    let edited = model::updated_ai_config(
        &cfg,
        "renamed".to_string(),
        cfg.base_url.clone(),
        cfg.api_key.clone(),
        "gpt-2".to_string(),
        "t1".to_string(),
    );
    assert_eq!(edited.id, "c1");
    assert_eq!(edited.created_at, "t0");
    assert_eq!(edited.updated_at, "t1");
    assert_eq!(edited.name, "renamed");
}

#[test]
fn chat_records() {
    let mut c = model::new_chat("c1".to_string(), "hello".to_string(), "t0".to_string());
    model::retitle_chat(&mut c, "better".to_string(), "t1".to_string());
    assert_eq!(c.title, "better");
    assert_eq!(c.updated_at, "t1");
    model::touch_chat(&mut c, "t2".to_string());
    assert_eq!(c.updated_at, "t2");
    let item = model::chat_list_item(&c, Some("t2".to_string()), 3);
    assert_eq!(item.id, "c1");
    assert_eq!(item.message_count, 3);
    assert_eq!(item.last_message_at.as_deref(), Some("t2"));
}

#[test]
fn status_and_model_listings() {
    let s = model::fast_whisper_status(Ok("/bin/whisper-cli".to_string()));
    assert!(s.whisper_cli_available);
    assert_eq!(s.whisper_cli_path.as_deref(), Some("/bin/whisper-cli"));
    assert!(s.error.is_none());
    let s = model::fast_whisper_status(Err("not packaged".to_string()));
    assert!(!s.whisper_cli_available);
    assert_eq!(s.error.as_deref(), Some("not packaged"));
    let m = model::model_info("base".to_string(), Some(1000));
    assert!(m.downloaded);
    let m = model::model_info("large-v3".to_string(), None);
    assert!(!m.downloaded);
}

#[test]
fn storage_paths() {
    assert_eq!(model::get_db_path("/data"), "/data/transcription.db");
    assert_eq!(model::get_db_path("/data/"), "/data/transcription.db");
    assert_eq!(
        orchestrator::mcp::get_mcp_config_path("/data"),
        "/data/mcp_configs.json"
    );
}

#[test]
fn line_buffer_splits_on_newlines() {
    let mut buf = LineBuffer::new();
    let chunk_a: Vec<char> = "ab".chars().collect();
    buf.feed(&chunk_a);
    assert!(buf.take_line().is_none());
    let chunk_b: Vec<char> = "c\nde\nf".chars().collect();
    buf.feed(&chunk_b);
    let expect_abc: Vec<char> = "abc".chars().collect();
    let expect_de: Vec<char> = "de".chars().collect();
    assert_eq!(buf.take_line(), Some(expect_abc));
    assert_eq!(buf.take_line(), Some(expect_de));
    assert!(buf.take_line().is_none());
}

#[test]
fn transcript_accumulates_lines() {
    let mut t = TranscriptBuffer::new();
    t.push_line("first");
    t.push_line("second");
    assert_eq!(t.into_text(), "first\nsecond\n");
}

#[test]
fn channel_names_are_distinct_per_id() {
    assert_eq!(channel_name("transcription-stdout-", "t1"), "transcription-stdout-t1");
    assert_eq!(channel_name("ai-chat-stream-", "e9"), "ai-chat-stream-e9");
    assert_ne!(
        channel_name("cmd-stdout-", "a"),
        channel_name("cmd-stdout-", "b")
    );
}

#[test]
fn default_record_types() {
    assert!(matches!(model::default_resource_type(), ResourceType::Audio));
    assert!(matches!(model::default_source_type(), SourceType::File));
}
