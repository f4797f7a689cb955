use quicktrans::error::AppError;
use quicktrans::llm::{
    build_user_prompt, chat_completions_url, classify_sse_line, extract_completion_tokens,
    interpret_batch_response, prepare_translation, tokens_per_second_milli,
    validate_connection_settings, LlmSettings, SseLine, SseLineBuffer,
};

fn settings(api_key: &str, base_url: &str) -> LlmSettings {
    LlmSettings {
        base_url: base_url.to_string(),
        api_key: api_key.to_string(),
        model: "gpt-4o-mini".to_string(),
        system_prompt: "You are a professional translator.".to_string(),
        user_prompt_template: "将下列文本翻译为{target_language}：{text}".to_string(),
    }
}

#[test]
fn test_build_user_prompt() {
    let template = "将下列文本翻译为{target_language}：{text}";
    let result = build_user_prompt(template, "English", "你好");
    assert_eq!(result, "将下列文本翻译为English：你好");
}

#[test]
fn test_extract_completion_tokens() {
    let response = r#"{"usage":{"completion_tokens":92,"prompt_tokens":10}}"#;
    assert_eq!(extract_completion_tokens(response), Some(92));
}

#[test]
fn extract_completion_tokens_absent_and_overflowing() {
    assert_eq!(extract_completion_tokens("{}"), None);
    assert_eq!(extract_completion_tokens(r#"{"completion_tokens":}"#), None);
    let huge = r#"{"completion_tokens": 99999999999999}"#;
    assert_eq!(extract_completion_tokens(huge), None);
    let spaced = r#"{"completion_tokens" :  7 }"#;
    assert_eq!(extract_completion_tokens(spaced), Some(7));
}

#[test]
fn chat_completions_url_trims_trailing_slashes() {
    assert_eq!(
        chat_completions_url("https://api.openai.com/v1"),
        "https://api.openai.com/v1/chat/completions"
    );
    assert_eq!(
        chat_completions_url("https://api.openai.com/v1//"),
        "https://api.openai.com/v1/chat/completions"
    );
}

// Scenario: 92 completion tokens over 1200 ms give 76.666 tokens per
// second, reported in thousandths.
#[test]
fn tokens_per_second_of_batch_run() {
    assert_eq!(tokens_per_second_milli(92, 1200), 76666);
    assert_eq!(tokens_per_second_milli(92, 0), 0);
    assert_eq!(tokens_per_second_milli(0, 1200), 0);
}

#[test]
fn interpret_batch_response_success() {
    let r = interpret_batch_response(
        true,
        "200 OK",
        None,
        None,
        Some("  Hola  ".to_string()),
        Some(92),
        r#"{"usage":{"completion_tokens":92}}"#,
        1200,
    );
    let t = r.expect("should succeed");
    assert_eq!(t.translated_text, "Hola");
    assert_eq!(t.completion_tokens, Some(92));
    assert_eq!(t.duration_ms, 1200);
    assert_eq!(t.tokens_per_second_milli, Some(76666));
}

#[test]
fn interpret_batch_response_token_fallback() {
    let r = interpret_batch_response(
        true,
        "200 OK",
        None,
        None,
        Some("Hola".to_string()),
        None,
        r#"{"usage":{"completion_tokens":92,"prompt_tokens":10}}"#,
        1200,
    );
    let t = r.expect("should succeed");
    assert_eq!(t.completion_tokens, Some(92));
    assert_eq!(t.tokens_per_second_milli, Some(76666));
}

#[test]
fn interpret_batch_response_errors() {
    let r = interpret_batch_response(
        false,
        "401 Unauthorized",
        Some("bad key".to_string()),
        None,
        None,
        None,
        "",
        10,
    );
    match r {
        Err(AppError::LlmApi(m)) => assert_eq!(m, "bad key"),
        _ => panic!("expected the API error message"),
    }

    let r = interpret_batch_response(false, "500 Internal Server Error", None, None, None, None, "", 10);
    match r {
        Err(AppError::LlmApi(m)) => assert_eq!(m, "翻译请求失败 (500 Internal Server Error)"),
        _ => panic!("expected a status error"),
    }

    let r = interpret_batch_response(true, "200 OK", None, Some("eof".to_string()), None, None, "", 10);
    match r {
        Err(AppError::LlmApi(m)) => assert_eq!(m, "解析翻译响应失败: eof"),
        _ => panic!("expected a parse error"),
    }

    let r = interpret_batch_response(true, "200 OK", None, None, None, None, "{}", 10);
    match r {
        Err(AppError::LlmApi(m)) => assert_eq!(m, "翻译 API 返回空响应"),
        _ => panic!("expected an empty-response error"),
    }
}

#[test]
fn validate_connection_settings_checks_key_and_url() {
    match validate_connection_settings(&settings("", "https://x")) {
        Err(AppError::Config(m)) => assert_eq!(m, "API Key 不能为空"),
        _ => panic!("expected a config error"),
    }
    match validate_connection_settings(&settings("k", "")) {
        Err(AppError::Config(m)) => assert_eq!(m, "Base URL 不能为空"),
        _ => panic!("expected a config error"),
    }
    assert!(validate_connection_settings(&settings("k", "https://x")).is_ok());
}

#[test]
fn prepare_translation_builds_request() {
    match prepare_translation(&settings("", "https://x"), "hi", "English") {
        Err(AppError::Config(m)) => assert_eq!(m, "API Key 未配置"),
        _ => panic!("expected a config error"),
    }
    let p = prepare_translation(&settings("k", "https://api.example.com/v1/"), "你好", "English")
        .expect("should prepare");
    assert_eq!(p.url, "https://api.example.com/v1/chat/completions");
    assert_eq!(p.model, "gpt-4o-mini");
    assert_eq!(p.user_prompt, "将下列文本翻译为English：你好");
}

#[test]
fn sse_buffer_splits_lines() {
    let mut buf = SseLineBuffer::new();
    buf.push_chunk("data: {\"x\":1}\n\nda");
    assert_eq!(buf.next_line(), Some("data: {\"x\":1}".to_string()));
    assert_eq!(buf.next_line(), Some("".to_string()));
    assert_eq!(buf.next_line(), None);
    buf.push_chunk("ta: [DONE]\n");
    assert_eq!(buf.next_line(), Some("data: [DONE]".to_string()));
    assert_eq!(buf.next_line(), None);
}

#[test]
fn sse_lines_are_classified() {
    assert!(matches!(classify_sse_line(""), SseLine::Skip));
    assert!(matches!(classify_sse_line("data: [DONE]"), SseLine::Skip));
    assert!(matches!(classify_sse_line(": comment"), SseLine::Skip));
    match classify_sse_line("data: {\"x\":1}") {
        SseLine::Payload(p) => assert_eq!(p, "{\"x\":1}"),
        _ => panic!("expected a payload"),
    }
}
