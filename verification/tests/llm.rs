use distilllab::llm::{
    classify_sse_line, format_chunk_decode_error, format_decode_error, format_http_error, provider_error_detail,
    split_first_line, stream_payload_step, truncate_error_text, LlmProviderConfig, ProviderErrorBody, OpenAiCompatibleChatChoice,
    OpenAiCompatibleChatDelta, OpenAiCompatibleChatMessage, OpenAiCompatibleChatRequest,
    OpenAiCompatibleChatResponse, OpenAiCompatibleChatStreamChoice, OpenAiCompatibleChatStreamChunk,
    SseLine,
};

#[test]
fn provider_config_builds_chat_completions_url_without_double_slash() {
    let config = LlmProviderConfig {
        provider_kind: "openai_compatible".to_string(),
        base_url: "https://api.example.com/v1/".to_string(),
        model: "gpt-test".to_string(),
        api_key: Some("test-key".to_string()),
    };

    assert_eq!(config.chat_completions_url(), "https://api.example.com/v1/chat/completions");
}

#[test]
fn openai_compatible_chat_message_preserves_role_and_content() {
    let message = OpenAiCompatibleChatMessage {
        role: "user".to_string(),
        content: "Import these notes".to_string(),
    };

    assert_eq!(message.role, "user");
    assert_eq!(message.content, "Import these notes");
}

#[test]
fn chat_request_preserves_model_and_message_count() {
    let request = OpenAiCompatibleChatRequest {
        model: "gpt-test".to_string(),
        messages: vec![
            OpenAiCompatibleChatMessage {
                role: "system".to_string(),
                content: "You are a routing agent".to_string(),
            },
            OpenAiCompatibleChatMessage {
                role: "user".to_string(),
                content: "Import these notes".to_string(),
            },
        ],
        stream: None,
    };

    assert_eq!(request.model, "gpt-test");
    assert_eq!(request.messages.len(), 2);
}

#[test]
fn chat_response_returns_first_message_content() {
    let response = OpenAiCompatibleChatResponse {
        choices: vec![OpenAiCompatibleChatChoice {
            message: OpenAiCompatibleChatMessage {
                role: "assistant".to_string(),
                content: "{\"intent\":\"import_material\"}".to_string(),
            },
        }],
    };

    assert_eq!(response.first_message_content(), Some("{\"intent\":\"import_material\"}"));
}

#[test]
fn chat_completions_url_trims_every_trailing_slash() {
    let config = LlmProviderConfig {
        provider_kind: "openai_compatible".to_string(),
        base_url: "http://localhost:11434/v1//".to_string(),
        model: "m".to_string(),
        api_key: None,
    };
    assert_eq!(config.chat_completions_url(), "http://localhost:11434/v1/chat/completions");
    let plain = LlmProviderConfig { base_url: "http://host".to_string(), ..config };
    assert_eq!(plain.chat_completions_url(), "http://host/chat/completions");
}

#[test]
fn empty_response_has_no_first_message_content() {
    let response = OpenAiCompatibleChatResponse { choices: vec![] };
    assert_eq!(response.first_message_content(), None);
}

#[test]
fn stream_chunk_delta_text_defaults_to_empty() {
    let chunk = OpenAiCompatibleChatStreamChunk {
        choices: vec![OpenAiCompatibleChatStreamChoice {
            delta: OpenAiCompatibleChatDelta { content: Some("Hello".to_string()) },
        }],
    };
    assert_eq!(chunk.first_delta_text(), "Hello");
    let empty = OpenAiCompatibleChatStreamChunk { choices: vec![] };
    assert_eq!(empty.first_delta_text(), "");
    let no_content = OpenAiCompatibleChatStreamChunk {
        choices: vec![OpenAiCompatibleChatStreamChoice {
            delta: OpenAiCompatibleChatDelta { content: None },
        }],
    };
    assert_eq!(no_content.first_delta_text(), "");
}

#[test]
fn error_text_is_truncated_by_characters() {
    assert_eq!(truncate_error_text("short", 10), "short");
    assert_eq!(truncate_error_text("abcdefghij", 4), "abcd...");
    assert_eq!(truncate_error_text("héllo", 2), "hé...");
}

#[test]
fn sse_lines_are_classified() {
    assert_eq!(classify_sse_line(""), SseLine::Ignored);
    assert_eq!(classify_sse_line(": keep-alive"), SseLine::Ignored);
    assert_eq!(classify_sse_line("data: [DONE]"), SseLine::Done);
    assert_eq!(
        classify_sse_line("data: {\"a\":1}"),
        SseLine::Payload("{\"a\":1}".to_string())
    );
}

fn error_body() -> ProviderErrorBody {
    ProviderErrorBody::default()
}

#[test]
fn provider_error_detail_prefers_error_message_then_fallbacks() {
    let mut body = error_body();
    assert_eq!(provider_error_detail(&body), None);
    body.detail_json = Some(format!("{{\"x\":\"{}\"}}", "a".repeat(500)));
    let detail = provider_error_detail(&body).expect("detail json");
    assert!(detail.ends_with("..."));
    assert_eq!(detail.chars().count(), 403);
    body.detail_text = Some("detail text".to_string());
    assert_eq!(provider_error_detail(&body).as_deref(), Some("detail text"));
    body.message = Some("top message".to_string());
    assert_eq!(provider_error_detail(&body).as_deref(), Some("top message"));
    body.error_text = Some("plain error".to_string());
    assert_eq!(provider_error_detail(&body).as_deref(), Some("plain error"));
    body.error_message = Some("invalid model".to_string());
    assert_eq!(provider_error_detail(&body).as_deref(), Some("invalid model"));
}

#[test]
fn http_error_text_uses_detail_or_truncated_body() {
    let mut body = error_body();
    body.error_message = Some("invalid model".to_string());
    assert_eq!(
        format_http_error("400 Bad Request", "{\"error\":{\"message\":\"invalid model\"}}", &Some(body)),
        "llm request failed with status 400 Bad Request: invalid model"
    );
    assert_eq!(
        format_http_error("502 Bad Gateway", "  upstream down  ", &None),
        "llm request failed with status 502 Bad Gateway: upstream down"
    );
    assert_eq!(
        format_http_error("500 Internal Server Error", "   ", &Some(error_body())),
        "llm request failed with status 500 Internal Server Error: <empty body>"
    );
}

#[test]
fn decode_error_texts_name_error_and_body() {
    assert_eq!(format_decode_error("expected value", " oops "), "error decoding response body: expected value; body: oops");
    let long = "b".repeat(250);
    let text = format_chunk_decode_error("eof", &long);
    assert_eq!(text, format!("stream chunk decode error: eof; payload: {}...", "b".repeat(200)));
}

#[test]
fn split_first_line_takes_text_before_first_line_feed() {
    assert_eq!(split_first_line("no newline yet"), None);
    assert_eq!(
        split_first_line("data: {}\ndata: [DONE]\n"),
        Some(("data: {}".to_string(), "data: [DONE]\n".to_string()))
    );
    assert_eq!(split_first_line("\n"), Some((String::new(), String::new())));
}

fn delta_chunk(content: Option<&str>) -> OpenAiCompatibleChatStreamChunk {
    OpenAiCompatibleChatStreamChunk {
        choices: vec![OpenAiCompatibleChatStreamChoice {
            delta: OpenAiCompatibleChatDelta { content: content.map(str::to_string) },
        }],
    }
}

#[test]
fn stream_payload_step_appends_non_empty_deltas_only() {
    let mut aggregated = "Hel".to_string();
    let step = stream_payload_step(&mut aggregated, "{}", Ok(delta_chunk(Some("lo"))));
    assert_eq!(step.ok().flatten().as_deref(), Some("lo"));
    assert_eq!(aggregated, "Hello");
    let empty = stream_payload_step(&mut aggregated, "{}", Ok(delta_chunk(None)));
    assert!(matches!(empty, Ok(None)));
    let no_choice = stream_payload_step(&mut aggregated, "{}", Ok(OpenAiCompatibleChatStreamChunk { choices: vec![] }));
    assert!(matches!(no_choice, Ok(None)));
    assert_eq!(aggregated, "Hello");
}

#[test]
fn stream_payload_step_fails_on_undecodable_payload() {
    let mut aggregated = "Hi".to_string();
    let step = stream_payload_step(&mut aggregated, "not json", Err("expected value".to_string()));
    match step {
        Err(e) => assert_eq!(
            e.to_string(),
            "agent response error: stream chunk decode error: expected value; payload: not json"
        ),
        Ok(_) => panic!("decode failure must fail the stream"),
    }
    assert_eq!(aggregated, "Hi");
}
