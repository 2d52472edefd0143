use nac::api::{after_reply, RetryStep};
use nac::api::{
    backend_for_host, backoff_delay_secs, classify_status, default_base_url_for_backend_hint,
    default_model_for_backend, default_reasoning_effort, detect_backend, endpoint_url,
    resolve_client_settings, text_completion, ApiError, BackendKind, ClientOverrides,
    ReasoningEffort, StatusAction,
};
use nac::json::{Json, JsonNumber};
use nac::replies::{
    extract_reasoning_text, parse_chat_completions_response, parse_openai_responses_response,
    AssistantTurn, ModelTurnResponse,
};
use nac::requests::{
    deepseek_chat_request, fireworks_chat_request, fireworks_message_to_value,
    openai_responses_request, responses_input_items,
};
use nac::types::{FunctionCall, FunctionDef, Message, ToolCall, ToolDefinition, Usage};

fn s(x: &str) -> Json {
    Json::String(x.to_string())
}

fn n(x: u64) -> Json {
    Json::Number(JsonNumber::Unsigned(x))
}

fn obj(pairs: Vec<(&str, Json)>) -> Json {
    Json::Object(pairs.into_iter().map(|(k, v)| (k.to_string(), v)).collect())
}

fn arr(items: Vec<Json>) -> Json {
    Json::Array(items)
}

fn at<'a>(v: &'a Json, key: &str) -> &'a Json {
    v.get(key).unwrap_or_else(|| panic!("missing member {}", key))
}

fn nth(v: &Json, i: usize) -> &Json {
    &v.as_array().expect("an array")[i]
}

fn txt(v: &Json) -> &str {
    v.as_str().expect("a string")
}

fn read_call() -> ToolCall {
    ToolCall {
        id: "call_1".to_string(),
        call_type: "function".to_string(),
        function: FunctionCall {
            name: "read".to_string(),
            arguments: "{\"path\":\"src/main.rs\"}".to_string(),
        },
    }
}

fn read_tool() -> ToolDefinition {
    ToolDefinition {
        def_type: "function".to_string(),
        function: FunctionDef {
            name: "read".to_string(),
            description: "Read a file".to_string(),
            parameters: obj(vec![
                ("type", s("object")),
                ("properties", obj(vec![("path", obj(vec![("type", s("string"))]))])),
                ("required", arr(vec![s("path")])),
            ]),
        },
    }
}

#[test]
fn detects_backend_from_url() {
    assert_eq!(
        detect_backend("https://api.openai.com/v1").unwrap(),
        BackendKind::OpenAiResponses
    );
    assert_eq!(
        detect_backend("https://api.fireworks.ai/inference/v1").unwrap(),
        BackendKind::FireworksChat
    );
    assert_eq!(
        detect_backend("https://api.deepseek.com").unwrap(),
        BackendKind::DeepSeekChat
    );
    assert!(detect_backend("https://example.com/v1").is_err());
}

#[test]
fn detect_backend_reports_unparsable_and_hostless_urls() {
    match detect_backend("not a url") {
        Err(ApiError::InvalidBaseUrl { url, reason }) => {
            assert_eq!(url, "not a url");
            assert!(!reason.is_empty());
        }
        other => panic!("unexpected {:?}", other),
    }
    match detect_backend("unix:/run/socket") {
        Err(ApiError::MissingHost { url }) => assert_eq!(url, "unix:/run/socket"),
        other => panic!("unexpected {:?}", other),
    }
    match detect_backend("https://example.com/v1") {
        Err(e) => assert_eq!(
            e.message(),
            "could not infer backend from 'https://example.com/v1'; pass --backend deepseek-chat, --backend fireworks-chat, or --backend openai-responses"
        ),
        Ok(b) => panic!("unexpected {:?}", b),
    }
}

#[test]
fn backend_for_host_reads_the_parsed_host() {
    assert_eq!(
        backend_for_host("x", Ok(Some("eu.fireworks.ai".to_string()))).unwrap(),
        BackendKind::FireworksChat
    );
    assert!(matches!(
        backend_for_host("x", Ok(Some("deepseek.com".to_string()))),
        Err(ApiError::UnknownBackend { .. })
    ));
    assert!(matches!(
        backend_for_host("x", Ok(None)),
        Err(ApiError::MissingHost { .. })
    ));
    match backend_for_host("x", Err("bad".to_string())) {
        Err(e) => assert_eq!(e.message(), "failed to parse OPENAI_BASE_URL 'x': bad"),
        Ok(b) => panic!("unexpected {:?}", b),
    }
}

#[test]
fn explicit_deepseek_backend_defaults_to_deepseek_url_and_model() {
    let overrides = ClientOverrides {
        backend: Some(BackendKind::DeepSeekChat),
        ..ClientOverrides::none()
    };
    let client =
        resolve_client_settings(overrides, None, None, Some("test_openai_key".to_string()))
            .unwrap();
    assert_eq!(client.base_url, "https://api.deepseek.com");
    assert_eq!(client.backend, BackendKind::DeepSeekChat);
    assert_eq!(client.model, "deepseek-v4-pro");
    assert_eq!(client.reasoning_effort, None);
}

#[test]
fn auto_backend_is_detected_from_the_default_url() {
    let client = resolve_client_settings(ClientOverrides::none(), None, None, Some("k".to_string()))
        .unwrap();
    assert_eq!(client.base_url, "https://api.openai.com/v1");
    assert_eq!(client.backend, BackendKind::OpenAiResponses);
    assert_eq!(client.model, "gpt-5.4");
    assert_eq!(client.reasoning_effort, Some(ReasoningEffort::Xhigh));
    assert_eq!(client.api_key, "k");
}

#[test]
fn environment_values_come_after_overrides() {
    let client = resolve_client_settings(
        ClientOverrides {
            model: Some("m-override".to_string()),
            reasoning_effort: Some(ReasoningEffort::Low),
            ..ClientOverrides::none()
        },
        Some("https://api.fireworks.ai/inference/v1".to_string()),
        Some("m-env".to_string()),
        Some("k".to_string()),
    )
    .unwrap();
    assert_eq!(client.base_url, "https://api.fireworks.ai/inference/v1");
    assert_eq!(client.backend, BackendKind::FireworksChat);
    assert_eq!(client.model, "m-override");
    assert_eq!(client.reasoning_effort, Some(ReasoningEffort::Low));
}

#[test]
fn deepseek_never_asks_for_reasoning_effort() {
    let client = resolve_client_settings(
        ClientOverrides {
            backend: Some(BackendKind::DeepSeekChat),
            reasoning_effort: Some(ReasoningEffort::High),
            ..ClientOverrides::none()
        },
        Some("https://elsewhere.example".to_string()),
        None,
        Some("k".to_string()),
    )
    .unwrap();
    assert_eq!(client.base_url, "https://elsewhere.example");
    assert_eq!(client.reasoning_effort, None);
}

#[test]
fn missing_api_key_is_refused() {
    let r = resolve_client_settings(ClientOverrides::none(), None, None, None);
    match r {
        Err(e) => {
            assert!(matches!(e, ApiError::MissingApiKey));
            assert_eq!(
                e.message(),
                "OpenAI API key not configured. Set OPENAI_API_KEY or api.openai.api_key in your config file."
            );
        }
        Ok(_) => panic!("a client without a key"),
    }
}

#[test]
fn unknown_host_is_refused_before_the_key() {
    let r = resolve_client_settings(
        ClientOverrides::none(),
        Some("https://example.com".to_string()),
        None,
        None,
    );
    assert!(matches!(r, Err(ApiError::UnknownBackend { .. })));
}

#[test]
fn backend_and_effort_names() {
    assert_eq!(BackendKind::Auto.as_str(), "auto");
    assert_eq!(BackendKind::DeepSeekChat.as_str(), "deepseek-chat");
    assert_eq!(BackendKind::FireworksChat.as_str(), "fireworks-chat");
    assert_eq!(BackendKind::OpenAiResponses.as_str(), "openai-responses");
    assert_eq!(ReasoningEffort::NoReasoning.as_str(), "none");
    assert_eq!(ReasoningEffort::Minimal.as_str(), "minimal");
    assert_eq!(ReasoningEffort::Xhigh.as_str(), "xhigh");
}

#[test]
fn defaults_per_backend() {
    assert_eq!(default_model_for_backend(BackendKind::DeepSeekChat), "deepseek-v4-pro");
    assert_eq!(default_model_for_backend(BackendKind::FireworksChat), "gpt-5.4");
    assert_eq!(default_model_for_backend(BackendKind::OpenAiResponses), "gpt-5.4");
    assert_eq!(default_reasoning_effort(BackendKind::OpenAiResponses), Some(ReasoningEffort::Xhigh));
    assert_eq!(default_reasoning_effort(BackendKind::FireworksChat), None);
    assert_eq!(default_base_url_for_backend_hint(BackendKind::DeepSeekChat), "https://api.deepseek.com");
    assert_eq!(default_base_url_for_backend_hint(BackendKind::Auto), "https://api.openai.com/v1");
}

#[test]
fn endpoints_and_retries() {
    assert_eq!(
        endpoint_url("https://api.openai.com/v1", BackendKind::OpenAiResponses),
        "https://api.openai.com/v1/responses"
    );
    assert_eq!(
        endpoint_url("https://api.deepseek.com", BackendKind::DeepSeekChat),
        "https://api.deepseek.com/chat/completions"
    );
    assert_eq!(backoff_delay_secs(1), 1);
    assert_eq!(backoff_delay_secs(2), 2);
    assert_eq!(backoff_delay_secs(10), 512);
    assert_eq!(backoff_delay_secs(64), 1u64 << 63);
    assert_eq!(classify_status(200), StatusAction::Accept);
    assert_eq!(classify_status(204), StatusAction::Accept);
    assert_eq!(classify_status(429), StatusAction::Retry);
    assert_eq!(classify_status(503), StatusAction::Retry);
    assert_eq!(classify_status(404), StatusAction::Fail);
    assert_eq!(classify_status(301), StatusAction::Fail);
}

#[test]
fn text_completion_needs_text() {
    let usage = Usage {
        prompt_tokens: Some(1),
        completion_tokens: None,
        total_tokens: None,
        reasoning_tokens: None,
    };
    let turn = |content: Option<&str>| ModelTurnResponse {
        assistant: AssistantTurn {
            content: content.map(|c| c.to_string()),
            reasoning_text: None,
            reasoning_details: None,
            tool_calls: None,
        },
        finish_reason: None,
        usage,
    };
    let done = text_completion(turn(Some("hi"))).unwrap();
    assert_eq!(done.content, "hi");
    assert_eq!(done.usage, usage);
    match text_completion(turn(None)) {
        Err(e) => assert_eq!(e.message(), "Text completion returned no text content"),
        Ok(_) => panic!("a completion without text"),
    }
}

#[test]
fn deepseek_chat_request_enables_max_thinking_and_preserves_reasoning() {
    let request = deepseek_chat_request(
        "deepseek-v4-pro",
        &vec![Message::Assistant {
            content: Some("calling a tool".to_string()),
            reasoning_text: Some("need current context".to_string()),
            reasoning_details: None,
            tool_calls: Some(vec![read_call()]),
        }],
        &vec![read_tool()],
    );

    assert_eq!(txt(at(&request, "model")), "deepseek-v4-pro");
    assert_eq!(txt(at(at(&request, "thinking"), "type")), "enabled");
    assert_eq!(txt(at(&request, "reasoning_effort")), "max");
    assert!(request.get("temperature").is_none());
    assert_eq!(
        txt(at(nth(at(&request, "messages"), 0), "reasoning_content")),
        "need current context"
    );
    assert_eq!(txt(at(nth(at(&request, "tools"), 0), "type")), "function");
}

#[test]
fn deepseek_request_leaves_out_empty_tools() {
    let request = deepseek_chat_request("m", &vec![], &vec![]);
    assert!(request.get("tools").is_none());
    assert_eq!(at(&request, "messages").as_array().unwrap().len(), 0);
}

#[test]
fn chat_message_forms() {
    let system = fireworks_message_to_value(&Message::System { content: "be brief".to_string() });
    assert_eq!(txt(at(&system, "role")), "system");
    assert_eq!(txt(at(&system, "content")), "be brief");
    let tool = fireworks_message_to_value(&Message::Tool {
        tool_call_id: "call_9".to_string(),
        content: "out".to_string(),
    });
    assert_eq!(txt(at(&tool, "role")), "tool");
    assert_eq!(txt(at(&tool, "tool_call_id")), "call_9");
    let quiet = fireworks_message_to_value(&Message::Assistant {
        content: None,
        reasoning_text: None,
        reasoning_details: None,
        tool_calls: Some(vec![read_call()]),
    });
    assert!(at(&quiet, "content").is_null());
    assert!(quiet.get("reasoning_content").is_none());
    let call = nth(at(&quiet, "tool_calls"), 0);
    assert_eq!(txt(at(call, "id")), "call_1");
    assert_eq!(txt(at(at(call, "function"), "name")), "read");
}

#[test]
fn fireworks_request_checks_the_effort() {
    let ok = fireworks_chat_request("m", &vec![], &vec![], Some(ReasoningEffort::Medium)).unwrap();
    assert_eq!(txt(at(&ok, "reasoning_effort")), "medium");
    assert_eq!(at(&ok, "tools").as_array().unwrap().len(), 0);
    match at(&ok, "temperature") {
        Json::Number(JsonNumber::Decimal(t)) => assert_eq!(t, "0.0"),
        other => panic!("unexpected {:?}", other),
    }
    let plain = fireworks_chat_request("m", &vec![], &vec![], None).unwrap();
    assert!(plain.get("reasoning_effort").is_none());
    match fireworks_chat_request("m", &vec![], &vec![], Some(ReasoningEffort::Xhigh)) {
        Err(e) => assert_eq!(
            e.message(),
            "reasoning effort 'xhigh' is not supported by fireworks-chat; use low, medium, or high"
        ),
        Ok(v) => panic!("unexpected {:?}", v),
    }
}

#[test]
fn responses_input_items_expand_reasoning_and_tool_state() {
    let items = responses_input_items(&vec![
        Message::System {
            content: "system".to_string(),
        },
        Message::Assistant {
            content: Some("assistant text".to_string()),
            reasoning_text: Some("hidden".to_string()),
            reasoning_details: Some(arr(vec![obj(vec![
                ("type", s("reasoning")),
                ("id", s("rs_1")),
                (
                    "summary",
                    arr(vec![obj(vec![("type", s("summary_text")), ("text", s("keep this"))])]),
                ),
            ])])),
            tool_calls: Some(vec![read_call()]),
        },
        Message::Tool {
            tool_call_id: "call_1".to_string(),
            content: "tool output".to_string(),
        },
    ]);

    assert_eq!(items.len(), 5);
    assert_eq!(txt(at(&items[0], "role")), "system");
    assert_eq!(txt(at(&items[1], "type")), "reasoning");
    assert_eq!(txt(at(&items[2], "type")), "function_call");
    assert_eq!(txt(at(&items[3], "role")), "assistant");
    assert_eq!(txt(at(&items[4], "type")), "function_call_output");
}

#[test]
fn responses_request_carries_tools_and_effort() {
    let request = openai_responses_request(
        "gpt-5.4",
        &vec![Message::User { content: "hi".to_string() }],
        &vec![read_tool()],
        Some(ReasoningEffort::Xhigh),
    );
    assert_eq!(txt(at(&request, "model")), "gpt-5.4");
    assert_eq!(txt(at(nth(at(&request, "input"), 0), "content")), "hi");
    let tool = nth(at(&request, "tools"), 0);
    assert_eq!(txt(at(tool, "type")), "function");
    assert_eq!(txt(at(tool, "name")), "read");
    assert_eq!(txt(at(tool, "description")), "Read a file");
    assert_eq!(txt(at(at(tool, "parameters"), "type")), "object");
    assert_eq!(txt(at(at(&request, "reasoning"), "effort")), "xhigh");
    let bare = openai_responses_request("m", &vec![], &vec![], None);
    assert!(bare.get("tools").is_none());
    assert!(bare.get("reasoning").is_none());
}

#[test]
fn parses_deepseek_chat_output() {
    let parsed = parse_chat_completions_response(
        &obj(vec![
            (
                "choices",
                arr(vec![obj(vec![
                    ("finish_reason", s("stop")),
                    (
                        "message",
                        obj(vec![
                            ("content", s("done")),
                            ("reasoning_content", s("worked through it")),
                            ("tool_calls", Json::Null),
                        ]),
                    ),
                ])]),
            ),
            (
                "usage",
                obj(vec![
                    ("prompt_tokens", n(10)),
                    ("completion_tokens", n(20)),
                    ("total_tokens", n(30)),
                    ("completion_tokens_details", obj(vec![("reasoning_tokens", n(9))])),
                ]),
            ),
        ]),
        "https://api.deepseek.com/chat/completions",
    )
    .unwrap();

    assert_eq!(parsed.assistant.content.as_deref(), Some("done"));
    assert_eq!(
        parsed.assistant.reasoning_text.as_deref(),
        Some("worked through it")
    );
    assert!(parsed.assistant.tool_calls.is_none());
    assert_eq!(parsed.usage.reasoning_tokens, Some(9));
}

#[test]
fn chat_reply_errors() {
    let url = "https://api.deepseek.com/chat/completions";
    match parse_chat_completions_response(&obj(vec![("choices", arr(vec![]))]), url) {
        Err(e) => assert_eq!(e.message(), format!("No choices in response from {}", url)),
        Ok(_) => panic!("read a reply without choices"),
    }
    match parse_chat_completions_response(&obj(vec![("choices", arr(vec![obj(vec![])]))]), url) {
        Err(e) => assert_eq!(e.message(), format!("Response from {} did not include a message", url)),
        Ok(_) => panic!("read a choice without a message"),
    }
    let odd_calls = obj(vec![(
        "choices",
        arr(vec![obj(vec![("message", obj(vec![("tool_calls", s("nope"))]))])]),
    )]);
    match parse_chat_completions_response(&odd_calls, url) {
        Err(e) => assert_eq!(
            e.message(),
            format!("Response from {} included tool_calls in an unsupported format", url)
        ),
        Ok(_) => panic!("read tool calls that are a string"),
    }
    let bad_calls = obj(vec![(
        "choices",
        arr(vec![obj(vec![("message", obj(vec![("tool_calls", arr(vec![obj(vec![("id", s("c"))])]))]))])]),
    )]);
    assert!(matches!(
        parse_chat_completions_response(&bad_calls, url),
        Err(ApiError::InvalidToolCalls { .. })
    ));
}

#[test]
fn chat_reply_with_tool_calls_and_truncated_counts() {
    let call = obj(vec![
        ("id", s("call_7")),
        ("type", s("function")),
        ("function", obj(vec![("name", s("ls")), ("arguments", s("{}"))])),
    ]);
    let parsed = parse_chat_completions_response(
        &obj(vec![
            ("choices", arr(vec![obj(vec![("message", obj(vec![("tool_calls", arr(vec![call]))]))])])),
            ("usage", obj(vec![("prompt_tokens", n((1u64 << 32) + 5))])),
        ]),
        "u",
    )
    .unwrap();
    let calls = parsed.assistant.tool_calls.unwrap();
    assert_eq!(calls.len(), 1);
    assert_eq!(calls[0].id, "call_7");
    assert_eq!(calls[0].function.name, "ls");
    assert_eq!(parsed.assistant.content, None);
    assert_eq!(parsed.usage.prompt_tokens, Some(5));
    assert_eq!(parsed.usage.total_tokens, None);
}

#[test]
fn parses_openai_responses_output() {
    let parsed = parse_openai_responses_response(
        &obj(vec![
            ("status", s("completed")),
            (
                "output",
                arr(vec![
                    obj(vec![
                        ("type", s("reasoning")),
                        ("id", s("rs_1")),
                        (
                            "summary",
                            arr(vec![obj(vec![
                                ("type", s("summary_text")),
                                ("text", s("thought summary")),
                            ])]),
                        ),
                    ]),
                    obj(vec![
                        ("type", s("function_call")),
                        ("call_id", s("call_1")),
                        ("name", s("read")),
                        ("arguments", s("{\"path\":\"src/main.rs\"}")),
                    ]),
                    obj(vec![
                        ("type", s("message")),
                        (
                            "content",
                            arr(vec![obj(vec![("type", s("output_text")), ("text", s("hello world"))])]),
                        ),
                    ]),
                ]),
            ),
            (
                "usage",
                obj(vec![
                    ("input_tokens", n(10)),
                    ("output_tokens", n(20)),
                    ("total_tokens", n(30)),
                    ("output_tokens_details", obj(vec![("reasoning_tokens", n(7))])),
                ]),
            ),
        ]),
        "https://api.openai.com/v1/responses",
    )
    .unwrap();

    assert_eq!(parsed.assistant.content.as_deref(), Some("hello world"));
    assert_eq!(
        parsed.assistant.reasoning_text.as_deref(),
        Some("thought summary")
    );
    assert_eq!(
        parsed
            .assistant
            .tool_calls
            .as_ref()
            .expect("tool calls should be parsed")
            .len(),
        1
    );
    assert_eq!(parsed.usage.reasoning_tokens, Some(7));
}

#[test]
fn responses_reply_joins_texts_and_notes_the_token_limit() {
    let parsed = parse_openai_responses_response(
        &obj(vec![
            ("status", s("incomplete")),
            ("incomplete_details", obj(vec![("reason", s("max_output_tokens"))])),
            (
                "output",
                arr(vec![
                    obj(vec![
                        ("type", s("message")),
                        (
                            "content",
                            arr(vec![
                                obj(vec![("type", s("output_text")), ("text", s("a"))]),
                                obj(vec![("type", s("refusal")), ("refusal", s("b"))]),
                                obj(vec![("type", s("other")), ("text", s("ignored"))]),
                            ]),
                        ),
                    ]),
                    obj(vec![("type", s("message")), ("content", s("c"))]),
                ]),
            ),
        ]),
        "u",
    )
    .unwrap();
    assert_eq!(parsed.assistant.content.as_deref(), Some("a\n\nb\n\nc"));
    assert_eq!(parsed.finish_reason.as_deref(), Some("length"));
    assert!(parsed.assistant.tool_calls.is_none());
    assert!(parsed.assistant.reasoning_details.is_none());
    assert_eq!(parsed.assistant.reasoning_text, None);
}

#[test]
fn responses_reply_falls_back_to_output_text() {
    let parsed = parse_openai_responses_response(
        &obj(vec![("output", arr(vec![])), ("output_text", s("plain"))]),
        "u",
    )
    .unwrap();
    assert_eq!(parsed.assistant.content.as_deref(), Some("plain"));
    assert_eq!(parsed.finish_reason, None);
}

#[test]
fn responses_reply_errors() {
    match parse_openai_responses_response(&obj(vec![]), "u") {
        Err(e) => assert_eq!(e.message(), "Response from u did not include output items"),
        Ok(_) => panic!("read a reply without output"),
    }
    let missing_name = obj(vec![(
        "output",
        arr(vec![obj(vec![("type", s("function_call")), ("call_id", s("c"))])]),
    )]);
    match parse_openai_responses_response(&missing_name, "u") {
        Err(e) => assert_eq!(e.message(), "Responses function_call item missing name"),
        Ok(_) => panic!("read an incomplete call"),
    }
}

#[test]
fn reasoning_text_joins_summaries_and_contents() {
    let items = vec![
        obj(vec![
            ("summary", arr(vec![obj(vec![("text", s("one"))]), obj(vec![("no_text", s("x"))])])),
            ("content", arr(vec![obj(vec![("text", s("two"))])])),
        ]),
        obj(vec![("summary", arr(vec![obj(vec![("text", s("three"))])]))]),
    ];
    assert_eq!(extract_reasoning_text(&items).as_deref(), Some("one\n\ntwo\n\nthree"));
    assert_eq!(extract_reasoning_text(&vec![obj(vec![])]), None);
}

#[test]
fn test_missing_api_key_error() {
    let result = resolve_client_settings(ClientOverrides::none(), None, None, None);
    assert!(result.is_err(), "Expected error when API key missing");
    let err_msg = result.err().expect("Expected missing-key error").message();
    assert!(err_msg.contains("OPENAI_API_KEY"), "Error should mention OPENAI_API_KEY, got: {}", err_msg);
}

#[test]
fn retries_follow_the_status() {
    assert_eq!(after_reply(0, 200), RetryStep::Done);
    assert_eq!(after_reply(0, 404), RetryStep::Fail);
    assert_eq!(after_reply(0, 429), RetryStep::RetryAfter(1));
    assert_eq!(after_reply(1, 503), RetryStep::RetryAfter(2));
    assert_eq!(after_reply(2, 503), RetryStep::GiveUp);
    assert_eq!(after_reply(2, 201), RetryStep::Done);
    // Following the steps against a server that always fails sends three requests.
    let mut attempt = 0;
    let mut sent = 0;
    loop {
        sent += 1;
        match after_reply(attempt, 500) {
            RetryStep::RetryAfter(_) => attempt += 1,
            _ => break,
        }
    }
    assert_eq!(sent, 3);
}

#[test]
fn responses_replies_fail_only_on_bad_output() {
    let url = "https://api.openai.com/v1/responses";
    let no_output = obj(vec![("output", s("none"))]);
    assert!(matches!(
        parse_openai_responses_response(&no_output, url),
        Err(ApiError::NoOutputItems { .. })
    ));
    let call = obj(vec![("type", s("function_call")), ("call_id", s("c1")), ("arguments", s("{}"))]);
    let missing_name = obj(vec![("output", Json::Array(vec![call]))]);
    match parse_openai_responses_response(&missing_name, url) {
        Err(ApiError::IncompleteFunctionCall { field }) => assert_eq!(field, "name"),
        other => panic!("expected a missing name, got {:?}", other),
    }
    let plain = obj(vec![("output", Json::Array(vec![])), ("output_text", s("hi"))]);
    let turn = parse_openai_responses_response(&plain, url).unwrap();
    assert!(turn.assistant.tool_calls.is_none());
    assert!(turn.finish_reason.is_none());
    assert_eq!(turn.assistant.content.as_deref(), Some("hi"));
}
