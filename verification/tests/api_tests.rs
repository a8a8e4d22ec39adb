use ghostwriter_lib::api::{
    build_chat_request, chat_reply_outcome, extract_gemini_response, extract_response,
    gemini_reply_outcome, strip_thinking_tags, ChatResponse, Choice, GeminiCandidate,
    GeminiClient, GeminiContent, GeminiPart, GeminiResponse, OpenRouterClient, Reply,
    ResponseMessage, OPENROUTER_URL,
};

fn chat(contents: &[&str]) -> ChatResponse {
    ChatResponse {
        choices: contents
            .iter()
            .map(|c| Choice {
                message: ResponseMessage {
                    content: c.to_string(),
                },
            })
            .collect(),
    }
}

fn gemini(parts: Vec<Option<&str>>) -> GeminiResponse {
    GeminiResponse {
        candidates: vec![GeminiCandidate {
            content: GeminiContent {
                parts: parts
                    .into_iter()
                    .map(|t| GeminiPart {
                        text: t.map(|s| s.to_string()),
                    })
                    .collect(),
            },
        }],
    }
}

// ---------------------------------------------------------------------------
// Chat request helpers
// ---------------------------------------------------------------------------

#[test]
fn test_build_chat_request() {
    let req = build_chat_request("gpt-4", "Be concise.", "Hello world");
    assert_eq!(req.model, "gpt-4");
    assert_eq!(req.messages.len(), 2);
    assert_eq!(req.messages[0].role, "system");
    assert_eq!(req.messages[0].content, "Be concise.");
    assert_eq!(req.messages[1].role, "user");
    assert_eq!(req.messages[1].content, "Hello world");
    assert_eq!(req.temperature_tenths as f32 / 10.0, 0.7);
}

#[test]
fn test_chat_request_partial_eq() {
    let req1 = build_chat_request("gpt-4", "Fix grammar.", "hello");
    let req2 = build_chat_request("gpt-4", "Fix grammar.", "hello");
    assert_eq!(req1, req2);
}

// ---------------------------------------------------------------------------
// Response extraction
// ---------------------------------------------------------------------------

#[test]
fn extract_response_first_choice() {
    let result = extract_response(Ok(chat(&["Refined text", "Other"]))).unwrap();
    assert_eq!(result, "Refined text");
}

#[test]
fn extract_response_no_choices() {
    let result = extract_response(Ok(chat(&[])));
    assert_eq!(result.unwrap_err(), "No response from API");
}

#[test]
fn extract_response_parse_failure() {
    let result = extract_response(Err("expected value at line 1 column 1".to_string()));
    assert_eq!(
        result.unwrap_err(),
        "Parse error: expected value at line 1 column 1"
    );
}

#[test]
fn extract_response_strips_reasoning() {
    let result = extract_response(Ok(chat(&["<think>hmm</think>  Done "]))).unwrap();
    assert_eq!(result, "Done");
}

#[test]
fn extract_gemini_joins_parts() {
    let result =
        extract_gemini_response(Ok(gemini(vec![Some("Hello "), None, Some("world")]))).unwrap();
    assert_eq!(result, "Hello world");
}

#[test]
fn extract_gemini_empty_text() {
    let result = extract_gemini_response(Ok(gemini(vec![Some("")])));
    assert_eq!(result.unwrap_err(), "No response from API");
}

#[test]
fn extract_gemini_no_candidates() {
    let result = extract_gemini_response(Ok(GeminiResponse { candidates: vec![] }));
    assert_eq!(result.unwrap_err(), "No response from API");
}

#[test]
fn extract_gemini_with_thinking_tags() {
    let result =
        extract_gemini_response(Ok(gemini(vec![Some("<think>reasoning</think>Answer")]))).unwrap();
    assert_eq!(result, "Answer");
}

#[test]
fn extract_gemini_parse_failure() {
    let result = extract_gemini_response(Err("bad".to_string()));
    assert_eq!(result.unwrap_err(), "Parse error: bad");
}

#[test]
fn chat_reply_network_failure() {
    let r = chat_reply_outcome(Reply::SendFailed("connection refused".to_string()));
    assert_eq!(r.unwrap_err(), "Network error: connection refused");
}

#[test]
fn chat_reply_rejected() {
    let r = chat_reply_outcome(Reply::Rejected {
        status: "401 Unauthorized".to_string(),
        body: "no key".to_string(),
    });
    assert_eq!(r.unwrap_err(), "API error: 401 Unauthorized - no key");
}

#[test]
fn chat_reply_body_failure() {
    let r = chat_reply_outcome(Reply::BodyFailed("reset".to_string()));
    assert_eq!(r.unwrap_err(), "Network error: reset");
}

#[test]
fn chat_reply_parsed() {
    let r = chat_reply_outcome(Reply::Parsed(Ok(chat(&["ok"]))));
    assert_eq!(r.unwrap(), "ok");
}

#[test]
fn gemini_reply_rejected() {
    let r = gemini_reply_outcome(Reply::Rejected {
        status: "404 Not Found".to_string(),
        body: String::new(),
    });
    assert_eq!(r.unwrap_err(), "Gemini API error: 404 Not Found - ");
}

// ---------------------------------------------------------------------------
// Clients
// ---------------------------------------------------------------------------

#[test]
fn test_new_with_url_sets_base_url() {
    let client = OpenRouterClient::new_with_url(
        "key".to_string(),
        "model".to_string(),
        None,
        "http://custom.local/api".to_string(),
    )
    .unwrap();
    assert_eq!(client.base_url(), "http://custom.local/api");
}

#[test]
fn openrouter_default_endpoint() {
    let client = OpenRouterClient::new("key".to_string(), "model".to_string(), None).unwrap();
    assert_eq!(client.base_url(), OPENROUTER_URL);
}

#[test]
fn openrouter_headers_carry_key() {
    let client = OpenRouterClient::new("k1".to_string(), "m".to_string(), None).unwrap();
    let headers = client.headers();
    assert_eq!(headers.len(), 5);
    assert_eq!(headers[0], ("Authorization".to_string(), "Bearer k1".to_string()));
    assert_eq!(headers[4], ("User-Agent".to_string(), "GhostWriter/0.1.0".to_string()));
    let req = client.chat_request("inst", "txt");
    assert_eq!(req.model, "m");
}

#[test]
fn gemini_endpoint_has_model_and_key() {
    let client = GeminiClient::new("k2".to_string(), "gemini-2.0-flash".to_string(), None).unwrap();
    assert_eq!(
        client.endpoint(),
        "https://generativelanguage.googleapis.com/v1beta/models/gemini-2.0-flash:generateContent?key=k2"
    );
}

#[test]
fn api_test_gemini_client_creates_without_proxy() {
    let result = GeminiClient::new("key".to_string(), "gemini-2.0-flash".to_string(), None);
    assert!(result.is_ok());
}

#[test]
fn api_test_gemini_client_creates_with_valid_proxy() {
    let result = GeminiClient::new(
        "key".to_string(),
        "gemini-2.0-flash".to_string(),
        Some("http://127.0.0.1:8080".to_string()),
    );
    assert!(result.is_ok());
}

#[test]
fn test_openrouter_client_creates_without_proxy() {
    let result = OpenRouterClient::new("key".to_string(), "model".to_string(), None);
    assert!(result.is_ok());
}

#[test]
fn test_openrouter_client_creates_with_valid_proxy() {
    let result = OpenRouterClient::new(
        "key".to_string(),
        "model".to_string(),
        Some("http://127.0.0.1:8080".to_string()),
    );
    assert!(result.is_ok());
}

#[test]
fn test_openrouter_client_invalid_proxy_warns_but_succeeds() {
    let result = OpenRouterClient::new(
        "key".to_string(),
        "model".to_string(),
        Some("not-a-valid-proxy://".to_string()),
    );
    assert!(result.is_ok());
}

#[test]
fn api_tests_test_gemini_client_creates_without_proxy() {
    let result = GeminiClient::new("key".to_string(), "gemini-2.0-flash".to_string(), None);
    assert!(result.is_ok());
}

#[test]
fn api_tests_test_gemini_client_creates_with_valid_proxy() {
    let result = GeminiClient::new(
        "key".to_string(),
        "gemini-2.0-flash".to_string(),
        Some("http://127.0.0.1:8080".to_string()),
    );
    assert!(result.is_ok());
}

#[test]
fn test_gemini_client_invalid_proxy_warns_but_succeeds() {
    let result = GeminiClient::new(
        "key".to_string(),
        "gemini-2.0-flash".to_string(),
        Some("not-a-valid-proxy://".to_string()),
    );
    assert!(result.is_ok());
}

// ---------------------------------------------------------------------------
// Thinking tag stripping
// ---------------------------------------------------------------------------

#[test]
fn test_strip_thinking_tags_removes_full_tag() {
    let result = strip_thinking_tags("<think>some reasoning</think>Hello".to_string());
    assert_eq!(result, "Hello");
}

#[test]
fn test_strip_thinking_tags_no_tags() {
    let result = strip_thinking_tags("Just a normal response".to_string());
    assert_eq!(result, "Just a normal response");
}

#[test]
fn test_strip_thinking_tags_multiple() {
    let result = strip_thinking_tags(
        "<think>step 1</think>Answer<think>step 2</think> here".to_string(),
    );
    assert_eq!(result, "Answer here");
}

#[test]
fn test_strip_thinking_tags_unclosed() {
    let result = strip_thinking_tags("<think>no close tag".to_string());
    assert_eq!(result, "no close tag");
}

#[test]
fn test_strip_thinking_tags_with_whitespace() {
    let result = strip_thinking_tags("  <think>reasoning</think>  Final output  ".to_string());
    assert_eq!(result, "Final output");
}

#[test]
fn strip_thinking_tags_rejoined_tag_is_removed_too() {
    let result = strip_thinking_tags("<thi<think>x</think>nk>y</think>z".to_string());
    assert_eq!(result, "z");
}

#[test]
fn strip_thinking_tags_is_idempotent() {
    let once = strip_thinking_tags(" <think>a</think> b <think>c ".to_string());
    let twice = strip_thinking_tags(once.clone());
    assert_eq!(once, twice);
    assert!(!once.contains("<think>"));
}

#[test]
fn strip_thinking_tags_unicode_whitespace() {
    let result = strip_thinking_tags("\u{3000}héllo\u{a0}\n".to_string());
    assert_eq!(result, "héllo");
}

#[test]
fn gemini_request_carries_text_and_instruction() {
    let req = ghostwriter_lib::api::build_gemini_request("Be concise.", "Hello world");
    assert_eq!(req.role, "user");
    assert_eq!(req.text, "Hello world");
    assert_eq!(req.instruction, "Be concise.");
    assert_eq!(req.temperature_tenths, 7);
}

#[test]
fn http_client_builds_without_proxy() {
    assert!(ghostwriter_lib::api::new_http_client(None).is_ok());
}

#[test]
fn http_client_builds_through_accepted_proxy() {
    assert!(ghostwriter_lib::api::new_http_client(Some("http://127.0.0.1:8080".to_string())).is_ok());
    assert!(ghostwriter_lib::api::new_http_client(Some("socks5://127.0.0.1:1080".to_string())).is_ok());
}
