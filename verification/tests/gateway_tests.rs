use lume_core::GatewayError;
use lume_core::Provider;
use lume_core::interpret_completion_response;
use lume_core::parse_error_response;
use lume_core::parse_provider;
use lume_core::prepare_completion;

const SYSTEM_PROMPT: &str = "You are a LaTeX expert assistant. Return only valid LaTeX code or helpful advice as requested.";

#[test]
fn openai_success_extracts_content() {
    let body = r#"{"choices":[{"message":{"role":"assistant","content":"\\section{Intro}"}}]}"#;
    let r = interpret_completion_response(Provider::OpenAICompatible, 200, body);
    assert_eq!(r.unwrap(), "\\section{Intro}");
}

#[test]
fn google_success_extracts_content() {
    let body = r#"{"choices":[{"message":{"role":"assistant","content":"Answer"}}],"model":"gemini"}"#;
    let r = interpret_completion_response(Provider::GoogleProxy, 200, body);
    assert_eq!(r.unwrap(), "Answer");
}

#[test]
fn anthropic_success_extracts_content() {
    let body = r#"{"content":[{"type":"text","text":"Hi there"}],"role":"assistant"}"#;
    let r = interpret_completion_response(Provider::Anthropic, 200, body);
    assert_eq!(r.unwrap(), "Hi there");
}

#[test]
fn success_returns_content_not_envelope() {
    let body = r#"{"choices":[{"message":{"role":"assistant","content":"inner"}}]}"#;
    let r = interpret_completion_response(Provider::OpenAICompatible, 201, body).unwrap();
    assert_eq!(r, "inner");
    assert!(!r.contains("choices"));
}

#[test]
fn blank_api_key_is_configuration_error() {
    let r = prepare_completion("prompt", "gpt-4", "openai", "   \t\n ");
    match r {
        Err(GatewayError::Configuration(m)) => {
            assert_eq!(m, "API Key for openai is not set. Please go to Settings to configure it.");
        }
        _ => panic!("expected a configuration error"),
    }
}

#[test]
fn blank_api_key_checked_before_provider() {
    let r = prepare_completion("prompt", "m", "mistral", "");
    assert!(matches!(r, Err(GatewayError::Configuration(_))));
}

#[test]
fn unknown_provider_is_unsupported() {
    let r = prepare_completion("prompt", "m", "mistral", "key");
    match r {
        Err(GatewayError::UnsupportedProvider(m)) => {
            assert_eq!(m, "Unsupported AI provider: mistral");
        }
        _ => panic!("expected an unsupported-provider error"),
    }
}

#[test]
fn provider_names_parse() {
    assert_eq!(parse_provider("openai"), Some(Provider::OpenAICompatible));
    assert_eq!(parse_provider("anthropic"), Some(Provider::Anthropic));
    assert_eq!(parse_provider("google"), Some(Provider::GoogleProxy));
    assert_eq!(parse_provider("OpenAI"), None);
    assert_eq!(parse_provider(""), None);
}

#[test]
fn openai_plan_is_exact() {
    let plan = prepare_completion("Hi", "gpt-4", "openai", "sk-123").unwrap();
    assert_eq!(plan.url, "https://api.openai.com/v1/chat/completions");
    assert_eq!(plan.headers.len(), 2);
    assert_eq!(plan.headers[0].0, "Authorization");
    assert_eq!(plan.headers[0].1, "Bearer sk-123");
    assert_eq!(plan.headers[1].0, "Content-Type");
    assert_eq!(plan.headers[1].1, "application/json");
    let expected = format!(
        "{{\"model\":\"gpt-4\",\"messages\":[{{\"role\":\"system\",\"content\":\"{}\"}},{{\"role\":\"user\",\"content\":\"Hi\"}}]}}",
        SYSTEM_PROMPT
    );
    assert_eq!(plan.body, expected);
}

#[test]
fn google_plan_embeds_key_in_url() {
    let plan = prepare_completion("Hi", "gemini-pro", "google", "g-9").unwrap();
    assert_eq!(
        plan.url,
        "https://generativelanguage.googleapis.com/v1beta/openai/chat/completions?key=g-9"
    );
    assert_eq!(plan.headers[0].1, "Bearer g-9");
    assert!(plan.body.starts_with("{\"model\":\"gemini-pro\""));
}

#[test]
fn anthropic_plan_is_exact() {
    let plan = prepare_completion("Hi", "latex-tutor-2", "anthropic", "ak").unwrap();
    assert_eq!(plan.url, "https://api.anthropic.com/v1/messages");
    assert_eq!(plan.headers.len(), 3);
    assert_eq!(plan.headers[0].0, "x-api-key");
    assert_eq!(plan.headers[0].1, "ak");
    assert_eq!(plan.headers[1].0, "anthropic-version");
    assert_eq!(plan.headers[1].1, "2023-06-01");
    assert_eq!(plan.headers[2].0, "Content-Type");
    assert_eq!(plan.headers[2].1, "application/json");
    let expected = format!(
        "{{\"model\":\"latex-tutor-2\",\"max_tokens\":4096,\"messages\":[{{\"role\":\"user\",\"content\":\"Hi\"}}],\"system\":\"{}\"}}",
        SYSTEM_PROMPT
    );
    assert_eq!(plan.body, expected);
}

#[test]
fn request_body_escapes_json_characters() {
    let plan = prepare_completion("a \"quote\" and\nnewline \\ tab\t", "m", "openai", "k").unwrap();
    assert!(plan.body.contains("a \\\"quote\\\" and\\nnewline \\\\ tab\\t"));
}

#[test]
fn request_body_matches_reference_serializer(){
    let plan = prepare_completion("Hi", "gpt-4", "openai", "k").unwrap();
    let reparsed: serde_json::Value = serde_json::from_str(&plan.body).unwrap();
    assert_eq!(reparsed["model"], "gpt-4");
    assert_eq!(reparsed["messages"][0]["role"], "system");
    assert_eq!(reparsed["messages"][1]["content"], "Hi");
}

#[test]
fn google_quota_error_uses_first_line_only() {
    let body = r#"[{"error":{"message":"Resource exhausted for model\nDetails: try later","code":429}}]"#;
    let m = parse_error_response(Provider::GoogleProxy, 429, body);
    assert_eq!(
        m,
        "Gemini Quota Exceeded: Resource exhausted for model. Please wait a few seconds and try again."
    );
    assert!(m.contains("Quota Exceeded"));
    assert!(!m.contains("Details"));
}

#[test]
fn google_error_object_form() {
    let body = r#"{"error":{"message":"Bad model name"}}"#;
    let m = parse_error_response(Provider::GoogleProxy, 400, body);
    assert_eq!(m, "Gemini Error (400): Bad model name");
}

#[test]
fn openai_error_message_is_normalized() {
    let body = r#"{"error":{"message":"Invalid API key provided"}}"#;
    let m = parse_error_response(Provider::OpenAICompatible, 401, body);
    assert_eq!(m, "OpenAI Error (401): Invalid API key provided");
}

#[test]
fn anthropic_error_message_is_normalized() {
    let body = r#"{"error":{"type":"overloaded_error","message":"Overloaded"}}"#;
    let m = parse_error_response(Provider::Anthropic, 529, body);
    assert_eq!(m, "Anthropic Error (529): Overloaded");
}

#[test]
fn unparseable_error_body_falls_back_to_generic() {
    let m = parse_error_response(Provider::OpenAICompatible, 500, "upstream exploded");
    assert_eq!(m, "OPENAI API Error (500): upstream exploded");
    let m = parse_error_response(Provider::GoogleProxy, 503, "<html>bad gateway</html>");
    assert_eq!(m, "GOOGLE API Error (503): <html>bad gateway</html>");
    let m = parse_error_response(Provider::Anthropic, 500, "x");
    assert_eq!(m, "ANTHROPIC API Error (500): x");
}

#[test]
fn parsed_body_without_error_message_falls_back_to_generic() {
    let m = parse_error_response(Provider::OpenAICompatible, 500, r#"{"status":"down"}"#);
    assert_eq!(m, "OPENAI API Error (500): {\"status\":\"down\"}");
    let m = parse_error_response(Provider::GoogleProxy, 500, r#"[{"no_error":1}]"#);
    assert_eq!(m, "GOOGLE API Error (500): [{\"no_error\":1}]");
}

#[test]
fn non_success_status_is_upstream_error() {
    let body = r#"{"error":{"message":"nope"}}"#;
    let r = interpret_completion_response(Provider::OpenAICompatible, 429, body);
    match r {
        Err(GatewayError::Upstream(m)) => assert_eq!(m, "OpenAI Error (429): nope"),
        _ => panic!("expected an upstream error"),
    }
}

#[test]
fn empty_choices_is_parse_error_not_panic() {
    let body = r#"{"choices":[]}"#;
    let r = interpret_completion_response(Provider::OpenAICompatible, 200, body);
    match r {
        Err(GatewayError::ResponseParse(m)) => {
            assert_eq!(m, format!("Failed to parse OpenAI response. Raw: {}", body));
        }
        _ => panic!("expected a parse error"),
    }
}

#[test]
fn empty_content_is_parse_error_not_panic() {
    let body = r#"{"content":[]}"#;
    let r = interpret_completion_response(Provider::Anthropic, 200, body);
    assert!(matches!(r, Err(GatewayError::ResponseParse(_))));
}

#[test]
fn malformed_success_body_is_parse_error() {
    let r = interpret_completion_response(Provider::GoogleProxy, 200, "not json at all");
    match r {
        Err(GatewayError::ResponseParse(m)) => {
            assert_eq!(m, "Failed to parse Google response. Raw: not json at all");
        }
        _ => panic!("expected a parse error"),
    }
}

#[test]
fn success_shape_missing_fields_is_parse_error() {
    let body = r#"{"choices":[{"message":{"role":"assistant"}}]}"#;
    let r = interpret_completion_response(Provider::OpenAICompatible, 200, body);
    assert!(matches!(r, Err(GatewayError::ResponseParse(_))));
}

#[test]
fn error_message_accessor_returns_inner_text() {
    let e = GatewayError::Transport(String::from("connection refused"));
    assert_eq!(e.message(), "connection refused");
}
