use lume_core::AnthropicRequest;
use lume_core::ChatMessage;
use lume_core::OpenAIRequest;
use lume_core::anthropic_request_json;
use lume_core::first_line;
use lume_core::is_blank;
use lume_core::openai_request_json;
use lume_core::str_eq;
use lume_core::u64_to_decimal;

#[test]
fn decimal_rendering_is_exact() {
    assert_eq!(u64_to_decimal(0), "0");
    assert_eq!(u64_to_decimal(7), "7");
    assert_eq!(u64_to_decimal(429), "429");
    assert_eq!(u64_to_decimal(4096), "4096");
    assert_eq!(u64_to_decimal(u64::MAX), u64::MAX.to_string());
}

#[test]
fn blankness_follows_trimming() {
    assert!(is_blank(""));
    assert!(is_blank(" \t\r\n"));
    assert!(is_blank("\u{00A0}\u{2003}"));
    assert!(!is_blank(" x "));
    for s in ["", "  ", "a", " a\t", "\u{1680}"] {
        assert_eq!(is_blank(s), s.trim().is_empty(), "blankness of {:?}", s);
    }
}

#[test]
fn string_equality_is_by_characters() {
    assert!(str_eq("", ""));
    assert!(str_eq("mémo", "mémo"));
    assert!(!str_eq("a", "ab"));
    assert!(!str_eq("ab", "ac"));
}

#[test]
fn first_line_stops_at_newline() {
    assert_eq!(first_line("one\ntwo\nthree"), "one");
    assert_eq!(first_line("no newline"), "no newline");
    assert_eq!(first_line("\nleading"), "");
    assert_eq!(first_line(""), "");
}

#[test]
fn openai_serializer_handles_any_message_list() {
    let req = OpenAIRequest { model: String::from("m"), messages: Vec::new() };
    assert_eq!(openai_request_json(&req), "{\"model\":\"m\",\"messages\":[]}");
    let req = OpenAIRequest {
        model: String::from("m\"x"),
        messages: vec![ChatMessage { role: String::from("user"), content: String::from("a\u{1}b") }],
    };
    assert_eq!(
        openai_request_json(&req),
        "{\"model\":\"m\\\"x\",\"messages\":[{\"role\":\"user\",\"content\":\"a\\u0001b\"}]}"
    );
}

#[test]
fn anthropic_serializer_writes_null_for_absent_system() {
    let req = AnthropicRequest {
        model: String::from("m"),
        max_tokens: 12,
        messages: Vec::new(),
        system: None,
    };
    assert_eq!(
        anthropic_request_json(&req),
        "{\"model\":\"m\",\"max_tokens\":12,\"messages\":[],\"system\":null}"
    );
}

#[test]
fn serializer_agrees_with_reference_on_escapes() {
    let msg = ChatMessage {
        role: String::from("user"),
        content: String::from("q\" b\\ n\n r\r t\t f\u{c} b\u{8} c\u{1f} plain é"),
    };
    let req = OpenAIRequest { model: String::from("m"), messages: vec![msg] };
    let ours = openai_request_json(&req);
    let reparsed: serde_json::Value = serde_json::from_str(&ours).unwrap();
    assert_eq!(
        reparsed["messages"][0]["content"],
        "q\" b\\ n\n r\r t\t f\u{c} b\u{8} c\u{1f} plain é"
    );
}
