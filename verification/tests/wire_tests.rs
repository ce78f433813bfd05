use anthropic_inference::client::AnthropicInference;
use anthropic_inference::json::valid_json_text;
use anthropic_inference::request::build_request_body;
use anthropic_inference::response::parse_reply;
use anthropic_inference::types::InferenceError;
use anthropic_inference::types::Message;

#[test]
fn request_body_exact_text() {
    let messages = vec![
        Message {
            role: "user".to_string(),
            content: "hi".to_string(),
        },
        Message {
            role: "assistant".to_string(),
            content: "yes?".to_string(),
        },
    ];
    let body = build_request_body("m-1", &messages, 1024, "[]", "be brief");
    assert_eq!(
        body,
        "{\"model\":\"m-1\",\"messages\":[{\"role\":\"user\",\"content\":\"hi\"},{\"role\":\"assistant\",\"content\":\"yes?\"}],\"max_tokens\":1024,\"tools\":[],\"system\":\"be brief\"}"
    );
}

#[test]
fn request_body_escapes_strings() {
    let messages = vec![Message {
        role: "user".to_string(),
        content: "a\"b\\c\nd\te\r\u{8}\u{c}\u{1}f".to_string(),
    }];
    let body = build_request_body("m", &messages, 7, "[]", "");
    assert_eq!(
        body,
        "{\"model\":\"m\",\"messages\":[{\"role\":\"user\",\"content\":\"a\\\"b\\\\c\\nd\\te\\r\\b\\f\\u0001f\"}],\"max_tokens\":7,\"tools\":[],\"system\":\"\"}"
    );
}

#[test]
fn request_body_is_valid_json() {
    let messages = vec![Message {
        role: "user".to_string(),
        content: "quote \" backslash \\ newline \n done".to_string(),
    }];
    let body = build_request_body("m", &messages, 42, "[{\"name\":\"t\"}]", "s");
    assert!(valid_json_text(&body));
}

fn body_with(extra: &str) -> String {
    format!(
        "{{\"id\":\"i\",\"model\":\"m\",\"role\":\"assistant\",\"content\":[{{\"text\":\"t\"}}],\"stop_reason\":\"end_turn\",\"usage\":{{\"input_tokens\":1,\"output_tokens\":2}}{}}}",
        extra
    )
}

#[test]
fn unknown_fields_are_skipped() {
    let body = body_with(",\"type\":\"message\",\"extra\":[1,2,{\"x\":null},true,1.5e3]");
    let reply = parse_reply(&body).expect("unknown fields must be ignored");
    assert_eq!(reply.id, "i");
    assert_eq!(reply.texts, vec!["t".to_string()]);
    assert_eq!(reply.stop_sequence, None);
}

#[test]
fn duplicate_field_is_rejected() {
    let body = body_with(",\"id\":\"again\"");
    assert!(parse_reply(&body).is_none());
}

#[test]
fn stop_sequence_variants() {
    let with_string = body_with(",\"stop_sequence\":\"STOP\"");
    assert_eq!(
        parse_reply(&with_string).unwrap().stop_sequence,
        Some("STOP".to_string())
    );
    let with_null = body_with(",\"stop_sequence\":null");
    assert_eq!(parse_reply(&with_null).unwrap().stop_sequence, None);
    // Missing entirely also means none was sent.
    assert_eq!(parse_reply(&body_with("")).unwrap().stop_sequence, None);
}

#[test]
fn string_escapes_are_decoded() {
    let body = "{\"id\":\"i\",\"model\":\"m\",\"role\":\"assistant\",\"content\":[{\"text\":\"A\\u0042\\n\\t\\\"\\\\\\u00e9\"}],\"stop_reason\":\"end\",\"usage\":{\"input_tokens\":0,\"output_tokens\":0}}";
    let reply = parse_reply(body).unwrap();
    assert_eq!(reply.texts, vec!["AB\n\t\"\\\u{e9}".to_string()]);
}

#[test]
fn surrogate_pair_escape_is_decoded() {
    let body = "{\"id\":\"i\",\"model\":\"m\",\"role\":\"assistant\",\"content\":[{\"text\":\"\\ud83d\\ude00!\"}],\"stop_reason\":\"end\",\"usage\":{\"input_tokens\":0,\"output_tokens\":0}}";
    let reply = parse_reply(body).unwrap();
    assert_eq!(reply.texts, vec!["\u{1f600}!".to_string()]);
}

#[test]
fn mismatched_surrogate_escapes_are_rejected() {
    // A high surrogate must be followed by a low-surrogate escape.
    let high_then_bmp = "{\"id\":\"i\",\"model\":\"m\",\"role\":\"assistant\",\"content\":[{\"text\":\"\\ud800\\u0041\"}],\"stop_reason\":\"end\",\"usage\":{\"input_tokens\":0,\"output_tokens\":0}}";
    assert!(parse_reply(high_then_bmp).is_none());
    // A low surrogate may not stand first.
    let low_first = "{\"id\":\"i\",\"model\":\"m\",\"role\":\"assistant\",\"content\":[{\"text\":\"\\ude00\"}],\"stop_reason\":\"end\",\"usage\":{\"input_tokens\":0,\"output_tokens\":0}}";
    assert!(parse_reply(low_first).is_none());
}

#[test]
fn lone_surrogate_escape_is_rejected() {
    let body = "{\"id\":\"i\",\"model\":\"m\",\"role\":\"assistant\",\"content\":[{\"text\":\"\\ud800\"}],\"stop_reason\":\"end\",\"usage\":{\"input_tokens\":0,\"output_tokens\":0}}";
    assert!(parse_reply(body).is_none());
}

#[test]
fn token_counts_must_be_integers_in_range() {
    let float_tokens = "{\"id\":\"i\",\"model\":\"m\",\"role\":\"assistant\",\"content\":[],\"stop_reason\":\"end\",\"usage\":{\"input_tokens\":1.5,\"output_tokens\":0}}";
    assert!(parse_reply(float_tokens).is_none());
    let huge = "{\"id\":\"i\",\"model\":\"m\",\"role\":\"assistant\",\"content\":[],\"stop_reason\":\"end\",\"usage\":{\"input_tokens\":99999999999,\"output_tokens\":0}}";
    assert!(parse_reply(huge).is_none());
    let negative = "{\"id\":\"i\",\"model\":\"m\",\"role\":\"assistant\",\"content\":[],\"stop_reason\":\"end\",\"usage\":{\"input_tokens\":-3,\"output_tokens\":0}}";
    assert_eq!(parse_reply(negative).unwrap().input_tokens, -3);
}

#[test]
fn trailing_garbage_is_rejected() {
    let body = format!("{} x", body_with(""));
    match AnthropicInference::handle_response(200, body) {
        Err(InferenceError::InvalidResponse(_)) => {}
        other => panic!("expected InvalidResponse, got {:?}", other),
    }
}

#[test]
fn truncated_body_is_rejected() {
    let full = body_with("");
    let truncated: String = full.chars().take(full.chars().count() - 2).collect();
    assert!(parse_reply(&truncated).is_none());
}

#[test]
fn nesting_beyond_the_limit_is_rejected() {
    let shallow = format!("{}{}{}", "[".repeat(50), "1", "]".repeat(50));
    assert!(valid_json_text(&shallow));
    let deep = format!("{}{}{}", "[".repeat(200), "1", "]".repeat(200));
    assert!(!valid_json_text(&deep));
}

#[test]
fn valid_json_text_checks() {
    assert!(valid_json_text("[]"));
    assert!(valid_json_text(" { \"a\" : [1, -2.5e+3, true, null] } "));
    assert!(valid_json_text("\"s\""));
    assert!(valid_json_text("-0"));
    assert!(!valid_json_text(""));
    assert!(!valid_json_text("[1,]"));
    assert!(!valid_json_text("{\"a\":}"));
    assert!(!valid_json_text("01"));
    assert!(!valid_json_text("[] []"));
    assert!(!valid_json_text("tru"));
}
