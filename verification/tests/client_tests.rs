use anthropic_inference::AnthropicInference;
use anthropic_inference::ContentItem;
use anthropic_inference::InferenceError;
use anthropic_inference::Message;
use anthropic_inference::ProjectConfig;
use anthropic_inference::TransportOutcome;
use anthropic_inference::Usage;

fn config(key: &str) -> ProjectConfig {
    ProjectConfig {
        model: "test-model".to_string(),
        api_key: key.to_string(),
        max_output_tokens: 1024,
    }
}

fn ok_body() -> String {
    "{\"id\":\"msg_1\",\"model\":\"m1\",\"role\":\"assistant\",\"content\":[{\"text\":\"hi\"}],\"stop_reason\":\"end_turn\",\"stop_sequence\":null,\"usage\":{\"input_tokens\":10,\"output_tokens\":5}}".to_string()
}

#[test]
fn success_normalizes_to_single_text_item() {
    let client = AnthropicInference::new(config("k-123"));
    let messages = vec![Message {
        role: "user".to_string(),
        content: "hello".to_string(),
    }];
    let prepared = client
        .prepare_request(&messages, Some("sys"), Ok("[]".to_string()))
        .expect("prepare must succeed with a key and valid tools");
    assert_eq!(prepared.url, "https://api.anthropic.com/v1/messages");
    assert_eq!(prepared.api_key, "k-123");
    assert_eq!(prepared.version, "2023-06-01");

    let result = AnthropicInference::conclude(TransportOutcome::Response {
        status: 200,
        body: ok_body(),
    })
    .expect("a well-formed 200 body must succeed");
    assert_eq!(
        result.content,
        vec![ContentItem::Text {
            text: "hi".to_string()
        }]
    );
    assert_eq!(result.message_type, "text");
    assert_eq!(result.id, "msg_1");
    assert_eq!(result.model, "m1");
    assert_eq!(result.role, "assistant");
    assert_eq!(result.stop_reason, "end_turn");
    assert_eq!(result.stop_sequence, None);
}

#[test]
fn missing_api_key_makes_no_transport_call() {
    let client = AnthropicInference::new(config(""));
    let messages = vec![Message {
        role: "user".to_string(),
        content: "hello".to_string(),
    }];
    let mut transport_calls = 0;
    let outcome = client.prepare_request(&messages, None, Ok("[]".to_string()));
    let result = match outcome {
        Ok(prepared) => {
            // Only this arm would reach the transport.
            transport_calls += 1;
            AnthropicInference::conclude(TransportOutcome::Response {
                status: 200,
                body: prepared.body,
            })
        }
        Err(e) => Err(e),
    };
    assert_eq!(transport_calls, 0, "no transport call may happen");
    match result {
        Err(InferenceError::MissingApiKey(_)) => {}
        other => panic!("expected MissingApiKey, got {:?}", other),
    }
}

#[test]
fn non_success_status_preserves_body_verbatim() {
    let r = AnthropicInference::handle_response(429, "rate limited".to_string());
    assert_eq!(
        r,
        Err(InferenceError::ApiError(429, "rate limited".to_string()))
    );
}

#[test]
fn status_boundaries() {
    assert!(matches!(
        AnthropicInference::handle_response(199, ok_body()),
        Err(InferenceError::ApiError(199, _))
    ));
    assert!(matches!(
        AnthropicInference::handle_response(300, ok_body()),
        Err(InferenceError::ApiError(300, _))
    ));
    assert!(AnthropicInference::handle_response(299, ok_body()).is_ok());
    assert!(AnthropicInference::handle_response(200, ok_body()).is_ok());
}

#[test]
fn malformed_body_is_invalid_response() {
    // The usage field is missing entirely.
    let body = "{\"id\":\"msg_1\",\"model\":\"m1\",\"role\":\"assistant\",\"content\":[{\"text\":\"hi\"}],\"stop_reason\":\"end_turn\"}".to_string();
    match AnthropicInference::handle_response(200, body) {
        Err(InferenceError::InvalidResponse(_)) => {}
        other => panic!("expected InvalidResponse, got {:?}", other),
    }
    match AnthropicInference::handle_response(200, "not json at all".to_string()) {
        Err(InferenceError::InvalidResponse(_)) => {}
        other => panic!("expected InvalidResponse, got {:?}", other),
    }
}

#[test]
fn usage_mapping_forces_cache_counters_to_zero() {
    let result = AnthropicInference::handle_response(200, ok_body()).unwrap();
    assert_eq!(
        result.usage,
        Usage {
            input_tokens: 10,
            output_tokens: 5,
            cache_creation_input_tokens: 0,
            cache_read_input_tokens: 0,
        }
    );
}

#[test]
fn identical_inputs_give_identical_results() {
    let client = AnthropicInference::new(config("k-123"));
    let messages = vec![Message {
        role: "user".to_string(),
        content: "hello".to_string(),
    }];
    let p1 = client
        .prepare_request(&messages, Some("sys"), Ok("[]".to_string()))
        .unwrap();
    let p2 = client
        .prepare_request(&messages, Some("sys"), Ok("[]".to_string()))
        .unwrap();
    assert_eq!(p1, p2);
    let r1 = AnthropicInference::conclude(TransportOutcome::Response {
        status: 200,
        body: ok_body(),
    });
    let r2 = AnthropicInference::conclude(TransportOutcome::Response {
        status: 200,
        body: ok_body(),
    });
    assert_eq!(r1, r2);
}

#[test]
fn empty_content_yields_empty_text() {
    let body = "{\"id\":\"msg_1\",\"model\":\"m1\",\"role\":\"assistant\",\"content\":[],\"stop_reason\":\"end_turn\",\"stop_sequence\":null,\"usage\":{\"input_tokens\":1,\"output_tokens\":2}}".to_string();
    let result = AnthropicInference::handle_response(200, body).unwrap();
    assert_eq!(
        result.content,
        vec![ContentItem::Text {
            text: String::new()
        }]
    );
}

#[test]
fn network_failure_becomes_network_error() {
    let r = AnthropicInference::conclude(TransportOutcome::Failure {
        message: "connection refused".to_string(),
    });
    assert_eq!(
        r,
        Err(InferenceError::NetworkError("connection refused".to_string()))
    );
}

#[test]
fn tool_schema_failure_becomes_serialization_error() {
    let client = AnthropicInference::new(config("k-123"));
    let messages: Vec<Message> = vec![];
    match client.prepare_request(&messages, None, Err("boom".to_string())) {
        Err(InferenceError::SerializationError(m)) => assert_eq!(m, "boom"),
        other => panic!("expected SerializationError, got {:?}", other),
    }
    match client.prepare_request(&messages, None, Ok("{not json".to_string())) {
        Err(InferenceError::SerializationError(_)) => {}
        other => panic!("expected SerializationError, got {:?}", other),
    }
}

#[test]
fn default_config_values() {
    let c = ProjectConfig::default();
    assert_eq!(c.model, "sonnet-latest");
    assert_eq!(c.api_key, "");
    assert_eq!(c.max_output_tokens, 4096);
    let client = AnthropicInference::default();
    assert_eq!(client.base_url, "https://api.anthropic.com/v1");
    assert_eq!(client.model, "sonnet-latest");
}
