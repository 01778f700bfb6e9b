use ponderer::tools::agentic::{
    AgenticConfig, AgenticLoop, DEFAULT_MAX_ITERATIONS, DEFAULT_MAX_TOKENS,
    DEFAULT_TEMPERATURE_MILLI,
};
use ponderer::tools::endpoint::{
    authorization_header, completions_url, status_is_success, EndpointError,
};

#[test]
fn test_agentic_config_default() {
    let config = AgenticConfig::default();
    assert_eq!(config.max_iterations, 10);
    assert_eq!(config.temperature_milli as f32 / 1000.0, 0.7);
}

#[test]
fn defaults_are_the_documented_ones() {
    assert_eq!(DEFAULT_MAX_ITERATIONS, 10);
    assert_eq!(DEFAULT_MAX_TOKENS, 4096);
    assert_eq!(DEFAULT_TEMPERATURE_MILLI, 700);
    let config = AgenticConfig::default();
    assert_eq!(config.api_url, "http://localhost:11434/v1");
    assert_eq!(config.model, "llama3.2");
    assert_eq!(config.api_key, None);
    assert_eq!(config.temperature_milli, 700);
    assert_eq!(config.max_tokens, 4096);
    let agent = AgenticLoop::new(config);
    assert_eq!(agent.config().max_iterations, 10);
    assert_eq!(AgenticLoop::with_limit(3).config().max_iterations, 3);
    assert_eq!(AgenticLoop::with_limit(3).config().model, "llama3.2");
}

#[test]
fn completions_address_is_appended_to_the_base() {
    assert_eq!(
        completions_url("http://localhost:11434/v1"),
        "http://localhost:11434/v1/chat/completions"
    );
    assert_eq!(completions_url(""), "/chat/completions");
}

#[test]
fn credential_becomes_a_bearer_header() {
    assert_eq!(authorization_header(&None), None);
    assert_eq!(
        authorization_header(&Some("sk-test".to_string())),
        Some("Bearer sk-test".to_string())
    );
}

#[test]
fn success_is_the_two_hundreds() {
    assert!(!status_is_success(199));
    assert!(status_is_success(200));
    assert!(status_is_success(204));
    assert!(status_is_success(299));
    assert!(!status_is_success(300));
    assert!(!status_is_success(404));
    assert!(!status_is_success(500));
}

#[test]
fn errors_read_as_documented() {
    assert_eq!(
        EndpointError::Transport("connection refused".to_string()).describe(),
        "Failed to send LLM request: connection refused"
    );
    assert_eq!(
        EndpointError::Status { code: 503, body: "overloaded".to_string() }.describe(),
        "LLM API error 503: overloaded"
    );
    assert_eq!(
        EndpointError::Decode("expected value".to_string()).describe(),
        "Failed to parse LLM response: expected value"
    );
    assert_eq!(EndpointError::EmptyChoices.describe(), "Empty choices in LLM response");
    match (EndpointError::Status { code: 7, body: "b".to_string() }).duplicate() {
        EndpointError::Status { code, body } => {
            assert_eq!(code, 7);
            assert_eq!(body, "b");
        }
        other => panic!("unexpected error {:?}", other),
    }
}
