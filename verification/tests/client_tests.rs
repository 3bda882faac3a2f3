use qwen::client::{Qwen, ASSISTANT_PROMPT, AUTHORIZATION_HEADER, INVALID_HEADER_VALUE_TEXT};
use qwen::config::{ModleConfig, QwenEngine};
use qwen::err::{Error, RequestFailure};
use qwen::types::{ChatMessage, Role};

#[test]
fn new_accepts_a_plain_key() {
    let qwen = Qwen::new("sk-0123456789abcdef".to_string()).expect("a plain key is accepted");
    assert_eq!(qwen.config.engine, QwenEngine::QwenMax);
    assert_eq!(qwen.config.max_tokens, None);
}

#[test]
fn new_accepts_tab_space_and_non_ascii() {
    assert!(Qwen::new("key with\ttab and space".to_string()).is_ok());
    assert!(Qwen::new("密钥".to_string()).is_ok());
    assert!(Qwen::new(String::new()).is_ok());
}

#[test]
fn new_rejects_control_characters() {
    for key in ["line\nbreak", "carriage\rreturn", "nul\0byte", "del\u{7f}char"] {
        match Qwen::new(key.to_string()) {
            Err(Error::InvalidHeaderValue(text)) => {
                assert_eq!(text, "failed to parse header value");
                assert_eq!(text, INVALID_HEADER_VALUE_TEXT);
            }
            Err(other) => panic!("unexpected error {:?}", other),
            Ok(_) => panic!("the key {:?} was accepted", key),
        }
    }
}

#[test]
fn new_with_config_keeps_the_config() {
    let mut config = ModleConfig::default();
    config.engine = QwenEngine::QwenTurbo;
    config.max_tokens = Some(512);
    let qwen = Qwen::new_with_config("key".to_string(), config).unwrap();
    assert_eq!(qwen.config.engine, QwenEngine::QwenTurbo);
    assert_eq!(qwen.config.max_tokens, Some(512));
}

#[test]
fn question_messages_prepend_the_assistant_prompt() {
    let messages = Qwen::question_messages("1+1=".to_string());
    assert_eq!(messages.len(), 2);
    assert_eq!(messages[0].role, Role::System);
    assert_eq!(messages[0].content, ASSISTANT_PROMPT);
    assert_eq!(messages[0].content, "You are a helpful assistant.");
    assert_eq!(messages[1].role, Role::User);
    assert_eq!(messages[1].content, "1+1=");
}

#[test]
fn completion_request_carries_model_history_and_parameters() {
    let mut config = ModleConfig::default();
    config.engine = QwenEngine::QwenPlus;
    let qwen = Qwen::new_with_config("key".to_string(), config).unwrap();
    let history = vec![
        ChatMessage { role: Role::System, content: "be brief".to_string() },
        ChatMessage { role: Role::User, content: "hi".to_string() },
    ];
    let request = qwen.completion_request(&history, false);
    assert_eq!(request.model, "qwen-plus");
    assert_eq!(request.input.messages.len(), 2);
    assert_eq!(request.input.messages[1].content, "hi");
    assert_eq!(request.parameters.result_format.as_deref(), Some("message"));
    assert_eq!(request.parameters.incremental_output, None);
    assert_eq!(request.parameters.max_tokens, None);

    let streaming = qwen.completion_request(&history, true);
    assert_eq!(streaming.model, "qwen-plus");
    assert_eq!(streaming.parameters.result_format.as_deref(), Some("message"));
    assert_eq!(streaming.parameters.incremental_output, Some(true));
}

#[test]
fn completion_request_carries_the_token_limit() {
    let mut config = ModleConfig::default();
    config.max_tokens = Some(64);
    let qwen = Qwen::new_with_config("key".to_string(), config).unwrap();
    let history = vec![ChatMessage { role: Role::User, content: "hi".to_string() }];
    assert_eq!(qwen.completion_request(&history, false).parameters.max_tokens, Some(64));
    assert_eq!(qwen.completion_request(&history, true).parameters.max_tokens, Some(64));
}

#[test]
fn client_settings_carry_the_bearer_token_and_timeout() {
    let mut config = ModleConfig::default();
    config.timeout = std::time::Duration::from_secs(7);
    let settings = Qwen::client_settings(&"sk-1".to_string(), &config).unwrap();
    assert_eq!(settings.header_name, AUTHORIZATION_HEADER);
    assert_eq!(settings.header_name, "authorization");
    assert_eq!(settings.header_value.as_bytes(), b"Bearer sk-1");
    assert_eq!(settings.timeout, std::time::Duration::from_secs(7));
    match Qwen::client_settings(&"a\nb".to_string(), &config) {
        Err(Error::InvalidHeaderValue(text)) => assert_eq!(text, "failed to parse header value"),
        _ => panic!("a key with a line break is rejected"),
    }
}

#[test]
fn request_headers_per_mode() {
    assert_eq!(Qwen::request_headers(false), vec![("content-type", "application/json")]);
    assert_eq!(
        Qwen::request_headers(true),
        vec![("content-type", "application/json"), ("X-DashScope-SSE", "enable")]
    );
}

#[test]
fn with_client_reports_a_failed_build() {
    let failure = RequestFailure { text: "no TLS backend".to_string(), status: None, is_timeout: false };
    match Qwen::with_client(Err(failure), ModleConfig::default()) {
        Err(Error::ClientError(f)) => {
            assert_eq!(f.text, "no TLS backend");
            assert_eq!(f.status, None);
            assert!(!f.is_timeout);
        }
        _ => panic!("expected ClientError"),
    }
}
