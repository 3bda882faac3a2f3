use qwen::err::Error;
use qwen::types::{
    ChatMessage, CompletionError, CompletionResponse, FininshReson, RespnseOutput, ResponseChoices, Role,
    ServerResponse, TokenUsage,
};

fn completion(answers: &[&str]) -> CompletionResponse {
    let choices = answers
        .iter()
        .map(|a| ResponseChoices {
            finish_reason: FininshReson::Stop,
            message: ChatMessage { role: Role::Assistant, content: a.to_string() },
        })
        .collect();
    CompletionResponse::new(RespnseOutput { choices }, TokenUsage::new(30, 10, 20), "req-1".to_string())
}

#[test]
fn content_is_the_first_answer() {
    assert_eq!(completion(&["2"]).content(), "2");
    assert_eq!(completion(&["first", "second"]).content(), "first");
}

#[test]
fn has_content_tells_whether_there_is_an_answer() {
    assert!(completion(&["2"]).has_content());
    assert!(!completion(&[]).has_content());
}

#[test]
fn completion_parts() {
    let c = completion(&["x"]);
    assert_eq!(c.usage().total_tokens(), 30);
    assert_eq!(c.usage().output_tokens(), 10);
    assert_eq!(c.usage().input_tokens(), 20);
    assert_eq!(c.request_id(), "req-1");
    let (output, usage, id) = c.into_parts();
    assert_eq!(output.choices.len(), 1);
    assert_eq!(usage.total_tokens(), 30);
    assert_eq!(id, "req-1");
}

#[test]
fn server_error_becomes_backend_error() {
    let response = ServerResponse::Error(CompletionError {
        code: "InvalidApiKey".to_string(),
        message: "Invalid API-key provided.".to_string(),
        request_id: "req-2".to_string(),
    });
    match response.into_result() {
        Err(Error::BackendError { message, code }) => {
            assert_eq!(message, "Invalid API-key provided.");
            assert_eq!(code, "InvalidApiKey");
        }
        _ => panic!("expected a backend error"),
    }
}

#[test]
fn server_completion_is_handed_back() {
    match ServerResponse::Completion(completion(&["hello"])).into_result() {
        Ok(c) => {
            assert_eq!(c.content(), "hello");
            assert_eq!(c.request_id(), "req-1");
        }
        Err(e) => panic!("unexpected error {:?}", e),
    }
}
