use qwen::client::Qwen;
use qwen::converse::Conversation;
use qwen::err::{Error, RequestFailure};
use qwen::types::{ChatMessage, CompletionResponse, FininshReson, RespnseOutput, ResponseChoices, Role, TokenUsage};

fn client() -> Qwen {
    Qwen::new("key".to_string()).unwrap()
}

fn completion(answer: &str) -> CompletionResponse {
    CompletionResponse::new(
        RespnseOutput {
            choices: vec![ResponseChoices {
                finish_reason: FininshReson::Stop,
                message: ChatMessage { role: Role::Assistant, content: answer.to_string() },
            }],
        },
        TokenUsage::new(3, 1, 2),
        "req".to_string(),
    )
}

fn roles_and_texts(conversation: &Conversation) -> Vec<(Role, String)> {
    conversation.history().iter().map(|m| (m.role, m.content.clone())).collect()
}

#[test]
fn new_starts_with_the_system_message() {
    let conversation = Conversation::new(client(), "you are a helpful assistant.".to_string());
    assert_eq!(roles_and_texts(&conversation), vec![(Role::System, "you are a helpful assistant.".to_string())]);
}

#[test]
fn a_completed_exchange_adds_question_and_answer() {
    let mut conversation = Conversation::new(client(), "sys".to_string());
    conversation.push_user_message("1+1=".to_string());
    conversation.record_reply(&Ok(completion("2")));
    assert_eq!(
        roles_and_texts(&conversation),
        vec![
            (Role::System, "sys".to_string()),
            (Role::User, "1+1=".to_string()),
            (Role::Assistant, "2".to_string()),
        ]
    );
}

#[test]
fn a_failed_exchange_keeps_the_question_only() {
    let mut conversation = Conversation::new(client(), "sys".to_string());
    conversation.push_user_message("1+1=".to_string());
    conversation.record_reply(&Err(Error::ClientError(RequestFailure { text: "timed out".to_string(), status: None, is_timeout: true })));
    assert_eq!(
        roles_and_texts(&conversation),
        vec![(Role::System, "sys".to_string()), (Role::User, "1+1=".to_string())]
    );
}

#[test]
fn rollback_undoes_the_last_exchange() {
    let mut conversation = Conversation::new(client(), "sys".to_string());
    conversation.push_user_message("1+1=".to_string());
    conversation.add_history("2".to_string());
    let last = conversation.rollback().expect("a message");
    assert_eq!(last.role, Role::Assistant);
    assert_eq!(last.content, "2");
    assert_eq!(roles_and_texts(&conversation), vec![(Role::System, "sys".to_string())]);
}

#[test]
fn rollback_of_short_histories() {
    let mut conversation = Conversation::new(client(), "sys".to_string());
    let last = conversation.rollback().expect("the system message");
    assert_eq!(last.role, Role::System);
    assert!(conversation.history().is_empty());
    assert!(conversation.rollback().is_none());
    assert!(conversation.history().is_empty());
}

#[test]
fn clear_history_keeps_the_first_message() {
    let mut conversation = Conversation::new(client(), "sys".to_string());
    conversation.push_user_message("a".to_string());
    conversation.add_history("b".to_string());
    conversation.push_user_message("c".to_string());
    conversation.clear_history();
    assert_eq!(roles_and_texts(&conversation), vec![(Role::System, "sys".to_string())]);
    conversation.clear_history();
    assert_eq!(roles_and_texts(&conversation), vec![(Role::System, "sys".to_string())]);
}

#[test]
fn new_with_history_goes_on_from_it() {
    let history = vec![
        ChatMessage { role: Role::System, content: "s".to_string() },
        ChatMessage { role: Role::User, content: "u".to_string() },
    ];
    let mut conversation = Conversation::new_with_history(client(), history);
    conversation.add_history("a".to_string());
    assert_eq!(
        roles_and_texts(&conversation),
        vec![
            (Role::System, "s".to_string()),
            (Role::User, "u".to_string()),
            (Role::Assistant, "a".to_string()),
        ]
    );
}
