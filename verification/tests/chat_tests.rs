use qwen::chat::{
    chat_step, plan, read_chat_line, translate_prompt, ChatInput, ChatSession, ChatStep, CliAction, CliCommand,
    ReadOutcome, TRANSLATE_PROMPT,
};

#[test]
fn chat_lines() {
    assert!(matches!(read_chat_line(":q".to_string()), ChatInput::Quit));
    assert!(matches!(read_chat_line(":quit now".to_string()), ChatInput::Quit));
    assert!(matches!(read_chat_line(":r".to_string()), ChatInput::ClearHistory));
    assert!(matches!(read_chat_line(":reset".to_string()), ChatInput::ClearHistory));
    for line in ["hello", "", ":", "q:", " :q", ":x", "你好"] {
        match read_chat_line(line.to_string()) {
            ChatInput::Send(text) => assert_eq!(text, line),
            _ => panic!("{:?} should be sent", line),
        }
    }
}

#[test]
fn translation_prompt() {
    let question = translate_prompt("hello".to_string());
    assert_eq!(question, format!("{}hello", TRANSLATE_PROMPT));
    assert_eq!(question, "你是一个翻译官，无论接下来输入什么，你都要翻译成中文。内容是：hello");
}

#[test]
fn plans() {
    match plan(Some(CliCommand::Translate { message: "hi".to_string(), complete: true })) {
        CliAction::Answer { question, complete } => {
            assert_eq!(question, format!("{}hi", TRANSLATE_PROMPT));
            assert!(complete);
        }
        _ => panic!("translation answers once"),
    }
    match plan(Some(CliCommand::Ask { message: "1+1=".to_string(), complete: false })) {
        CliAction::Answer { question, complete } => {
            assert_eq!(question, "1+1=");
            assert!(!complete);
        }
        _ => panic!("a question answers once"),
    }
    match plan(Some(CliCommand::Chat { message: Some("start".to_string()) })) {
        CliAction::Chat { first } => assert_eq!(first.as_deref(), Some("start")),
        _ => panic!("chat"),
    }
    match plan(None) {
        CliAction::Chat { first } => assert!(first.is_none()),
        _ => panic!("no command chats"),
    }
}

#[test]
fn chat_steps() {
    assert!(matches!(chat_step(ReadOutcome::Line(":q".to_string())), ChatStep::Leave));
    assert!(matches!(chat_step(ReadOutcome::Line(":r".to_string())), ChatStep::ClearHistory));
    match chat_step(ReadOutcome::Line("hi".to_string())) {
        ChatStep::Send(text) => assert_eq!(text, "hi"),
        _ => panic!("a plain line is sent"),
    }
    match chat_step(ReadOutcome::Interrupted) {
        ChatStep::LeaveWithNotice(text) => assert_eq!(text, "CTRL-C"),
        _ => panic!("Ctrl-C leaves"),
    }
    match chat_step(ReadOutcome::Eof) {
        ChatStep::LeaveWithNotice(text) => assert_eq!(text, "CTRL-D"),
        _ => panic!("Ctrl-D leaves"),
    }
    match chat_step(ReadOutcome::Failed("Io(broken pipe)".to_string())) {
        ChatStep::LeaveWithError(text) => assert_eq!(text, "Error: Io(broken pipe)"),
        _ => panic!("a failed read leaves"),
    }
}

#[test]
fn first_message_is_used_once() {
    let mut session = ChatSession::new(Some("start".to_string()));
    assert_eq!(session.take_first().as_deref(), Some("start"));
    assert_eq!(session.take_first(), None);
    let mut empty = ChatSession::new(None);
    assert_eq!(empty.take_first(), None);
}
