//! The decisions of the command-line program: what a command asks for, and
//! what a line typed in the chat means.
use vstd::prelude::*;

verus! {

/// The instruction that turns a message into a request for its translation
/// into Chinese.
pub const TRANSLATE_PROMPT: &'static str = "你是一个翻译官，无论接下来输入什么，你都要翻译成中文。内容是：";

/// The system message with which the chat starts.
pub const CHAT_PROMPT: &'static str = "you are a helpful assistant.";

/// `s` begins with `prefix`.
pub open spec fn starts_with(s: Seq<char>, prefix: Seq<char>) -> bool {
    prefix.len() <= s.len() && s.subrange(0, prefix.len() as int) == prefix
}

/// The question that asks for the translation of `message`.
pub fn translate_prompt(message: String) -> (question: String)
    ensures
        question@ == TRANSLATE_PROMPT@ + message@,
{
    let mut question = String::from_str(TRANSLATE_PROMPT);
    question.append(message.as_str());
    question
}

/// A command given on the command line.
pub enum CliCommand {
    /// Translate `message` into Chinese.
    Translate { message: String, complete: bool },
    /// Ask `message`.
    Ask { message: String, complete: bool },
    /// Chat, starting with `message` if there is one.
    Chat { message: Option<String> },
}

/// What the program does for a command.
pub enum CliAction {
    /// Send `question` once, and print the answer as one completion when
    /// `complete`, or as it streams in otherwise.
    Answer { question: String, complete: bool },
    /// Start a chat (whose system message is `CHAT_PROMPT`), with `first`
    /// as its first message if there is one.
    Chat { first: Option<String> },
}

/// `action` is what the program does for `command`: a translation or a
/// question is sent once, with the flag that chooses how the answer is
/// printed; a chat starts with the message given, if any; without a command
/// the program chats.
pub open spec fn is_planned_action(command: Option<CliCommand>, action: CliAction) -> bool {
    match command {
        Some(CliCommand::Translate { message, complete }) => action matches CliAction::Answer {
            question,
            complete: answer_complete,
        } && question@ == TRANSLATE_PROMPT@ + message@ && answer_complete == complete,
        Some(CliCommand::Ask { message, complete }) => action == (CliAction::Answer {
            question: message,
            complete,
        }),
        Some(CliCommand::Chat { message }) => action == (CliAction::Chat { first: message }),
        None => action == (CliAction::Chat { first: None }),
    }
}

/// What the program does for `command`.
pub fn plan(command: Option<CliCommand>) -> (action: CliAction)
    ensures
        is_planned_action(command, action),
{
    match command {
        Some(CliCommand::Translate { message, complete }) => CliAction::Answer {
            question: translate_prompt(message),
            complete,
        },
        Some(CliCommand::Ask { message, complete }) => CliAction::Answer { question: message, complete },
        Some(CliCommand::Chat { message }) => CliAction::Chat { first: message },
        None => CliAction::Chat { first: None },
    }
}

/// What a line typed in the chat asks for.
pub enum ChatInput {
    /// Leave the chat.
    Quit,
    /// Forget the conversation but its system message.
    ClearHistory,
    /// Send the line.
    Send(String),
}

/// A line that begins with `:q` quits; one that begins with `:r` clears the
/// history; any other line is sent.
pub open spec fn is_chat_input(line: String, input: ChatInput) -> bool {
    if starts_with(line@, seq![':', 'q']) {
        input is Quit
    } else if starts_with(line@, seq![':', 'r']) {
        input is ClearHistory
    } else {
        input == ChatInput::Send(line)
    }
}

/// What `line`, typed in the chat, asks for.
pub fn read_chat_line(line: String) -> (input: ChatInput)
    ensures
        is_chat_input(line, input),
{
    let n = line.as_str().unicode_len();
    if n >= 2 && line.as_str().get_char(0) == ':' {
        let second = line.as_str().get_char(1);
        if second == 'q' {
            assert(line@.subrange(0, 2) =~= seq![':', 'q']);
            return ChatInput::Quit;
        }
        if second == 'r' {
            assert(line@.subrange(0, 2) =~= seq![':', 'r']);
            return ChatInput::ClearHistory;
        }
    }
    ChatInput::Send(line)
}

/// What came of trying to read a line of the chat.
pub enum ReadOutcome {
    /// A line was read.
    Line(String),
    /// The user pressed Ctrl-C.
    Interrupted,
    /// The input ended (Ctrl-D).
    Eof,
    /// Reading failed; the reader's description of the failure.
    Failed(String),
}

/// What the chat does next.
pub enum ChatStep {
    /// Leave the chat.
    Leave,
    /// Print the text on standard output, then leave the chat.
    LeaveWithNotice(String),
    /// Print the text on standard error, then leave the chat.
    LeaveWithError(String),
    /// Forget the conversation but its system message, and read on.
    ClearHistory,
    /// Send the line, print the answer, and read on.
    Send(String),
}

/// A line that was read is handled as `read_chat_line` says; Ctrl-C and
/// Ctrl-D leave the chat with a notice of which was pressed; a failure to
/// read leaves it with `Error: ` and the failure on standard error.
pub open spec fn is_chat_step(outcome: ReadOutcome, step: ChatStep) -> bool {
    match outcome {
        ReadOutcome::Line(line) => {
            &&& starts_with(line@, seq![':', 'q']) ==> step is Leave
            &&& !starts_with(line@, seq![':', 'q']) && starts_with(line@, seq![':', 'r']) ==> step is ClearHistory
            &&& !starts_with(line@, seq![':', 'q']) && !starts_with(line@, seq![':', 'r']) ==> step == ChatStep::Send(line)
        },
        ReadOutcome::Interrupted => step matches ChatStep::LeaveWithNotice(text) && text@ == "CTRL-C"@,
        ReadOutcome::Eof => step matches ChatStep::LeaveWithNotice(text) && text@ == "CTRL-D"@,
        ReadOutcome::Failed(failure) => step matches ChatStep::LeaveWithError(text) && text@ == "Error: "@ + failure@,
    }
}

/// What the chat does after `outcome`.
pub fn chat_step(outcome: ReadOutcome) -> (step: ChatStep)
    ensures
        is_chat_step(outcome, step),
{
    match outcome {
        ReadOutcome::Line(line) => match read_chat_line(line) {
            ChatInput::Quit => ChatStep::Leave,
            ChatInput::ClearHistory => ChatStep::ClearHistory,
            ChatInput::Send(line) => ChatStep::Send(line),
        },
        ReadOutcome::Interrupted => ChatStep::LeaveWithNotice(String::from_str("CTRL-C")),
        ReadOutcome::Eof => ChatStep::LeaveWithNotice(String::from_str("CTRL-D")),
        ReadOutcome::Failed(failure) => {
            let mut text = String::from_str("Error: ");
            text.append(failure.as_str());
            ChatStep::LeaveWithError(text)
        },
    }
}

/// The state of the chat loop: the message given on the command line, until
/// it is used in place of the first line read.
pub struct ChatSession {
    first: Option<String>,
}

impl ChatSession {
    /// The message still to be used in place of a line read.
    pub closed spec fn spec_first(&self) -> Option<String> {
        self.first
    }

    /// A chat that starts with `first`, if given, instead of reading a line.
    pub fn new(first: Option<String>) -> (session: Self)
        ensures
            session.spec_first() == first,
    {
        ChatSession { first }
    }

    /// The line to use instead of reading one: the message given on the
    /// command line, the first time; after that, none, and a line is read.
    pub fn take_first(&mut self) -> (given: Option<String>)
        ensures
            given == old(self).spec_first(),
            final(self).spec_first() is None,
    {
        self.first.take()
    }
}

} // verus!
