//! Conversations: a client with the history of the messages exchanged.
use vstd::prelude::*;

use crate::client::Qwen;
use crate::err::Error;
use crate::types::{first_answer, ChatMessage, CompletionResponse, Role};

verus! {

/// The message `content` spoken by `role`.
pub open spec fn message(role: Role, content: String) -> ChatMessage {
    ChatMessage { role, content }
}

/// The history after the user says `content`.
pub open spec fn with_user_message(history: Seq<ChatMessage>, content: String) -> Seq<ChatMessage> {
    history.push(message(Role::User, content))
}

/// The history after the assistant's answer `content` is added.
pub open spec fn with_assistant_message(history: Seq<ChatMessage>, content: String) -> Seq<ChatMessage> {
    history.push(message(Role::Assistant, content))
}

/// The history after the outcome of a request: a completion adds its first
/// answer as the assistant's message; an error leaves the history as it was.
pub open spec fn with_reply(history: Seq<ChatMessage>, outcome: Result<CompletionResponse, Error>) -> Seq<ChatMessage> {
    match outcome {
        Ok(completion) => with_assistant_message(history, first_answer(completion)),
        Err(_) => history,
    }
}

/// A request's outcome whose completion, if any, has an answer to take.
pub open spec fn has_answer(outcome: Result<CompletionResponse, Error>) -> bool {
    outcome matches Ok(completion) ==> completion.spec_output().choices.len() > 0
}

/// The history after a rollback: the last two messages (the last sent and the
/// last received) are gone; a history of fewer than two becomes empty.
pub open spec fn rolled_back(history: Seq<ChatMessage>) -> Seq<ChatMessage> {
    if history.len() >= 2 {
        history.subrange(0, history.len() - 2)
    } else {
        Seq::empty()
    }
}

/// What a rollback hands back: the last message, if there is one.
pub open spec fn rollback_result(history: Seq<ChatMessage>) -> Option<ChatMessage> {
    if history.len() > 0 {
        Some(history.last())
    } else {
        None
    }
}

/// The history after it is cleared: only its first message, if any, stays.
pub open spec fn cleared(history: Seq<ChatMessage>) -> Seq<ChatMessage> {
    if history.len() >= 1 {
        history.subrange(0, 1)
    } else {
        history
    }
}

/// A conversation: the client that sends it and the messages exchanged so far.
pub struct Conversation {
    pub(crate) client: Qwen,
    history: Vec<ChatMessage>,
}

impl Conversation {
    /// The messages exchanged so far, oldest first.
    pub closed spec fn spec_history(&self) -> Seq<ChatMessage> {
        self.history@
    }

    /// The client that sends the conversation.
    pub closed spec fn spec_client(&self) -> Qwen {
        self.client
    }

    /// A conversation that starts with `first_message` as the system message.
    pub fn new(client: Qwen, first_message: String) -> (conversation: Self)
        ensures
            conversation.spec_history() == seq![message(Role::System, first_message)],
            conversation.spec_client() == client,
    {
        let mut history = Vec::new();
        history.push(ChatMessage { role: Role::System, content: first_message });
        Conversation { client, history }
    }

    /// A conversation that goes on from `history`.
    pub fn new_with_history(client: Qwen, history: Vec<ChatMessage>) -> (conversation: Self)
        ensures
            conversation.spec_history() == history@,
            conversation.spec_client() == client,
    {
        Conversation { client, history }
    }

    /// The client that sends the conversation.
    pub fn client(&self) -> (client: &Qwen)
        ensures
            *client == self.spec_client(),
    {
        &self.client
    }

    /// The messages exchanged so far, oldest first.
    pub fn history(&self) -> (history: &Vec<ChatMessage>)
        ensures
            history@ == self.spec_history(),
    {
        &self.history
    }

    /// Rollbacks the history by 1 message, removing the last sent and received message.
    /// Hands back the last message, if there was one.
    pub fn rollback(&mut self) -> (last: Option<ChatMessage>)
        ensures
            last == rollback_result(old(self).spec_history()),
            final(self).spec_history() == rolled_back(old(self).spec_history()),
            old(self).spec_history().len() >= 2 ==> final(self).spec_history() == old(self).spec_history().subrange(
                0,
                old(self).spec_history().len() - 2,
            ),
            old(self).spec_history().len() < 2 ==> final(self).spec_history().len() == 0,
            old(self).spec_history().len() > 0 ==> last == Some(old(self).spec_history().last()),
            old(self).spec_history().len() == 0 ==> last is None,
            final(self).spec_client() == old(self).spec_client(),
    {
        let last = self.history.pop();
        self.history.pop();
        proof {
            let h = old(self).spec_history();
            if h.len() >= 2 {
                assert(h.drop_last().drop_last() =~= h.subrange(0, h.len() - 2));
            }
        }
        last
    }

    /// Adds what the user says to the history: the first step of sending it.
    pub fn push_user_message(&mut self, content: String)
        ensures
            final(self).spec_history() == with_user_message(old(self).spec_history(), content),
            final(self).spec_history() == old(self).spec_history().push(ChatMessage { role: Role::User, content }),
            final(self).spec_client() == old(self).spec_client(),
    {
        self.history.push(ChatMessage { role: Role::User, content });
    }

    /// Records the outcome of sending the history: a completion's first answer
    /// becomes the assistant's message; after an error the history stays.
    pub fn record_reply(&mut self, outcome: &Result<CompletionResponse, Error>)
        requires
            has_answer(*outcome),
        ensures
            final(self).spec_history() == with_reply(old(self).spec_history(), *outcome),
            outcome matches Ok(completion) ==> final(self).spec_history() == old(self).spec_history().push(
                ChatMessage {
                    role: Role::Assistant,
                    content: completion.spec_output().choices@[0].message.content,
                },
            ),
            outcome is Err ==> final(self).spec_history() == old(self).spec_history(),
            final(self).spec_client() == old(self).spec_client(),
    {
        if let Ok(completion) = outcome {
            self.history.push(ChatMessage { role: Role::Assistant, content: completion.content() });
        }
    }

    /// Adds `content` to the history as the assistant's message.
    pub fn add_history(&mut self, content: String)
        ensures
            final(self).spec_history() == with_assistant_message(old(self).spec_history(), content),
            final(self).spec_history() == old(self).spec_history().push(ChatMessage { role: Role::Assistant, content }),
            final(self).spec_client() == old(self).spec_client(),
    {
        self.history.push(ChatMessage { role: Role::Assistant, content });
    }

    /// Keeps only the first message of the history.
    pub fn clear_history(&mut self)
        ensures
            final(self).spec_history() == cleared(old(self).spec_history()),
            old(self).spec_history().len() >= 1 ==> final(self).spec_history() == seq![old(self).spec_history()[0]],
            old(self).spec_history().len() == 0 ==> final(self).spec_history().len() == 0,
            final(self).spec_client() == old(self).spec_client(),
    {
        self.history.truncate(1);
    }
}

/// Sending a message and receiving the answer, then rolling back, gives back
/// the history from before the message and hands back the answer: a rollback
/// removes the last message sent and the last received. This holds whether the
/// answer came as one completion (`record_reply`) or was added afterwards
/// (`add_history`).
pub proof fn lemma_rollback_undoes_exchange(history: Seq<ChatMessage>, question: String, answer: String)
    ensures
        rolled_back(with_assistant_message(with_user_message(history, question), answer)) == history,
        rollback_result(with_assistant_message(with_user_message(history, question), answer))
            == Some(message(Role::Assistant, answer)),
{
    let h = with_assistant_message(with_user_message(history, question), answer);
    assert(h.subrange(0, h.len() - 2) =~= history);
}

/// Sending a message adds it to the history as the user's; when the service
/// answers with a completion its first answer follows as the assistant's, and
/// when it fails the history ends with the message sent.
pub proof fn lemma_send_message_history(
    history: Seq<ChatMessage>,
    question: String,
    outcome: Result<CompletionResponse, Error>,
)
    ensures
        with_reply(with_user_message(history, question), outcome) == match outcome {
            Ok(completion) => history + seq![
                message(Role::User, question),
                message(Role::Assistant, first_answer(completion)),
            ],
            Err(_) => history + seq![message(Role::User, question)],
        },
{
    match outcome {
        Ok(completion) => {
            assert(with_reply(with_user_message(history, question), outcome) =~= history + seq![
                message(Role::User, question),
                message(Role::Assistant, first_answer(completion)),
            ]);
        },
        Err(_) => {
            assert(with_user_message(history, question) =~= history + seq![message(Role::User, question)]);
        },
    }
}

/// Messages are only ever appended by sending and answering: the messages
/// before stay as they were, the first (system) message among them.
pub proof fn lemma_exchange_keeps_history(
    history: Seq<ChatMessage>,
    question: String,
    outcome: Result<CompletionResponse, Error>,
)
    ensures
        history.is_prefix_of(with_user_message(history, question)),
        history.is_prefix_of(with_reply(with_user_message(history, question), outcome)),
{
    let sent = with_user_message(history, question);
    assert(history =~= sent.subrange(0, history.len() as int));
    let answered = with_reply(sent, outcome);
    assert(history =~= answered.subrange(0, history.len() as int));
}

/// Clearing the history of a conversation brings it back to its first
/// message, whatever was added after it, and clearing twice is clearing once.
pub proof fn lemma_clear_keeps_first(history: Seq<ChatMessage>, added: Seq<ChatMessage>)
    requires
        history.len() >= 1,
    ensures
        cleared(history) == seq![history[0]],
        cleared(history + added) == cleared(history),
        cleared(cleared(history)) == cleared(history),
{
    assert(cleared(history) =~= seq![history[0]]);
    assert(cleared(history + added) =~= seq![history[0]]);
    assert(cleared(cleared(history)) =~= cleared(history));
}

/// A rollback of a history of at least two messages removes exactly the last
/// two, whoever spoke them, and hands back the last; of a shorter history it
/// leaves nothing and hands back its only message, if any.
pub proof fn lemma_rollback_removes_last_two(history: Seq<ChatMessage>)
    ensures
        history.len() >= 2 ==> rolled_back(history) == history.subrange(0, history.len() - 2),
        history.len() >= 2 ==> rolled_back(history).len() + 2 == history.len(),
        history.len() < 2 ==> rolled_back(history).len() == 0,
        history.len() > 0 ==> rollback_result(history) == Some(history[history.len() - 1]),
        history.len() == 0 ==> rollback_result(history) is None,
{
}

/// Adding a message appends exactly that message, spoken by the given role,
/// to any history, whatever its last message: the history grows by one and
/// the earlier messages stay.
pub proof fn lemma_adding_appends_one(history: Seq<ChatMessage>, content: String)
    ensures
        with_assistant_message(history, content) == history + seq![
            ChatMessage { role: Role::Assistant, content },
        ],
        with_user_message(history, content) == history + seq![ChatMessage { role: Role::User, content }],
        with_assistant_message(history, content).len() == history.len() + 1,
        with_assistant_message(history, content).last() == (ChatMessage { role: Role::Assistant, content }),
        with_assistant_message(history, content).subrange(0, history.len() as int) == history,
{
    assert(with_assistant_message(history, content) =~= history + seq![
        ChatMessage { role: Role::Assistant, content },
    ]);
    assert(with_user_message(history, content) =~= history + seq![ChatMessage { role: Role::User, content }]);
    assert(with_assistant_message(history, content).subrange(0, history.len() as int) =~= history);
}

/// A completion adds its first choice's text as the assistant's message, to
/// any history and whatever the choice's finish reason; an error adds nothing.
pub proof fn lemma_reply_appends_answer(history: Seq<ChatMessage>, outcome: Result<CompletionResponse, Error>)
    requires
        has_answer(outcome),
    ensures
        outcome matches Ok(completion) ==> with_reply(history, outcome) == history + seq![
            ChatMessage { role: Role::Assistant, content: completion.spec_output().choices@[0].message.content },
        ],
        outcome is Err ==> with_reply(history, outcome) == history,
{
    if let Ok(completion) = outcome {
        assert(with_reply(history, outcome) =~= history + seq![
            ChatMessage { role: Role::Assistant, content: completion.spec_output().choices@[0].message.content },
        ]);
    }
}

} // verus!
