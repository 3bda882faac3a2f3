//! The data of requests to the service and of its answers.
use vstd::prelude::*;

use crate::err::Error;

verus! {

/// The messages that a request sends.
pub struct Input<'a> {
    pub messages: &'a Vec<ChatMessage>,
}

/// One message of a conversation.
pub struct ChatMessage {
    pub role: Role,
    pub content: String,
}

/// Who speaks a message.
#[derive(Debug, Clone, Copy, PartialEq, Eq, Structural)]
pub enum Role {
    System,
    Assistant,
    User,
    Tool,
}

/// Parameters that control how the model generates its answer.
#[derive(Debug, Clone, PartialEq)]
pub struct Parameter {
    pub result_format: Option<String>,
    pub incremental_output: Option<bool>,
    /// The most tokens the model may generate.
    pub max_tokens: Option<u32>,
}

/// A request struct sent to the API to request a message completion
pub struct CompletionRequest<'a> {
    pub model: &'a str,
    pub input: Input<'a>,
    pub parameters: Parameter,
}

/// What the service answers: an error or a completion.
pub enum ServerResponse {
    Error(CompletionError),
    Completion(CompletionResponse),
}

/// A completion: the choices the model generated, with bookkeeping.
pub struct CompletionResponse {
    pub output: RespnseOutput,
    usage: TokenUsage,
    request_id: String,
}

/// The generated choices.
pub struct RespnseOutput {
    pub choices: Vec<ResponseChoices>,
}

/// One generated answer and why generation stopped.
pub struct ResponseChoices {
    pub finish_reason: FininshReson,
    pub message: ChatMessage,
}

/// Why the model stopped generating.
#[derive(Debug, Clone, Copy, PartialEq, Eq, Structural)]
pub enum FininshReson {
    Null,
    Stop,
    Lenght,
}

/// How many tokens a request used.
pub struct TokenUsage {
    total_tokens: u32,
    output_tokens: u32,
    input_tokens: u32,
}

/// An error that the service reports instead of a completion.
pub struct CompletionError {
    pub code: String,
    pub message: String,
    pub request_id: String,
}

impl TokenUsage {
    pub fn new(total_tokens: u32, output_tokens: u32, input_tokens: u32) -> (usage: Self)
        ensures
            usage.spec_total_tokens() == total_tokens,
            usage.spec_output_tokens() == output_tokens,
            usage.spec_input_tokens() == input_tokens,
    {
        TokenUsage { total_tokens, output_tokens, input_tokens }
    }

    pub fn total_tokens(&self) -> (n: u32)
        ensures
            n == self.spec_total_tokens(),
    {
        self.total_tokens
    }

    pub fn output_tokens(&self) -> (n: u32)
        ensures
            n == self.spec_output_tokens(),
    {
        self.output_tokens
    }

    pub fn input_tokens(&self) -> (n: u32)
        ensures
            n == self.spec_input_tokens(),
    {
        self.input_tokens
    }

    pub closed spec fn spec_total_tokens(&self) -> u32 {
        self.total_tokens
    }

    pub closed spec fn spec_output_tokens(&self) -> u32 {
        self.output_tokens
    }

    pub closed spec fn spec_input_tokens(&self) -> u32 {
        self.input_tokens
    }
}

/// The text of the first generated answer, where there is one.
pub open spec fn first_answer(response: CompletionResponse) -> String
    recommends
        response.spec_output().choices.len() > 0,
{
    response.spec_output().choices@[0].message.content
}

impl CompletionResponse {
    pub fn new(output: RespnseOutput, usage: TokenUsage, request_id: String) -> (response: Self)
        ensures
            response.spec_output() == output,
            response.spec_usage() == usage,
            response.spec_request_id() == request_id,
    {
        CompletionResponse { output, usage, request_id }
    }

    /// The generated choices (the public field `output`).
    pub closed spec fn spec_output(&self) -> RespnseOutput {
        self.output
    }

    pub closed spec fn spec_usage(&self) -> TokenUsage {
        self.usage
    }

    pub closed spec fn spec_request_id(&self) -> String {
        self.request_id
    }

    /// The tokens that the request used.
    pub fn usage(&self) -> (usage: &TokenUsage)
        ensures
            *usage == self.spec_usage(),
    {
        &self.usage
    }

    /// The identifier of the request that the service gave it.
    pub fn request_id(&self) -> (id: &String)
        ensures
            *id == self.spec_request_id(),
    {
        &self.request_id
    }

    /// Takes the completion apart into its output, usage and request identifier.
    pub fn into_parts(self) -> (parts: (RespnseOutput, TokenUsage, String))
        ensures
            parts == (self.spec_output(), self.spec_usage(), self.spec_request_id()),
    {
        (self.output, self.usage, self.request_id)
    }

    /// The generated choices.
    pub fn output(&self) -> (output: &RespnseOutput)
        ensures
            *output == self.spec_output(),
    {
        &self.output
    }

    /// Whether the completion holds an answer, that is, whether `content` may
    /// be called.
    pub fn has_content(&self) -> (has: bool)
        ensures
            has == (self.spec_output().choices.len() > 0),
    {
        self.output.choices.len() > 0
    }

    /// The text of the first generated answer. The service answers with at
    /// least one choice; on a completion without any there is no text.
    pub fn content(&self) -> (text: String)
        requires
            self.spec_output().choices.len() > 0,
        ensures
            text == first_answer(*self),
            text == self.spec_output().choices@[0].message.content,
    {
        self.output.choices[0].message.content.clone()
    }
}

/// What an answer of the service means for the caller: an error that the
/// backend reported, or the completion.
pub open spec fn response_outcome(response: ServerResponse) -> Result<CompletionResponse, Error> {
    match response {
        ServerResponse::Error(error) => Err(Error::BackendError { message: error.message, code: error.code }),
        ServerResponse::Completion(completion) => Ok(completion),
    }
}

impl ServerResponse {
    /// A reported error becomes `Error::BackendError` with its message and code;
    /// a completion is handed back as it is.
    pub fn into_result(self) -> (outcome: Result<CompletionResponse, Error>)
        ensures
            outcome == response_outcome(self),
            self matches ServerResponse::Completion(completion) ==> outcome == Ok::<CompletionResponse, Error>(completion),
            self matches ServerResponse::Error(error) ==> outcome == Err::<CompletionResponse, Error>(
                Error::BackendError { message: error.message, code: error.code },
            ),
    {
        match self {
            ServerResponse::Error(error) => Err(Error::BackendError { message: error.message, code: error.code }),
            ServerResponse::Completion(completion) => Ok(completion),
        }
    }
}

/// The answer of a completion is the text of its first choice's message,
/// whatever the choice's finish reason, the other choices, the usage or the
/// request identifier.
pub proof fn lemma_first_answer_is_first_message(response: CompletionResponse)
    requires
        response.spec_output().choices.len() > 0,
    ensures
        first_answer(response) == response.spec_output().choices@[0].message.content,
        forall|other: CompletionResponse|
            other.spec_output().choices.len() > 0 && #[trigger] other.spec_output().choices@[0].message.content
                == response.spec_output().choices@[0].message.content ==> first_answer(other)
                == first_answer(response),
{
}

/// Every completion that the service sends is handed back as it is, whatever
/// its choices and their finish reasons; a backend error arises only from an
/// error the service reported, and carries that error's message and code.
pub proof fn lemma_outcome_of_response(response: ServerResponse)
    ensures
        response matches ServerResponse::Completion(completion) ==> response_outcome(response)
            == Ok::<CompletionResponse, Error>(completion),
        response matches ServerResponse::Error(error) ==> response_outcome(response)
            == Err::<CompletionResponse, Error>(Error::BackendError { message: error.message, code: error.code }),
        response_outcome(response) is Ok <==> response is Completion,
{
}

} // verus!
