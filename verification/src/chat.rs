//! The exchange with the local chat service: whether it listens, what is
//! sent to it, and what is made of its answer.
//!
//! An exchange goes through two states, and the caller moves it on by
//! handing in what happened. `send_message_to_llm` makes the request and
//! leaves the exchange `AwaitingResponse`. The outcome of the post either
//! ends it with a failure or leaves it `AwaitingBody`, and only then is the
//! body to be read. What was read ends the exchange with the answer or with
//! a failure.

use crate::error::{result_view, GatewayError, GatewayErrorView};
use crate::status::HttpStatus;
use vstd::prelude::*;

verus! {

/// Who speaks in a message.
#[derive(Clone, Copy, Debug, PartialEq, Eq, Structural)]
pub enum Role {
    System,
    User,
    Assistant,
}

/// One message of a conversation.
#[derive(Clone, Debug, PartialEq, Eq)]
pub struct ChatMessage {
    pub role: Role,
    pub content: String,
}

/// A `ChatMessage` with its content as a character sequence.
pub struct ChatMessageView {
    pub role: Role,
    pub content: Seq<char>,
}

impl View for ChatMessage {
    type V = ChatMessageView;

    open spec fn view(&self) -> ChatMessageView {
        ChatMessageView { role: self.role, content: self.content@ }
    }
}

impl DeepView for ChatMessage {
    type V = ChatMessageView;

    open spec fn deep_view(&self) -> ChatMessageView {
        self@
    }
}

/// What is sent to the chat service.
#[derive(Clone, Debug, PartialEq, Eq)]
pub struct ChatRequest {
    pub model: String,
    pub messages: Vec<ChatMessage>,
    pub stream: bool,
}

/// A `ChatRequest` with its texts as character sequences.
pub struct ChatRequestView {
    pub model: Seq<char>,
    pub messages: Seq<ChatMessageView>,
    pub stream: bool,
}

impl View for ChatRequest {
    type V = ChatRequestView;

    open spec fn view(&self) -> ChatRequestView {
        ChatRequestView {
            model: self.model@,
            messages: self.messages.deep_view(),
            stream: self.stream,
        }
    }
}

/// What the chat service answers.
#[derive(Clone, Debug, PartialEq, Eq)]
pub struct ChatResponse {
    pub message: ChatMessage,
}

/// A `ChatResponse` with its content as a character sequence.
pub struct ChatResponseView {
    pub message: ChatMessageView,
}

impl View for ChatResponse {
    type V = ChatResponseView;

    open spec fn view(&self) -> ChatResponseView {
        ChatResponseView { message: self.message@ }
    }
}

/// The address at which the chat service is looked for.
pub const SERVICE_ADDRESS: &'static str = "127.0.0.1:11434";

/// The address to which chat requests are posted.
pub const CHAT_ENDPOINT: &'static str = "http://localhost:11434/api/chat";

/// The model that answers.
pub const CHAT_MODEL: &'static str = "llama3:8b";

/// What the assistant is told about itself.
pub const PERSONA: &'static str =
    "You are Personaliz Desktop Assistant. You help users set up OpenClaw automation without touching command line. Be concise and helpful.";

/// The message that opens every conversation.
pub open spec fn persona() -> ChatMessageView {
    ChatMessageView { role: Role::System, content: PERSONA@ }
}

/// The request for a new message: the persona, then the history in its
/// order, then the new message as the user's; answered at once, not streamed.
pub open spec fn chat_request_of(message: Seq<char>, history: Seq<ChatMessageView>) -> ChatRequestView {
    ChatRequestView {
        model: CHAT_MODEL@,
        messages: seq![persona()] + history + seq![
            ChatMessageView { role: Role::User, content: message },
        ],
        stream: false,
    }
}

/// How the attempt to connect to the chat service ended.
#[derive(Clone, Copy, Debug, PartialEq, Eq, Structural)]
pub enum ProbeOutcome {
    Connected,
    Failed,
}

/// The address that `check_ollama_status` connects to.
pub fn probe_address() -> (address: String)
    ensures
        address@ == SERVICE_ADDRESS@,
{
    SERVICE_ADDRESS.to_owned()
}

/// What `check_ollama_status` answers once the connection has been tried:
/// the service is there if and only if the connection was made.
pub fn check_ollama_status(outcome: ProbeOutcome) -> (running: bool)
    ensures
        running == (outcome == ProbeOutcome::Connected),
{
    match outcome {
        ProbeOutcome::Connected => true,
        ProbeOutcome::Failed => false,
    }
}

/// How the attempt to post a request ended.
#[derive(Clone, Debug, PartialEq, Eq)]
pub enum SendOutcome {
    /// No answer came.
    Unreachable { reason: String },
    /// An answer came, with this status.
    Responded { status: HttpStatus },
}

/// A `SendOutcome` with its reason as a character sequence and its status
/// as a number.
pub enum SendOutcomeView {
    Unreachable { reason: Seq<char> },
    Responded { status: u16 },
}

impl View for SendOutcome {
    type V = SendOutcomeView;

    open spec fn view(&self) -> SendOutcomeView {
        match self {
            SendOutcome::Unreachable { reason } => SendOutcomeView::Unreachable {
                reason: reason@,
            },
            SendOutcome::Responded { status } => SendOutcomeView::Responded { status: status@ },
        }
    }
}

/// How the attempt to read the body of an answer ended.
#[derive(Clone, Debug, PartialEq, Eq)]
pub enum BodyOutcome {
    /// The body held an answer of the expected shape.
    Decoded { response: ChatResponse },
    /// It did not.
    Malformed { reason: String },
}

/// A `BodyOutcome` with its texts as character sequences.
pub enum BodyOutcomeView {
    Decoded { response: ChatResponseView },
    Malformed { reason: Seq<char> },
}

impl View for BodyOutcome {
    type V = BodyOutcomeView;

    open spec fn view(&self) -> BodyOutcomeView {
        match self {
            BodyOutcome::Decoded { response } => BodyOutcomeView::Decoded { response: response@ },
            BodyOutcome::Malformed { reason } => BodyOutcomeView::Malformed { reason: reason@ },
        }
    }
}

/// A request has been posted, and its outcome is awaited.
#[derive(Debug)]
pub struct AwaitingResponse {
    posted: (),
}

/// An answer with a success status has come, and its body is awaited.
#[derive(Debug)]
pub struct AwaitingBody {
    accepted: (),
}

/// What follows the outcome of the post: after a success status, a code
/// from 200 to 299, the body is read next; any other status ends the
/// exchange at once, as does no answer.
pub open spec fn after_send(outcome: SendOutcomeView) -> Result<(), GatewayErrorView> {
    match outcome {
        SendOutcomeView::Unreachable { reason } => Err(GatewayErrorView::ConnectError { reason }),
        SendOutcomeView::Responded { status } => if 200 <= status <= 299 {
            Ok(())
        } else {
            Err(GatewayErrorView::RemoteError { status })
        },
    }
}

/// What the exchange ends with once the body was tried: the content of the
/// answer, or the reason why there is none.
pub open spec fn after_body(outcome: BodyOutcomeView) -> Result<Seq<char>, GatewayErrorView> {
    match outcome {
        BodyOutcomeView::Decoded { response } => Ok(response.message.content),
        BodyOutcomeView::Malformed { reason } => Err(GatewayErrorView::DecodeError { reason }),
    }
}

/// The address that `send_message_to_llm` posts to.
pub fn endpoint() -> (address: String)
    ensures
        address@ == CHAT_ENDPOINT@,
{
    CHAT_ENDPOINT.to_owned()
}

/// Begins `send_message_to_llm`: makes the request to post.
pub fn send_message_to_llm(message: String, history: Vec<ChatMessage>) -> (begun: (
    AwaitingResponse,
    ChatRequest,
))
    ensures
        begun.1@ == chat_request_of(message@, history.deep_view()),
{
    let ghost told = history.deep_view();
    let mut history = history;
    let mut messages: Vec<ChatMessage> = Vec::new();
    messages.push(ChatMessage { role: Role::System, content: PERSONA.to_owned() });
    messages.append(&mut history);
    messages.push(ChatMessage { role: Role::User, content: message });
    assert(messages.deep_view() =~= chat_request_of(message@, told).messages);
    (
        AwaitingResponse { posted: () },
        ChatRequest { model: CHAT_MODEL.to_owned(), messages, stream: false },
    )
}

impl AwaitingResponse {
    /// Takes the outcome of the post. The body is awaited only after a
    /// success status: after any other, and after no answer, the exchange
    /// has failed and no body is read.
    pub fn responded(self, outcome: SendOutcome) -> (next: Result<AwaitingBody, GatewayError>)
        ensures
            match next {
                Ok(_) => after_send(outcome@) == Ok::<(), GatewayErrorView>(()),
                Err(error) => after_send(outcome@) == Err::<(), GatewayErrorView>(error@),
            },
    {
        match outcome {
            SendOutcome::Unreachable { reason } => Err(GatewayError::ConnectError { reason }),
            SendOutcome::Responded { status } => {
                if status.is_success() {
                    Ok(AwaitingBody { accepted: () })
                } else {
                    Err(GatewayError::RemoteError { status })
                }
            },
        }
    }
}

impl AwaitingBody {
    /// Takes the outcome of reading the body, and ends the exchange.
    pub fn received(self, outcome: BodyOutcome) -> (reply: Result<String, GatewayError>)
        ensures
            result_view(reply) == after_body(outcome@),
    {
        match outcome {
            BodyOutcome::Decoded { response } => Ok(response.message.content),
            BodyOutcome::Malformed { reason } => Err(GatewayError::DecodeError { reason }),
        }
    }
}

} // verus!
