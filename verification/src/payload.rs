//! The data that travels in a chat exchange: messages, the completion payload
//! and the provider's error payload, each with its mathematical view.

use vstd::prelude::*;

verus! {

/// One turn of a conversation.
#[derive(Debug, Clone, PartialEq, Eq)]
pub struct ChatMessage {
    /// Who speaks: `"user"`, `"assistant"`, `"system"`, or another tag the
    /// provider defines.
    pub role: String,
    /// What is said.
    pub content: String,
}

pub struct ChatMessageView {
    pub role: Seq<char>,
    pub content: Seq<char>,
}

impl View for ChatMessage {
    type V = ChatMessageView;

    open spec fn view(&self) -> ChatMessageView {
        ChatMessageView { role: self.role@, content: self.content@ }
    }
}

/// One candidate reply.
#[derive(Debug, Clone, PartialEq, Eq)]
pub struct Choice {
    pub message: ChatMessage,
}

pub struct ChoiceView {
    pub message: ChatMessageView,
}

impl View for Choice {
    type V = ChoiceView;

    open spec fn view(&self) -> ChoiceView {
        ChoiceView { message: self.message@ }
    }
}

/// The completion payload: the provider's candidate replies, in its order.
#[derive(Debug, Clone, PartialEq, Eq)]
pub struct ChatResponse {
    pub choices: Vec<Choice>,
}

pub struct ChatResponseView {
    pub choices: Seq<ChoiceView>,
}

impl View for ChatResponse {
    type V = ChatResponseView;

    open spec fn view(&self) -> ChatResponseView {
        ChatResponseView { choices: self.choices@.map_values(|choice: Choice| choice@) }
    }
}

/// The provider's structured error, as found under `"error"`.
#[derive(Debug, Clone, PartialEq, Eq)]
pub struct ApiErrorPayload {
    pub message: String,
    /// The payload's `"type"` member.
    pub error_type: String,
    pub param: Option<String>,
    pub code: String,
}

pub struct ApiErrorPayloadView {
    pub message: Seq<char>,
    pub error_type: Seq<char>,
    pub param: Option<Seq<char>>,
    pub code: Seq<char>,
}

impl View for ApiErrorPayload {
    type V = ApiErrorPayloadView;

    open spec fn view(&self) -> ApiErrorPayloadView {
        ApiErrorPayloadView {
            message: self.message@,
            error_type: self.error_type@,
            param: match self.param {
                Some(text) => Some(text@),
                None => None,
            },
            code: self.code@,
        }
    }
}

/// A response body, read as exactly one of the two payloads.
#[derive(Debug, Clone, PartialEq, Eq)]
pub enum ReplyPayload {
    Error(ApiErrorPayload),
    Completion(ChatResponse),
}

pub enum ReplyPayloadView {
    Error(ApiErrorPayloadView),
    Completion(ChatResponseView),
}

impl View for ReplyPayload {
    type V = ReplyPayloadView;

    open spec fn view(&self) -> ReplyPayloadView {
        match self {
            ReplyPayload::Error(error) => ReplyPayloadView::Error(error@),
            ReplyPayload::Completion(response) => ReplyPayloadView::Completion(response@),
        }
    }
}

} // verus!
