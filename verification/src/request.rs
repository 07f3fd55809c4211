//! The outbound side of a chat exchange: the request payload, its JSON text,
//! and the HTTP request that carries it.
//!
//! The JSON text is written in two layers. The frames lay out members that
//! are JSON already; `to_json` quotes the strings of a payload, through
//! `serde_json`, and hands them to the frames.

use vstd::prelude::*;
use crate::json::{quote, quoted_text};
use crate::payload::{ChatMessage, ChatMessageView};

verus! {

/// The chat-completion endpoint. Requests go there by `POST`.
pub const ENDPOINT: &'static str = "https://api.deepseek.com/v1/chat/completions";

/// The content type of every request body.
pub const CONTENT_TYPE: &'static str = "application/json";

/// The model that answers.
pub const MODEL: &'static str = "deepseek-chat";

/// The role of the caller's own messages.
pub const USER_ROLE: &'static str = "user";

/// The request payload. The sampling temperature is no field of it: the wire
/// format fixes it, and the request frame writes it as the literal `0.7`.
#[derive(Debug, Clone, PartialEq, Eq)]
pub struct ChatRequest {
    pub model: String,
    pub messages: Vec<ChatMessage>,
}

pub struct ChatRequestView {
    pub model: Seq<char>,
    pub messages: Seq<ChatMessageView>,
}

impl View for ChatRequest {
    type V = ChatRequestView;

    open spec fn view(&self) -> ChatRequestView {
        ChatRequestView {
            model: self.model@,
            messages: self.messages@.map_values(|message: ChatMessage| message@),
        }
    }
}

/// The text of a message object around the JSON texts of its two members:
/// `{"role":…,"content":…}`, without whitespace.
pub open spec fn message_frame(role_json: Seq<char>, content_json: Seq<char>) -> Seq<char> {
    "{\"role\":"@ + role_json + ",\"content\":"@ + content_json + "}"@
}

/// The texts of `parts`, in order, with one comma between neighbours.
pub open spec fn comma_joined(parts: Seq<Seq<char>>) -> Seq<char>
    decreases parts.len(),
{
    if parts.len() == 0 {
        Seq::empty()
    } else if parts.len() == 1 {
        parts[0]
    } else {
        comma_joined(parts.drop_last()) + ","@ + parts.last()
    }
}

/// The text of a request object around the JSON text of the model and the
/// JSON texts of the messages: the model, the messages as an array, then the
/// temperature, without whitespace.
pub open spec fn request_frame(model_json: Seq<char>, messages_json: Seq<Seq<char>>) -> Seq<char> {
    "{\"model\":"@ + model_json + ",\"messages\":["@ + comma_joined(messages_json)
        + "],\"temperature\":0.7}"@
}

/// The JSON text of one message.
pub open spec fn message_json(message: ChatMessageView) -> Seq<char> {
    message_frame(quoted_text(message.role), quoted_text(message.content))
}

/// The JSON text of a request.
pub open spec fn request_json(request: ChatRequestView) -> Seq<char> {
    request_frame(
        quoted_text(request.model),
        request.messages.map_values(|message: ChatMessageView| message_json(message)),
    )
}

/// The request that carries a single prompt: the fixed model, and one message
/// in the user's role.
pub open spec fn prompt_request(prompt: Seq<char>) -> ChatRequestView {
    ChatRequestView {
        model: MODEL@,
        messages: seq![ChatMessageView { role: USER_ROLE@, content: prompt }],
    }
}

/// The views of a vector of texts.
pub open spec fn text_views(texts: Seq<String>) -> Seq<Seq<char>> {
    texts.map_values(|text: String| text@)
}

/// The body for a single prompt, written out: only the prompt varies, and it
/// stands, quoted, as the content of the one message.
pub proof fn lemma_prompt_body_layout(prompt: Seq<char>)
    ensures
        request_json(prompt_request(prompt)) == "{\"model\":"@ + quoted_text(MODEL@)
            + ",\"messages\":[{\"role\":"@ + quoted_text(USER_ROLE@) + ",\"content\":"@
            + quoted_text(prompt) + "}],\"temperature\":0.7}"@,
{
    let request = prompt_request(prompt);
    let parts = request.messages.map_values(|message: ChatMessageView| message_json(message));
    assert(comma_joined(parts) == message_json(request.messages[0]));
    reveal_strlit(",\"messages\":[");
    reveal_strlit("{\"role\":");
    reveal_strlit(",\"messages\":[{\"role\":");
    reveal_strlit("}");
    reveal_strlit("],\"temperature\":0.7}");
    reveal_strlit("}],\"temperature\":0.7}");
    assert(",\"messages\":["@ + "{\"role\":"@ =~= ",\"messages\":[{\"role\":"@);
    assert("}"@ + "],\"temperature\":0.7}"@ =~= "}],\"temperature\":0.7}"@);
    assert(request_json(request) =~= "{\"model\":"@ + quoted_text(MODEL@)
        + ",\"messages\":[{\"role\":"@ + quoted_text(USER_ROLE@) + ",\"content\":"@
        + quoted_text(prompt) + "}],\"temperature\":0.7}"@);
}

/// Lays out a message object around the JSON texts of its members. The texts
/// are taken as they are: whether they are JSON is the caller's concern.
pub fn frame_message(role_json: &str, content_json: &str) -> (r: String)
    ensures
        r@ == message_frame(role_json@, content_json@),
{
    let mut text = String::from_str("{\"role\":");
    text.append(role_json);
    text.append(",\"content\":");
    text.append(content_json);
    text.append("}");
    text
}

/// Lays out a request object around the JSON text of the model and the JSON
/// texts of the messages, which are taken as they are.
pub fn frame_request(model_json: &str, messages_json: &Vec<String>) -> (r: String)
    ensures
        r@ == request_frame(model_json@, text_views(messages_json@)),
{
    let mut text = String::from_str("{\"model\":");
    text.append(model_json);
    text.append(",\"messages\":[");
    let ghost head = text@;
    let ghost parts = text_views(messages_json@);
    let mut index: usize = 0;
    while index < messages_json.len()
        invariant
            index <= messages_json.len(),
            parts == text_views(messages_json@),
            text@ == head + comma_joined(parts.take(index as int)),
        decreases messages_json.len() - index,
    {
        if index > 0 {
            text.append(",");
        }
        text.append(messages_json[index].as_str());
        proof {
            let written = parts.take(index + 1);
            assert(written.drop_last() =~= parts.take(index as int));
            assert(written.last() == messages_json[index as int]@);
            assert(text@ =~= head + comma_joined(written));
        }
        index = index + 1;
    }
    assert(parts.take(index as int) =~= parts);
    text.append("],\"temperature\":0.7}");
    text
}

impl ChatMessage {
    /// Writes the message as JSON.
    pub fn to_json(&self) -> (r: String)
        ensures
            r@ == message_json(self@),
    {
        let role_json = quote(self.role.as_str());
        let content_json = quote(self.content.as_str());
        frame_message(role_json.as_str(), content_json.as_str())
    }
}

impl ChatRequest {
    /// Builds the request for one prompt. The prompt is taken as it is, empty
    /// or not.
    pub fn for_prompt(prompt: &str) -> (r: ChatRequest)
        ensures
            r@ == prompt_request(prompt@),
    {
        let message = ChatMessage {
            role: String::from_str(USER_ROLE),
            content: String::from_str(prompt),
        };
        let mut messages: Vec<ChatMessage> = Vec::new();
        messages.push(message);
        let request = ChatRequest { model: String::from_str(MODEL), messages };
        assert(request@.messages =~= prompt_request(prompt@).messages);
        request
    }

    /// Writes the request as JSON, ready to be a request body.
    pub fn to_json(&self) -> (r: String)
        ensures
            r@ == request_json(self@),
    {
        let mut written: Vec<String> = Vec::new();
        let mut index: usize = 0;
        while index < self.messages.len()
            invariant
                index <= self.messages.len(),
                written.len() == index,
                forall|i: int|
                    0 <= i < index ==> (#[trigger] written[i])@ == message_json(
                        self.messages[i]@,
                    ),
            decreases self.messages.len() - index,
        {
            written.push(self.messages[index].to_json());
            index = index + 1;
        }
        assert(text_views(written@) =~= self@.messages.map_values(
            |message: ChatMessageView| message_json(message),
        ));
        let model_json = quote(self.model.as_str());
        frame_request(model_json.as_str(), &written)
    }
}

/// An HTTP request, described and not sent: where it goes, what authorises
/// it, and its body. It is to be sent by `POST`, with `CONTENT_TYPE` as the
/// body's content type.
#[derive(Debug, Clone, PartialEq, Eq)]
pub struct HttpRequest {
    pub url: String,
    /// The value of the `Authorization` header.
    pub authorization: String,
    pub body: String,
}

pub struct HttpRequestView {
    pub url: Seq<char>,
    pub authorization: Seq<char>,
    pub body: Seq<char>,
}

impl View for HttpRequest {
    type V = HttpRequestView;

    open spec fn view(&self) -> HttpRequestView {
        HttpRequestView { url: self.url@, authorization: self.authorization@, body: self.body@ }
    }
}

} // verus!
