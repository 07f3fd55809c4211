//! Reading a response body: which JSON values count as an error payload,
//! which as a completion payload, and what a body amounts to.
//!
//! A body is tried against the error payload first. The order is a rule, not
//! an accident: a body that fits the error payload is an error, whatever else
//! it holds.

use vstd::prelude::*;
use crate::error::{
    outcome_view, ApiClientError, ApiClientErrorView, NO_CHOICES, UNRECOGNISED_PAYLOAD,
};
use crate::json::{diagnostic, member, parse, parsed_text, value_model, JsonModel};
use crate::payload::{
    ApiErrorPayload, ApiErrorPayloadView, ChatMessage, ChatMessageView, ChatResponse,
    ChatResponseView, Choice, ChoiceView, ReplyPayload, ReplyPayloadView,
};

verus! {

/// The error payload that `json` spells, if it spells one: an object whose
/// `"error"` member is an object with string members `"message"`, `"type"`
/// and `"code"`, and with a `"param"` that is a string, `null` or missing.
/// Other members are ignored.
pub open spec fn error_shape(json: JsonModel) -> Option<ApiErrorPayloadView> {
    match json.member("error"@) {
        Some(detail) => match (
            detail.text_member("message"@),
            detail.text_member("type"@),
            detail.optional_text_member("param"@),
            detail.text_member("code"@),
        ) {
            (Some(message), Some(error_type), Some(param), Some(code)) => Some(
                ApiErrorPayloadView { message, error_type, param, code },
            ),
            _ => None,
        },
        None => None,
    }
}

/// The message that `json` spells, if it spells one: an object with string
/// members `"role"` and `"content"`.
pub open spec fn message_shape(json: JsonModel) -> Option<ChatMessageView> {
    match (json.text_member("role"@), json.text_member("content"@)) {
        (Some(role), Some(content)) => Some(ChatMessageView { role, content }),
        _ => None,
    }
}

/// The choice that `json` spells, if it spells one: an object whose
/// `"message"` member is a message.
pub open spec fn choice_shape(json: JsonModel) -> Option<ChoiceView> {
    match json.member("message"@) {
        Some(inner) => match message_shape(inner) {
            Some(message) => Some(ChoiceView { message }),
            None => None,
        },
        None => None,
    }
}

/// The completion payload that `json` spells, if it spells one: an object
/// whose `"choices"` member is an array in which every element is a choice.
/// The array may be empty.
pub open spec fn completion_shape(json: JsonModel) -> Option<ChatResponseView> {
    match json.member("choices"@) {
        Some(JsonModel::Array(elements)) => if forall|i: int|
            0 <= i < elements.len() ==> (#[trigger] choice_shape(elements[i])) is Some {
            Some(
                ChatResponseView {
                    choices: elements.map_values(
                        |element: JsonModel| choice_shape(element).unwrap(),
                    ),
                },
            )
        } else {
            None
        },
        _ => None,
    }
}

/// The payload that `json` spells: the error payload if it fits, else the
/// completion payload if that fits, else none.
pub open spec fn payload_shape(json: JsonModel) -> Option<ReplyPayloadView> {
    match error_shape(json) {
        Some(error) => Some(ReplyPayloadView::Error(error)),
        None => match completion_shape(json) {
            Some(response) => Some(ReplyPayloadView::Completion(response)),
            None => None,
        },
    }
}

/// What a decoded payload amounts to: an error payload is the provider's
/// failure, with its message and code; a completion is the content of its
/// first choice; a completion without choices, or no payload at all, is a
/// malformed response.
pub open spec fn payload_outcome(payload: Option<ReplyPayloadView>) -> Result<
    Seq<char>,
    ApiClientErrorView,
> {
    match payload {
        Some(ReplyPayloadView::Error(error)) => Err(
            ApiClientErrorView::Api { message: error.message, code: error.code },
        ),
        Some(ReplyPayloadView::Completion(response)) => if response.choices.len() > 0 {
            Ok(response.choices[0].message.content)
        } else {
            Err(ApiClientErrorView::MalformedResponse(NO_CHOICES@))
        },
        None => Err(ApiClientErrorView::MalformedResponse(UNRECOGNISED_PAYLOAD@)),
    }
}

/// What a parsed body amounts to. Text that is not JSON is a malformed
/// response that carries the parser's diagnostic.
pub open spec fn reply_outcome(parsed: Result<JsonModel, Seq<char>>) -> Result<
    Seq<char>,
    ApiClientErrorView,
> {
    match parsed {
        Ok(json) => payload_outcome(payload_shape(json)),
        Err(diagnostic) => Err(ApiClientErrorView::MalformedResponse(diagnostic)),
    }
}

/// The error payload takes precedence: a value that spells an error payload
/// is read as that error, with its message and its code, whether or not it
/// also spells a completion.
pub proof fn lemma_error_payload_takes_precedence(json: JsonModel)
    requires
        error_shape(json) is Some,
    ensures
        payload_shape(json) == Some(ReplyPayloadView::Error(error_shape(json)->Some_0)),
        reply_outcome(Ok(json)) == Err::<Seq<char>, ApiClientErrorView>(
            ApiClientErrorView::Api {
                message: error_shape(json)->Some_0.message,
                code: error_shape(json)->Some_0.code,
            },
        ),
{
}

/// A value that spells a completion with at least one choice, and no error
/// payload, yields the content of the first choice. Later choices are not
/// read.
pub proof fn lemma_completion_yields_first_choice(json: JsonModel)
    requires
        error_shape(json) is None,
        completion_shape(json) is Some,
        completion_shape(json)->Some_0.choices.len() > 0,
    ensures
        reply_outcome(Ok(json)) == Ok::<Seq<char>, ApiClientErrorView>(
            completion_shape(json)->Some_0.choices[0].message.content,
        ),
{
}

/// A value that spells a completion without any choice, and no error payload,
/// is a malformed response.
pub proof fn lemma_empty_completion_is_malformed(json: JsonModel)
    requires
        error_shape(json) is None,
        completion_shape(json) is Some,
        completion_shape(json)->Some_0.choices.len() == 0,
    ensures
        reply_outcome(Ok(json)) == Err::<Seq<char>, ApiClientErrorView>(
            ApiClientErrorView::MalformedResponse(NO_CHOICES@),
        ),
{
}

/// A value that spells neither payload is a malformed response, and so is a
/// body that is not JSON at all: that one carries the parser's diagnostic.
pub proof fn lemma_unrecognised_body_is_malformed(parsed: Result<JsonModel, Seq<char>>)
    requires
        parsed matches Ok(json) ==> error_shape(json) is None && completion_shape(json) is None,
    ensures
        reply_outcome(parsed) == Err::<Seq<char>, ApiClientErrorView>(
            ApiClientErrorView::MalformedResponse(
                match parsed {
                    Ok(_) => UNRECOGNISED_PAYLOAD@,
                    Err(diagnostic) => diagnostic,
                },
            ),
        ),
{
}

/// Every body is read as exactly one thing. It is a reply exactly when it
/// spells a completion with a choice and no error payload; it is the
/// provider's error exactly when it spells an error payload; in every other
/// case it is a malformed response. Reading a body never yields a
/// configuration or a transport error.
pub proof fn lemma_reply_is_read_one_way(parsed: Result<JsonModel, Seq<char>>)
    ensures
        reply_outcome(parsed) is Ok <==> parsed is Ok && error_shape(parsed->Ok_0) is None
            && completion_shape(parsed->Ok_0) is Some && completion_shape(
            parsed->Ok_0,
        )->Some_0.choices.len() > 0,
        reply_outcome(parsed) is Err && reply_outcome(parsed)->Err_0 is Api <==> parsed is Ok
            && error_shape(parsed->Ok_0) is Some,
        reply_outcome(parsed) is Err ==> reply_outcome(parsed)->Err_0 is Api || reply_outcome(
            parsed,
        )->Err_0 is MalformedResponse,
{
}

/// The view of an optional payload.
pub open spec fn payload_view(payload: Option<ReplyPayload>) -> Option<ReplyPayloadView> {
    match payload {
        Some(found) => Some(found@),
        None => None,
    }
}

fn text_member(value: &serde_json::Value, key: &str) -> (r: Option<String>)
    ensures
        match r {
            Some(text) => value_model(*value).text_member(key@) == Some(text@),
            None => value_model(*value).text_member(key@) is None,
        },
{
    match member(value, key) {
        Some(found) => match found.as_str() {
            Some(characters) => Some(characters.to_owned()),
            None => None,
        },
        None => None,
    }
}

fn optional_text_member(value: &serde_json::Value, key: &str) -> (r: Option<Option<String>>)
    ensures
        match r {
            Some(Some(text)) => value_model(*value).optional_text_member(key@) == Some(
                Some(text@),
            ),
            Some(None) => value_model(*value).optional_text_member(key@) == Some(
                None::<Seq<char>>,
            ),
            None => value_model(*value).optional_text_member(key@) is None,
        },
{
    match member(value, key) {
        None => Some(None),
        Some(found) => if found.is_null() {
            Some(None)
        } else {
            match found.as_str() {
                Some(characters) => Some(Some(characters.to_owned())),
                None => None,
            }
        },
    }
}

/// Reads `value` as an error payload.
pub fn decode_error(value: &serde_json::Value) -> (r: Option<ApiErrorPayload>)
    ensures
        match r {
            Some(payload) => error_shape(value_model(*value)) == Some(payload@),
            None => error_shape(value_model(*value)) is None,
        },
{
    let detail = match member(value, "error") {
        Some(found) => found,
        None => {
            return None;
        },
    };
    let message = text_member(detail, "message");
    let error_type = text_member(detail, "type");
    let param = optional_text_member(detail, "param");
    let code = text_member(detail, "code");
    match (message, error_type, param, code) {
        (Some(message), Some(error_type), Some(param), Some(code)) => Some(
            ApiErrorPayload { message, error_type, param, code },
        ),
        _ => None,
    }
}

/// Reads `value` as a message.
pub fn decode_message(value: &serde_json::Value) -> (r: Option<ChatMessage>)
    ensures
        match r {
            Some(message) => message_shape(value_model(*value)) == Some(message@),
            None => message_shape(value_model(*value)) is None,
        },
{
    match (text_member(value, "role"), text_member(value, "content")) {
        (Some(role), Some(content)) => Some(ChatMessage { role, content }),
        _ => None,
    }
}

/// Reads `value` as a choice.
pub fn decode_choice(value: &serde_json::Value) -> (r: Option<Choice>)
    ensures
        match r {
            Some(choice) => choice_shape(value_model(*value)) == Some(choice@),
            None => choice_shape(value_model(*value)) is None,
        },
{
    match member(value, "message") {
        Some(inner) => match decode_message(inner) {
            Some(message) => Some(Choice { message }),
            None => None,
        },
        None => None,
    }
}

/// Reads `value` as a completion payload. One element of `"choices"` that is
/// no choice spoils the whole payload.
pub fn decode_completion(value: &serde_json::Value) -> (r: Option<ChatResponse>)
    ensures
        match r {
            Some(response) => completion_shape(value_model(*value)) == Some(response@),
            None => completion_shape(value_model(*value)) is None,
        },
{
    let elements = match member(value, "choices") {
        Some(found) => match found.as_array() {
            Some(elements) => elements,
            None => {
                return None;
            },
        },
        None => {
            return None;
        },
    };
    let ghost models = elements@.map_values(|element: serde_json::Value| value_model(element));
    assert(value_model(*value).member("choices"@) == Some(JsonModel::Array(models)));
    let mut choices: Vec<Choice> = Vec::new();
    let mut index: usize = 0;
    while index < elements.len()
        invariant
            index <= elements.len(),
            choices.len() == index,
            models == elements@.map_values(|element: serde_json::Value| value_model(element)),
            value_model(*value).member("choices"@) == Some(JsonModel::Array(models)),
            forall|i: int|
                0 <= i < index ==> (#[trigger] choice_shape(models[i])) == Some(choices@[i]@),
        decreases elements.len() - index,
    {
        match decode_choice(&elements[index]) {
            Some(choice) => {
                choices.push(choice);
            },
            None => {
                assert(choice_shape(models[index as int]) is None);
                return None;
            },
        }
        index = index + 1;
    }
    let response = ChatResponse { choices };
    assert(response@.choices =~= models.map_values(
        |element: JsonModel| choice_shape(element).unwrap(),
    ));
    Some(response)
}

/// Reads `value` as exactly one of the two payloads, the error payload first.
pub fn decode_payload(value: &serde_json::Value) -> (r: Option<ReplyPayload>)
    ensures
        payload_view(r) == payload_shape(value_model(*value)),
{
    match decode_error(value) {
        Some(error) => Some(ReplyPayload::Error(error)),
        None => match decode_completion(value) {
            Some(response) => Some(ReplyPayload::Completion(response)),
            None => None,
        },
    }
}

/// Turns a decoded payload into what the caller of a chat exchange gets.
///
/// Only the first choice of a completion is used, and of an error payload
/// only the message and the code.
pub fn resolve(payload: Option<ReplyPayload>) -> (r: Result<String, ApiClientError>)
    ensures
        outcome_view(r) == payload_outcome(payload_view(payload)),
{
    match payload {
        Some(ReplyPayload::Error(error)) => Err(
            ApiClientError::Api { message: error.message, code: error.code },
        ),
        Some(ReplyPayload::Completion(response)) => {
            if response.choices.len() > 0 {
                Ok(response.choices[0].message.content.clone())
            } else {
                Err(ApiClientError::MalformedResponse(String::from_str(NO_CHOICES)))
            }
        },
        None => Err(ApiClientError::MalformedResponse(String::from_str(UNRECOGNISED_PAYLOAD))),
    }
}

/// Reads a response body, complete and as raw text, and says what it amounts
/// to: the reply's text, the provider's error, or a malformed response.
pub fn decode_reply(body: &str) -> (r: Result<String, ApiClientError>)
    ensures
        outcome_view(r) == reply_outcome(parsed_text(body@)),
{
    match parse(body) {
        Ok(value) => resolve(decode_payload(&value)),
        Err(error) => Err(ApiClientError::MalformedResponse(diagnostic(&error))),
    }
}

} // verus!
