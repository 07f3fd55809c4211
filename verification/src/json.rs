//! The JSON values that the decoder reads, and the calls into `serde_json`
//! that produce and inspect them.
//!
//! Everything in this module that touches `serde_json` is taken on trust: the
//! contracts below restate what that crate's source does, and the rest of the
//! library is proved against them.

use vstd::prelude::*;

verus! {

/// The mathematical content of a JSON value. A number keeps no payload: no
/// rule of this crate reads one.
pub enum JsonModel {
    Null,
    Bool(bool),
    Number,
    String(Seq<char>),
    Array(Seq<JsonModel>),
    Object(Map<Seq<char>, JsonModel>),
}

impl JsonModel {
    /// The member stored under `key`, when `self` is an object that has one.
    pub open spec fn member(self, key: Seq<char>) -> Option<JsonModel> {
        match self {
            JsonModel::Object(members) => if members.contains_key(key) {
                Some(members[key])
            } else {
                None
            },
            _ => None,
        }
    }

    /// The characters of `self`, when it is a string.
    pub open spec fn text(self) -> Option<Seq<char>> {
        match self {
            JsonModel::String(characters) => Some(characters),
            _ => None,
        }
    }

    /// The elements of `self`, when it is an array.
    pub open spec fn items(self) -> Option<Seq<JsonModel>> {
        match self {
            JsonModel::Array(elements) => Some(elements),
            _ => None,
        }
    }

    /// A required string member: present only when `self` is an object whose
    /// member `key` is a string.
    pub open spec fn text_member(self, key: Seq<char>) -> Option<Seq<char>> {
        match self.member(key) {
            Some(value) => value.text(),
            None => None,
        }
    }

    /// An optional string member. A missing member and a `null` both read as
    /// "no value"; a string reads as itself; anything else does not fit, and
    /// the outer `Option` is `None`.
    pub open spec fn optional_text_member(self, key: Seq<char>) -> Option<Option<Seq<char>>> {
        match self.member(key) {
            None => Some(None),
            Some(JsonModel::Null) => Some(None),
            Some(JsonModel::String(characters)) => Some(Some(characters)),
            Some(_) => None,
        }
    }
}

/// `serde_json::Value`, a parsed JSON document. Verified code holds and
/// passes it, and learns of its content through `value_model` alone.
#[verifier::external_type_specification]
#[verifier::external_body]
pub struct ExValue(serde_json::Value);

/// `serde_json::Error`, what the parser returns for a text that is not JSON.
#[verifier::external_type_specification]
#[verifier::external_body]
pub struct ExError(serde_json::Error);

/// What a `serde_json::Value` holds, as a tree of plain values.
pub uninterp spec fn value_model(value: serde_json::Value) -> JsonModel;

/// What `serde_json::from_str` makes of a text: the value it parses to, or the
/// text of the parser's error.
pub uninterp spec fn parsed_text(text: Seq<char>) -> Result<JsonModel, Seq<char>>;

/// The text that `serde_json::Error` displays as.
pub uninterp spec fn error_text(error: serde_json::Error) -> Seq<char>;

/// The JSON string literal that `serde_json` writes for a text: the text in
/// double quotes, escaped as that crate escapes it.
pub uninterp spec fn quoted_text(text: Seq<char>) -> Seq<char>;

/// `serde_json::from_str` at type `serde_json::Value`. The parser reads
/// nothing but its argument, so its outcome is a function of the text: a value,
/// or an error. It bounds its own recursion and returns an error rather than
/// panicking on any input.
#[verifier::external_body]
pub(crate) fn parse(text: &str) -> (r: Result<serde_json::Value, serde_json::Error>)
    ensures
        match r {
            Ok(value) => parsed_text(text@) == Ok::<JsonModel, Seq<char>>(value_model(value)),
            Err(error) => parsed_text(text@) == Err::<JsonModel, Seq<char>>(error_text(error)),
        },
{
    serde_json::from_str::<serde_json::Value>(text)
}

/// `ToString::to_string` on a `serde_json::Error`, which goes through that
/// type's `Display`: the error's message, followed by the line and column
/// where the parser stopped.
#[verifier::external_body]
pub(crate) fn diagnostic(error: &serde_json::Error) -> (r: String)
    ensures
        r@ == error_text(*error),
{
    error.to_string()
}

/// `serde_json::Value::get` with a string index. It yields the member stored
/// under `key` when the value is an object that has one, and `None` for a
/// missing key and for every value that is not an object.
#[verifier::external_body]
pub(crate) fn member<'a>(value: &'a serde_json::Value, key: &str) -> (r: Option<
    &'a serde_json::Value,
>)
    ensures
        match r {
            Some(found) => value_model(*value).member(key@) == Some(value_model(*found)),
            None => value_model(*value).member(key@) is None,
        },
{
    value.get(key)
}

/// `as_str` borrows the characters of a string value and is `None` for every
/// other value.
pub assume_specification<'a>[ serde_json::Value::as_str ](value: &'a serde_json::Value) -> (r:
    Option<&'a str>)
    ensures
        match r {
            Some(characters) => value_model(*value).text() == Some(characters@),
            None => value_model(*value).text() is None,
        },
;

/// `as_array` borrows the elements of an array value, in order, and is `None`
/// for every other value.
pub assume_specification<'a>[ serde_json::Value::as_array ](value: &'a serde_json::Value) -> (r:
    Option<&'a Vec<serde_json::Value>>)
    ensures
        match r {
            Some(elements) => value_model(*value).items() == Some(
                elements@.map_values(|element: serde_json::Value| value_model(element)),
            ),
            None => value_model(*value).items() is None,
        },
;

/// `is_null` tells whether the value is JSON's `null`.
pub assume_specification[ serde_json::Value::is_null ](value: &serde_json::Value) -> (r: bool)
    ensures
        r == (value_model(*value) is Null),
;

/// Writes `text` as a JSON string literal, by displaying a
/// `serde_json::Value::String`: `Display` for a value emits compact JSON, which
/// for a string is its quoted, escaped form. Writing into a `String` cannot
/// fail, so `to_string` returns.
#[verifier::external_body]
pub(crate) fn quote(text: &str) -> (r: String)
    ensures
        r@ == quoted_text(text@),
{
    serde_json::Value::String(text.to_owned()).to_string()
}

} // verus!
