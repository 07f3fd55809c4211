use deepseek_api::decode::{
    decode_choice, decode_completion, decode_error, decode_message, decode_payload, decode_reply,
    resolve,
};
use deepseek_api::error::{ApiClientError, NO_CHOICES, UNRECOGNISED_PAYLOAD};
use deepseek_api::payload::{ApiErrorPayload, ChatMessage, ChatResponse, Choice, ReplyPayload};

fn value(text: &str) -> serde_json::Value {
    serde_json::from_str(text).unwrap()
}

fn message(role: &str, content: &str) -> ChatMessage {
    ChatMessage { role: role.to_string(), content: content.to_string() }
}

fn api_error(message: &str, code: &str) -> ApiClientError {
    ApiClientError::Api { message: message.to_string(), code: code.to_string() }
}

fn malformed(diagnostic: &str) -> ApiClientError {
    ApiClientError::MalformedResponse(diagnostic.to_string())
}

#[test]
fn error_body_yields_api_error_with_message_and_code() {
    let body = r#"{"error":{"message":"Invalid API key","type":"authentication_error","param":null,"code":"invalid_api_key"}}"#;
    assert_eq!(decode_reply(body), Err(api_error("Invalid API key", "invalid_api_key")));
}

#[test]
fn error_body_wins_over_choices_in_the_same_body() {
    let body = r#"{"choices":[{"message":{"role":"assistant","content":"hi"}}],"error":{"message":"quota exceeded","type":"limit","param":"model","code":"429"}}"#;
    assert_eq!(decode_reply(body), Err(api_error("quota exceeded", "429")));
    let reversed = r#"{"error":{"message":"quota exceeded","type":"limit","code":"429"},"choices":[]}"#;
    assert_eq!(decode_reply(reversed), Err(api_error("quota exceeded", "429")));
}

#[test]
fn single_choice_body_yields_its_content() {
    let body = r#"{"choices":[{"message":{"role":"assistant","content":"hi"}}]}"#;
    assert_eq!(decode_reply(body), Ok("hi".to_string()));
}

#[test]
fn only_the_first_choice_is_returned() {
    let body = r#"{"choices":[{"message":{"role":"assistant","content":"first"}},{"message":{"role":"assistant","content":"second"}}]}"#;
    assert_eq!(decode_reply(body), Ok("first".to_string()));
}

#[test]
fn body_of_neither_shape_is_malformed() {
    assert_eq!(decode_reply(r#"{"foo": 1}"#), Err(malformed(UNRECOGNISED_PAYLOAD)));
    assert_eq!(decode_reply("[]"), Err(malformed(UNRECOGNISED_PAYLOAD)));
    assert_eq!(decode_reply("null"), Err(malformed(UNRECOGNISED_PAYLOAD)));
    assert_eq!(decode_reply(r#""choices""#), Err(malformed(UNRECOGNISED_PAYLOAD)));
}

#[test]
fn empty_choices_is_malformed_and_does_not_panic() {
    assert_eq!(decode_reply(r#"{"choices":[]}"#), Err(malformed(NO_CHOICES)));
}

#[test]
fn text_that_is_not_json_carries_the_parser_diagnostic() {
    assert_eq!(
        decode_reply(""),
        Err(malformed("EOF while parsing a value at line 1 column 0"))
    );
    let broken = r#"{"choices": ["#;
    let expected = serde_json::from_str::<serde_json::Value>(broken).unwrap_err().to_string();
    assert_eq!(expected, "EOF while parsing a list at line 1 column 13");
    assert_eq!(decode_reply(broken), Err(malformed(&expected)));
    assert_ne!(decode_reply(broken), Err(malformed(broken)));
}

#[test]
fn trailing_text_after_the_value_is_not_json() {
    let body = r#"{"choices":[{"message":{"role":"assistant","content":"hi"}}]} x"#;
    assert_eq!(decode_reply(body), Err(malformed("trailing characters at line 1 column 63")));
}

#[test]
fn surrounding_whitespace_and_unknown_members_are_ignored() {
    let body = "\n {\"id\": 7, \"choices\": [ {\"index\": 0, \"message\": {\"role\": \"assistant\", \"content\": \"hi\", \"extra\": [1, 2]}} ], \"usage\": {\"total\": 3}} \n";
    assert_eq!(decode_reply(body), Ok("hi".to_string()));
}

#[test]
fn empty_content_is_a_reply() {
    let body = r#"{"choices":[{"message":{"role":"assistant","content":""}}]}"#;
    assert_eq!(decode_reply(body), Ok(String::new()));
}

#[test]
fn escapes_in_the_body_are_decoded() {
    let body = r#"{"choices":[{"message":{"role":"assistant","content":"a \"b\"\n\u00e9"}}]}"#;
    assert_eq!(decode_reply(body), Ok("a \"b\"\n\u{e9}".to_string()));
}

#[test]
fn one_bad_choice_spoils_the_completion() {
    let body = r#"{"choices":[{"message":{"role":"assistant","content":"hi"}},{"message":{"role":"assistant"}}]}"#;
    assert_eq!(decode_reply(body), Err(malformed(UNRECOGNISED_PAYLOAD)));
    let not_an_array = r#"{"choices":{"message":{"role":"assistant","content":"hi"}}}"#;
    assert_eq!(decode_reply(not_an_array), Err(malformed(UNRECOGNISED_PAYLOAD)));
}

#[test]
fn incomplete_error_payload_is_no_error_payload() {
    let no_code = r#"{"error":{"message":"m","type":"t","param":null}}"#;
    assert_eq!(decode_reply(no_code), Err(malformed(UNRECOGNISED_PAYLOAD)));
    let numeric_code = r#"{"error":{"message":"m","type":"t","code":401}}"#;
    assert_eq!(decode_reply(numeric_code), Err(malformed(UNRECOGNISED_PAYLOAD)));
    let text_error = r#"{"error":"boom","choices":[{"message":{"role":"assistant","content":"hi"}}]}"#;
    assert_eq!(decode_reply(text_error), Ok("hi".to_string()));
    let bad_param = r#"{"error":{"message":"m","type":"t","param":5,"code":"c"},"choices":[]}"#;
    assert_eq!(decode_reply(bad_param), Err(malformed(NO_CHOICES)));
}

#[test]
fn decode_error_reads_all_four_members() {
    let with_param = value(r#"{"error":{"message":"m","type":"t","param":"p","code":"c"}}"#);
    assert_eq!(
        decode_error(&with_param),
        Some(ApiErrorPayload {
            message: "m".to_string(),
            error_type: "t".to_string(),
            param: Some("p".to_string()),
            code: "c".to_string(),
        })
    );
    let null_param = value(r#"{"error":{"message":"m","type":"t","param":null,"code":"c"}}"#);
    let missing_param = value(r#"{"error":{"code":"c","type":"t","message":"m"}}"#);
    let expected = ApiErrorPayload {
        message: "m".to_string(),
        error_type: "t".to_string(),
        param: None,
        code: "c".to_string(),
    };
    assert_eq!(decode_error(&null_param), Some(expected.clone()));
    assert_eq!(decode_error(&missing_param), Some(expected));
}

#[test]
fn decode_error_rejects_other_values() {
    assert_eq!(decode_error(&value(r#"{"choices":[]}"#)), None);
    assert_eq!(decode_error(&value(r#"{"error":null}"#)), None);
    assert_eq!(decode_error(&value(r#"{"error":["m","t",null,"c"]}"#)), None);
    assert_eq!(decode_error(&value(r#"{"error":{"message":"m","code":"c"}}"#)), None);
    assert_eq!(decode_error(&value(r#"{"error":{"message":null,"type":"t","code":"c"}}"#)), None);
    assert_eq!(decode_error(&value(r#"["error"]"#)), None);
    assert_eq!(decode_error(&serde_json::Value::Null), None);
}

#[test]
fn decode_message_and_choice_read_their_members() {
    let inner = value(r#"{"role":"assistant","content":"hi"}"#);
    assert_eq!(decode_message(&inner), Some(message("assistant", "hi")));
    assert_eq!(decode_message(&value(r#"{"role":"assistant"}"#)), None);
    assert_eq!(decode_message(&value(r#"{"role":1,"content":"hi"}"#)), None);
    assert_eq!(decode_message(&value(r#""hi""#)), None);
    let outer = value(r#"{"message":{"role":"assistant","content":"hi"}}"#);
    assert_eq!(decode_choice(&outer), Some(Choice { message: message("assistant", "hi") }));
    assert_eq!(decode_choice(&inner), None);
    assert_eq!(decode_choice(&value(r#"{"message":"hi"}"#)), None);
}

#[test]
fn decode_completion_keeps_every_choice_in_order() {
    let body = value(r#"{"choices":[{"message":{"role":"assistant","content":"a"}},{"message":{"role":"system","content":"b"}}]}"#);
    assert_eq!(
        decode_completion(&body),
        Some(ChatResponse {
            choices: vec![
                Choice { message: message("assistant", "a") },
                Choice { message: message("system", "b") },
            ],
        })
    );
    assert_eq!(decode_completion(&value(r#"{"choices":[]}"#)), Some(ChatResponse { choices: vec![] }));
    assert_eq!(decode_completion(&value(r#"{"choices":[1]}"#)), None);
    assert_eq!(decode_completion(&value(r#"{"choices":null}"#)), None);
    assert_eq!(decode_completion(&value(r#"{}"#)), None);
}

#[test]
fn decode_payload_reads_a_body_one_way() {
    let both = value(r#"{"choices":[],"error":{"message":"m","type":"t","code":"c"}}"#);
    assert_eq!(
        decode_payload(&both),
        Some(ReplyPayload::Error(ApiErrorPayload {
            message: "m".to_string(),
            error_type: "t".to_string(),
            param: None,
            code: "c".to_string(),
        }))
    );
    let completion = value(r#"{"choices":[]}"#);
    assert_eq!(
        decode_payload(&completion),
        Some(ReplyPayload::Completion(ChatResponse { choices: vec![] }))
    );
    assert_eq!(decode_payload(&value(r#"{"foo": 1}"#)), None);
}

#[test]
fn resolve_maps_each_payload() {
    let error = ApiErrorPayload {
        message: "m".to_string(),
        error_type: "t".to_string(),
        param: Some("p".to_string()),
        code: "c".to_string(),
    };
    assert_eq!(resolve(Some(ReplyPayload::Error(error))), Err(api_error("m", "c")));
    let response = ChatResponse {
        choices: vec![
            Choice { message: message("assistant", "hi") },
            Choice { message: message("assistant", "ho") },
        ],
    };
    assert_eq!(resolve(Some(ReplyPayload::Completion(response))), Ok("hi".to_string()));
    let empty = ChatResponse { choices: vec![] };
    assert_eq!(resolve(Some(ReplyPayload::Completion(empty))), Err(malformed(NO_CHOICES)));
    assert_eq!(resolve(None), Err(malformed(UNRECOGNISED_PAYLOAD)));
}
