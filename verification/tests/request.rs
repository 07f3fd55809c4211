use deepseek_api::payload::ChatMessage;
use deepseek_api::request::{
    frame_message, frame_request, ChatRequest, CONTENT_TYPE, ENDPOINT, MODEL, USER_ROLE,
};

fn message(role: &str, content: &str) -> ChatMessage {
    ChatMessage { role: role.to_string(), content: content.to_string() }
}

#[test]
fn prompt_request_holds_one_user_message() {
    let request = ChatRequest::for_prompt("ping");
    assert_eq!(request.model, "deepseek-chat");
    assert_eq!(request.messages, vec![message("user", "ping")]);
}

#[test]
fn prompt_request_body_is_exact() {
    assert_eq!(
        ChatRequest::for_prompt("ping").to_json(),
        r#"{"model":"deepseek-chat","messages":[{"role":"user","content":"ping"}],"temperature":0.7}"#
    );
}

#[test]
fn empty_prompt_is_forwarded_as_it_is() {
    assert_eq!(
        ChatRequest::for_prompt("").to_json(),
        r#"{"model":"deepseek-chat","messages":[{"role":"user","content":""}],"temperature":0.7}"#
    );
}

#[test]
fn prompt_is_escaped_in_the_body() {
    let prompt = "say \"hi\"\\\n\tnow \u{1}\u{e9}";
    let body = ChatRequest::for_prompt(prompt).to_json();
    assert_eq!(
        body,
        "{\"model\":\"deepseek-chat\",\"messages\":[{\"role\":\"user\",\"content\":\"say \\\"hi\\\"\\\\\\n\\tnow \\u0001\u{e9}\"}],\"temperature\":0.7}"
    );
    let parsed: serde_json::Value = serde_json::from_str(&body).unwrap();
    assert_eq!(parsed["messages"][0]["content"].as_str(), Some(prompt));
    assert_eq!(parsed["model"].as_str(), Some("deepseek-chat"));
    assert_eq!(parsed["temperature"].as_f64(), Some(0.7));
}

#[test]
fn message_json_has_role_then_content() {
    assert_eq!(message("system", "be brief").to_json(), r#"{"role":"system","content":"be brief"}"#);
}

#[test]
fn messages_are_written_in_order_with_commas() {
    let request = ChatRequest {
        model: "other-model".to_string(),
        messages: vec![message("system", "s"), message("user", "u"), message("assistant", "a")],
    };
    assert_eq!(
        request.to_json(),
        r#"{"model":"other-model","messages":[{"role":"system","content":"s"},{"role":"user","content":"u"},{"role":"assistant","content":"a"}],"temperature":0.7}"#
    );
}

#[test]
fn request_without_messages_has_an_empty_array() {
    let request = ChatRequest { model: "m".to_string(), messages: vec![] };
    assert_eq!(request.to_json(), r#"{"model":"m","messages":[],"temperature":0.7}"#);
}

#[test]
fn wire_constants() {
    assert_eq!(ENDPOINT, "https://api.deepseek.com/v1/chat/completions");
    assert_eq!(CONTENT_TYPE, "application/json");
    assert_eq!(MODEL, "deepseek-chat");
    assert_eq!(USER_ROLE, "user");
}

#[test]
fn frame_message_lays_out_the_two_members() {
    assert_eq!(frame_message("\"user\"", "\"ping\""), r#"{"role":"user","content":"ping"}"#);
    assert_eq!(frame_message("", ""), r#"{"role":,"content":}"#);
}

#[test]
fn frame_request_joins_messages_with_commas() {
    assert_eq!(
        frame_request("\"m\"", &vec![]),
        r#"{"model":"m","messages":[],"temperature":0.7}"#
    );
    assert_eq!(
        frame_request("\"m\"", &vec!["{}".to_string()]),
        r#"{"model":"m","messages":[{}],"temperature":0.7}"#
    );
    assert_eq!(
        frame_request("\"m\"", &vec!["1".to_string(), "2".to_string(), "3".to_string()]),
        r#"{"model":"m","messages":[1,2,3],"temperature":0.7}"#
    );
}
