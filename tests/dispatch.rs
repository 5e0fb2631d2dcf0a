use std::cell::Cell;

use openai_responses::builders::CreateResponseArgs;
use openai_responses::error::OpenAIError;
use openai_responses::input::Input;
use openai_responses::json::{JsonNumber, JsonValue};
use openai_responses::request::CreateResponse;
use openai_responses::responses::Responses;
use openai_responses::wire::Wire;

fn request(stream: Option<bool>) -> CreateResponse {
    let args = CreateResponseArgs::new()
        .model("gpt-4o".to_string())
        .input(Input::String("hi".to_string()));
    let args = match stream {
        Some(b) => args.stream(b),
        None => args,
    };
    args.build().unwrap()
}

fn echo_reply() -> JsonValue {
    JsonValue::Object(vec![
        ("id".to_string(), JsonValue::Str("resp_123".to_string())),
        ("output".to_string(), JsonValue::Array(vec![])),
    ])
}

#[test]
fn streaming_request_is_refused_before_sending() {
    let calls = Cell::new(0u32);
    let responses = Responses::new();
    let r = responses.create(request(Some(true)), |_path, _body| {
        calls.set(calls.get() + 1);
        Ok(echo_reply())
    });
    assert!(matches!(r, Err(OpenAIError::InvalidArgument(_))));
    assert_eq!(calls.get(), 0);
}

#[test]
fn stub_transport_reply_becomes_response() {
    let calls = Cell::new(0u32);
    let responses = Responses::new();
    let r = responses
        .create(request(None), |path, body| {
            calls.set(calls.get() + 1);
            assert_eq!(path, "/responses".to_string());
            match &body {
                JsonValue::Object(members) => assert_eq!(members.len(), 2),
                _ => panic!("body is not an object"),
            }
            Ok(echo_reply())
        })
        .unwrap();
    assert_eq!(r.id, "resp_123".to_string());
    assert!(r.output.is_empty());
    assert_eq!(calls.get(), 1);
}

#[test]
fn stream_false_is_sent() {
    let responses = Responses::new();
    let r = responses.create(request(Some(false)), |_path, _body| Ok(echo_reply()));
    assert_eq!(r.unwrap().id, "resp_123".to_string());
}

#[test]
fn transport_error_passes_through() {
    let responses = Responses::new();
    let r = responses.create(request(None), |_path, _body| {
        Err(OpenAIError::Transport("status 500".to_string()))
    });
    assert_eq!(r, Err(OpenAIError::Transport("status 500".to_string())));
}

#[test]
fn malformed_reply_is_a_schema_mismatch() {
    let responses = Responses::new();
    let r = responses.create(request(None), |_path, _body| {
        Ok(JsonValue::Object(vec![("output".to_string(), JsonValue::Array(vec![]))]))
    });
    assert!(matches!(r, Err(OpenAIError::SchemaMismatch(_))));
    let r = responses.create(request(None), |_path, _body| {
        Ok(JsonValue::Number(JsonNumber { negative: false, value: 1, scale: 0 }))
    });
    assert!(matches!(r, Err(OpenAIError::SchemaMismatch(_))));
}

#[test]
fn raw_call_sends_document_unchanged() {
    let responses = Responses::new();
    let body = JsonValue::Object(vec![("stream".to_string(), JsonValue::Bool(true))]);
    let r = responses.create_raw(body, |path, sent| {
        assert_eq!(path, "/responses".to_string());
        Ok(sent)
    });
    assert_eq!(r.unwrap(), JsonValue::Object(vec![("stream".to_string(), JsonValue::Bool(true))]));
}

#[test]
fn request_body_matches_encoding() {
    let req = request(None);
    assert_eq!(Responses::request_body(&req).unwrap(), req.to_json());
    assert!(matches!(
        Responses::request_body(&request(Some(true))),
        Err(OpenAIError::InvalidArgument(_))
    ));
}
