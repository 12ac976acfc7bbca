//! Tests for the request/response adapter: the null case, the success
//! and error envelopes, and the guarantee that every output is valid
//! under the external codec.

use cbound::boundary::{fallback_envelope, handle_request, myfunc, plugh_response};
use serde_json::Value;

fn respond(input: &[u8]) -> String {
    handle_request(Some(input)).unwrap()
}

#[test]
fn test_handle_request_null() {
    assert_eq!(handle_request(None), None);
}

#[test]
fn test_handle_request_ok() {
    let out = respond(b"{\"plugh\":\"xyzzy\"}");
    assert_eq!(out, "{\"Ok\":\"plugh has length 5\"}");
}

#[test]
fn test_handle_request_member_missing() {
    let out = respond(b"{\"nope\":1}");
    assert_eq!(out, "{\"Err\":\"plugh not present or not valid\"}");
}

#[test]
fn test_handle_request_member_not_string() {
    let out = respond(b"{\"plugh\":7}");
    assert_eq!(out, "{\"Err\":\"plugh not present or not valid\"}");
}

#[test]
fn test_handle_request_parse_failure() {
    let out = respond(b"{not json");
    let envelope: Value = serde_json::from_str(&out).unwrap();
    let message = envelope.get("Err").unwrap().as_str().unwrap();
    assert!(message.starts_with("JSON Parse error: "));
}

#[test]
fn test_handle_request_encoding_failure() {
    let out = respond(&[0xff, 0xfe, b'a']);
    let envelope: Value = serde_json::from_str(&out).unwrap();
    let message = envelope.get("Err").unwrap().as_str().unwrap();
    assert!(message.starts_with("Encoding error: "));
}

#[test]
fn test_outputs_decode_under_codec() {
    let inputs: [&[u8]; 5] = [
        b"{\"plugh\":\"xyzzy\"}",
        b"{\"nope\":1}",
        b"{not json",
        &[0xff, 0xfe],
        b"null",
    ];
    for input in inputs {
        let out = respond(input);
        assert!(serde_json::from_str::<Value>(&out).is_ok());
    }

    // the fallback payload substituted on an output-encoding failure is
    // itself valid under the codec
    let fallback = fallback_envelope();
    assert!(serde_json::from_str::<Value>(&fallback).is_ok());
    assert_eq!(fallback, "{\"Err\":\"JSON encode error\"}");
}

#[test]
fn test_handle_request_multi_digit_length() {
    let out = respond(b"{\"plugh\":\"0123456789012\"}");
    assert_eq!(out, "{\"Ok\":\"plugh has length 13\"}");
}

#[test]
fn test_myfunc_direct() {
    let ok = myfunc("{\"plugh\":\"ab\"}").unwrap();
    assert_eq!(ok, "plugh has length 2");

    let err = myfunc("{\"plugh\":[]}").unwrap_err();
    assert_eq!(err, "plugh not present or not valid");

    let parse = myfunc("{").unwrap_err();
    assert!(parse.starts_with("JSON Parse error: "));
}

#[test]
fn test_handle_request_deterministic() {
    let inputs: [&[u8]; 4] = [b"{\"plugh\":\"xyzzy\"}", b"{\"nope\":1}", b"{not json", &[0xff]];
    for input in inputs {
        assert_eq!(respond(input), respond(input));
    }
}

#[test]
fn test_plugh_response_unit() {
    assert_eq!(
        plugh_response(Some("xyzzy")).unwrap(),
        "plugh has length 5"
    );
    assert_eq!(
        plugh_response(None).unwrap_err(),
        "plugh not present or not valid"
    );

    // the member's length is its byte length
    assert_eq!(
        plugh_response(Some("\u{e9}\u{e9}")).unwrap(),
        "plugh has length 4"
    );
}
