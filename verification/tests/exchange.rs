use agent_browser::codec::fits_base64;
use agent_browser::exchange::{
    acknowledged, content_reply, decoded, refusal, request_json, screenshot_reply, succeeded,
    text_or_complaint, title_reply, url_reply, Exchange,
};
use agent_browser::json::member_text;
use base64::engine::general_purpose::STANDARD;
use base64::Engine;
use serde_json::Value;

fn answered(status: u16, body: &[u8]) -> Exchange {
    Exchange::Answered { status, body: body.to_vec() }
}

#[test]
fn success_is_the_two_hundreds() {
    assert!(!succeeded(199));
    assert!(succeeded(200));
    assert!(succeeded(204));
    assert!(succeeded(299));
    assert!(!succeeded(300));
    assert!(!succeeded(404));
}

#[test]
fn successful_answers_give_their_body() {
    assert_eq!(request_json(answered(200, b"{\"a\":1}")), Ok(b"{\"a\":1}".to_vec()));
    assert_eq!(request_json(answered(204, b"")), Ok(Vec::new()));
}

#[test]
fn refusals_give_the_stated_error() {
    assert_eq!(
        request_json(answered(404, b"{\"error\":\"no such tab\"}")),
        Err("Camofox returned 404 Not Found: no such tab".to_string())
    );
}

#[test]
fn refusals_without_a_stated_error_give_the_answer() {
    assert_eq!(
        request_json(answered(500, b"{\"error\":7}")),
        Err("Camofox returned 500 Internal Server Error: {\"error\":7}".to_string())
    );
    assert_eq!(
        request_json(answered(502, b"oops")),
        Err("Camofox returned 502 Bad Gateway: oops".to_string())
    );
    assert_eq!(
        request_json(answered(503, b"[\"error\"]")),
        Err("Camofox returned 503 Service Unavailable: [\"error\"]".to_string())
    );
    assert_eq!(
        request_json(answered(599, b"a\xffb")),
        Err("Camofox returned 599 <unknown status code>: a\u{fffd}b".to_string())
    );
}

#[test]
fn failed_exchanges_are_reported() {
    assert_eq!(
        request_json(Exchange::SendFailed { error: "refused".to_string() }),
        Err("Camofox request failed: refused".to_string())
    );
    assert_eq!(
        request_json(Exchange::ReadFailed { error: "cut off".to_string() }),
        Err("Failed to read Camofox response: cut off".to_string())
    );
}

#[test]
fn refusal_prefers_the_error() {
    assert_eq!(
        refusal("400 Bad Request", Some("bad".to_string()), "raw".to_string()),
        "Camofox returned 400 Bad Request: bad"
    );
    assert_eq!(
        refusal("400 Bad Request", None, "raw".to_string()),
        "Camofox returned 400 Bad Request: raw"
    );
}

#[test]
fn acknowledgements_have_to_be_json() {
    assert_eq!(acknowledged(answered(200, b"{\"ok\":true}")), Ok(()));
    assert_eq!(acknowledged(answered(200, b"null")), Ok(()));
    let error = serde_json::from_slice::<Value>(b"<html>").unwrap_err().to_string();
    assert_eq!(
        acknowledged(answered(200, b"<html>")),
        Err(format!("Invalid Camofox response: {}", error))
    );
    assert_eq!(
        acknowledged(answered(401, b"{\"error\":\"key\"}")),
        Err("Camofox returned 401 Unauthorized: key".to_string())
    );
}

#[test]
fn decoding_errors_are_worded() {
    assert_eq!(decoded(Ok(3u8)), Ok(3u8));
    assert_eq!(
        decoded::<u8>(Err("missing field".to_string())),
        Err("Invalid Camofox response: missing field".to_string())
    );
}

#[test]
fn screenshots_are_base64() {
    assert_eq!(screenshot_reply(answered(200, b"hello world~")), Ok("aGVsbG8gd29ybGR+".to_string()));
    assert_eq!(screenshot_reply(answered(200, b"a")), Ok("YQ==".to_string()));
    assert_eq!(screenshot_reply(answered(200, b"")), Ok(String::new()));
    assert_eq!(
        screenshot_reply(answered(500, b"{\"error\":\"x\"}")),
        Err("Camofox screenshot failed with 500 Internal Server Error: {\"error\":\"x\"}".to_string())
    );
    assert_eq!(
        screenshot_reply(Exchange::ReadFailed { error: "cut off".to_string() }),
        Err("Failed to read Camofox screenshot: cut off".to_string())
    );
    assert_eq!(
        screenshot_reply(Exchange::SendFailed { error: "refused".to_string() }),
        Err("Camofox request failed: refused".to_string())
    );
}

#[test]
fn screenshots_decode_to_their_bytes() {
    let mut bytes: Vec<u8> = Vec::new();
    for b in 0..=255u8 {
        let encoded = screenshot_reply(answered(200, &bytes)).unwrap();
        assert_eq!(STANDARD.decode(&encoded), Ok(bytes.clone()));
        assert_eq!(encoded.len(), bytes.len().div_ceil(3) * 4);
        bytes.push(b.wrapping_mul(37));
    }
    assert_eq!(screenshot_reply(answered(200, &[0xfb, 0xff])), Ok("+/8=".to_string()));
}

#[test]
fn base64_has_to_fit_in_memory() {
    assert!(fits_base64(0));
    assert!(fits_base64(1_000_000));
    let groups = isize::MAX as usize / 4;
    assert!(fits_base64(groups * 3));
    assert!(!fits_base64(groups * 3 + 1));
    assert!(!fits_base64(usize::MAX));
}

#[test]
fn evaluated_texts_are_read() {
    let text = Value::String("about:blank".to_string());
    assert_eq!(url_reply(&text), Ok("about:blank".to_string()));
    assert_eq!(title_reply(&text), Ok("about:blank".to_string()));
    assert_eq!(content_reply(&text), Ok("about:blank".to_string()));
    assert_eq!(url_reply(&Value::Null), Err("Camofox returned a non-string URL".to_string()));
    assert_eq!(
        title_reply(&Value::Bool(true)),
        Err("Camofox returned a non-string title".to_string())
    );
    assert_eq!(
        content_reply(&Value::Array(Vec::new())),
        Err("Camofox returned non-string page content".to_string())
    );
    assert_eq!(text_or_complaint(Some("a"), "b"), Ok("a".to_string()));
    assert_eq!(text_or_complaint(None, "b"), Err("b".to_string()));
}

#[test]
fn members_are_looked_up() {
    let value: Value = serde_json::from_str("{\"a\":\"x\",\"b\":null}").unwrap();
    assert_eq!(member_text(&value, "a"), Some("x".to_string()));
    assert_eq!(member_text(&value, "b"), None);
    assert_eq!(member_text(&value, "c"), None);
    assert_eq!(member_text(&Value::String("a".to_string()), "a"), None);
}
