use agent_browser::backend::BrowserBackend;
use agent_browser::camofox::{
    snapshot_reply, CamofoxBackend, CloseAction, CloseEvent, CreateTabResponse, SnapshotResponse,
};
use agent_browser::exchange::{Exchange, Method, Request};
use agent_browser::launch::Launch;
use serde_json::Value;

fn backend_of(session: &str) -> CamofoxBackend {
    match CamofoxBackend::launch(session, Some("http://h:1/"), Some("key".to_string())) {
        Launch::Attached(mut backend) => {
            backend.open_tab(CreateTabResponse { tab_id: "t1".to_string() });
            backend
        }
        Launch::Spawning(_) => panic!("not attached"),
    }
}

fn check(request: Request, method: Method, url: &str, body: Option<&str>) {
    assert_eq!(request.method, method);
    assert_eq!(request.url, url);
    assert_eq!(request.bearer, Some("key".to_string()));
    let expected = body.map(|text| serde_json::from_str::<Value>(text).unwrap());
    assert_eq!(request.body.map(Value::Object), expected);
}

#[test]
fn operations_post_to_the_tab() {
    let backend = backend_of("s");
    check(
        backend.navigate("http://example.com/?a=b"),
        Method::Post,
        "http://h:1/tabs/t1/navigate",
        Some("{\"userId\":\"agent-browser-s\",\"url\":\"http://example.com/?a=b\"}"),
    );
    check(
        backend.evaluate("1+1"),
        Method::Post,
        "http://h:1/tabs/t1/evaluate",
        Some("{\"userId\":\"agent-browser-s\",\"expression\":\"1+1\"}"),
    );
    let user = Some("{\"userId\":\"agent-browser-s\"}");
    check(backend.back(), Method::Post, "http://h:1/tabs/t1/back", user);
    check(backend.forward(), Method::Post, "http://h:1/tabs/t1/forward", user);
    check(backend.reload(), Method::Post, "http://h:1/tabs/t1/refresh", user);
}

#[test]
fn page_facts_are_evaluated() {
    let backend = backend_of("s");
    let url = "http://h:1/tabs/t1/evaluate";
    check(
        backend.get_url(),
        Method::Post,
        url,
        Some("{\"userId\":\"agent-browser-s\",\"expression\":\"location.href\"}"),
    );
    check(
        backend.get_title(),
        Method::Post,
        url,
        Some("{\"userId\":\"agent-browser-s\",\"expression\":\"document.title\"}"),
    );
    check(
        backend.get_content(),
        Method::Post,
        url,
        Some("{\"userId\":\"agent-browser-s\",\"expression\":\"document.documentElement.outerHTML\"}"),
    );
}

#[test]
fn the_user_is_percent_encoded_in_addresses() {
    let backend = backend_of("a b/\u{e9}~");
    let user = "agent-browser-a%20b%2F%C3%A9~";
    check(
        backend.screenshot(),
        Method::Get,
        &format!("http://h:1/tabs/t1/screenshot?userId={}", user),
        None,
    );
    check(
        backend.snapshot().unwrap(),
        Method::Get,
        &format!("http://h:1/tabs/t1/snapshot?userId={}", user),
        None,
    );
    check(
        backend.close().unwrap(),
        Method::Delete,
        &format!("http://h:1/sessions/{}", user),
        None,
    );
}

#[test]
fn elements_are_named_by_ref_or_selector() {
    let backend = backend_of("s");
    let by_ref = "{\"userId\":\"agent-browser-s\",\"ref\":\"e12\"}";
    check(backend.click("e12"), Method::Post, "http://h:1/tabs/t1/click", Some(by_ref));
    check(backend.click("@e12"), Method::Post, "http://h:1/tabs/t1/click", Some(by_ref));
    check(
        backend.click("@email"),
        Method::Post,
        "http://h:1/tabs/t1/click",
        Some("{\"userId\":\"agent-browser-s\",\"selector\":\"@email\"}"),
    );
    check(
        backend.click("#go"),
        Method::Post,
        "http://h:1/tabs/t1/click",
        Some("{\"userId\":\"agent-browser-s\",\"selector\":\"#go\"}"),
    );
}

#[test]
fn filling_adds_the_text_and_the_mode() {
    let backend = backend_of("s");
    check(
        backend.fill("@e3", "hello"),
        Method::Post,
        "http://h:1/tabs/t1/type",
        Some("{\"userId\":\"agent-browser-s\",\"ref\":\"e3\",\"text\":\"hello\",\"mode\":\"fill\"}"),
    );
    check(
        backend.fill("input", ""),
        Method::Post,
        "http://h:1/tabs/t1/type",
        Some("{\"userId\":\"agent-browser-s\",\"selector\":\"input\",\"text\":\"\",\"mode\":\"fill\"}"),
    );
}

#[test]
fn unsupported_operations_complain() {
    let backend = backend_of("s");
    let cookies = backend.get_cookies().map(|_| ());
    assert_eq!(
        cookies,
        Err("Action 'cookies_get' is not supported on the camofox backend".to_string())
    );
    assert_eq!(
        backend.type_text("a", "b", true, Some(3)).map(|_| ()),
        Err("Action 'type' is not supported on the camofox backend".to_string())
    );
    assert_eq!(
        backend.press("Enter").map(|_| ()),
        Err("Action 'press' is not supported on the camofox backend".to_string())
    );
    assert_eq!(
        backend.scroll().map(|_| ()),
        Err("Action 'scroll' is not supported on the camofox backend".to_string())
    );
    assert_eq!(backend.backend_type(), "camofox");
}

#[test]
fn snapshots_are_normalized() {
    let snapshot = snapshot_reply(SnapshotResponse {
        url: "http://example.com".to_string(),
        snapshot: "- link [e1]".to_string(),
    });
    assert_eq!(snapshot.snapshot, "- link [@e1]");
    assert_eq!(snapshot.origin, "http://example.com");
    assert!(snapshot.refs.is_empty());
    let mut other = snapshot.clone();
    assert_eq!(other, snapshot);
    other.refs.insert("e1".to_string(), Value::Null);
    assert_eq!(other.clone(), other);
    assert_ne!(other, snapshot);
}

#[test]
fn shown_refs_work_as_selectors() {
    let shown = snapshot_reply(SnapshotResponse {
        url: String::new(),
        snapshot: "x [e45]".to_string(),
    })
    .snapshot;
    let inside = &shown[shown.find('[').unwrap() + 1..shown.find(']').unwrap()];
    let payload = backend_of("s").selector_payload(inside);
    assert_eq!(payload.get("ref"), Some(&Value::String("e45".to_string())));
}

#[test]
fn closing_reports_what_ending_the_session_gave() {
    let mut backend = backend_of("s");
    let ended = Exchange::Answered { status: 200, body: b"{}".to_vec() };
    match backend.close_next(CloseEvent::SessionEnded(ended)) {
        CloseAction::Finish { outcome } => assert_eq!(outcome, Ok(())),
        other => panic!("{:?}", other),
    }
    let ended = Exchange::Answered { status: 404, body: b"gone".to_vec() };
    match backend.close_next(CloseEvent::SessionEnded(ended)) {
        CloseAction::Finish { outcome } => {
            assert_eq!(outcome, Err("Camofox returned 404 Not Found: gone".to_string()));
        }
        other => panic!("{:?}", other),
    }
}

#[test]
fn bodies_are_sent_as_they_are() {
    let mut object = serde_json::Map::new();
    object.insert("n".to_string(), Value::from(7));
    object.insert("b".to_string(), Value::Bool(true));
    let request = backend_of("s").request(Method::Post, "/x", Some(object.clone()));
    assert_eq!(request.body, Some(object));
}

#[test]
fn different_sessions_end_differently() {
    let a = backend_of("a").close().unwrap();
    let b = backend_of("b").close().unwrap();
    assert_ne!(a.url, b.url);
}

#[test]
fn liveness_is_having_an_address() {
    let backend = backend_of("s");
    assert!(backend.is_alive(&Ok("about:blank".to_string())));
    assert!(!backend.is_alive(&Err("gone".to_string())));
}
