use agent_browser::backend::{type_supports, unsupported, BrowserBackend};
use agent_browser::webdriver::{
    ClientCall, Interaction, Progress, Step, WebDriverBackend, WEBDRIVER_UNSUPPORTED_ACTIONS,
};

fn single(call: ClientCall) -> Step {
    Step { call, rest: Interaction::Last }
}

fn find(selector: &str, rest: Interaction) -> Step {
    let call = ClientCall::FindElement {
        using: "css selector".to_string(),
        value: selector.to_string(),
    };
    Step { call, rest }
}

#[test]
fn test_unsupported_actions() {
    assert!(WEBDRIVER_UNSUPPORTED_ACTIONS.contains(&"screencast_start"));
    assert!(WEBDRIVER_UNSUPPORTED_ACTIONS.contains(&"trace_start"));
    assert!(!WEBDRIVER_UNSUPPORTED_ACTIONS.contains(&"navigate"));
}

#[test]
fn unsupported_actions_are_fourteen() {
    assert_eq!(WEBDRIVER_UNSUPPORTED_ACTIONS.len(), 14);
    assert_eq!(WEBDRIVER_UNSUPPORTED_ACTIONS[13], "har_stop");
}

#[test]
fn the_client_is_kept() {
    assert_eq!(*WebDriverBackend::new(7u8).client(), 7);
}

#[test]
fn operations_are_single_calls() {
    let backend = WebDriverBackend::new(());
    let url = "http://example.com".to_string();
    assert_eq!(backend.navigate(&url), single(ClientCall::Navigate { url: url.clone() }));
    assert_eq!(backend.get_url(), single(ClientCall::GetUrl));
    assert_eq!(backend.get_title(), single(ClientCall::GetTitle));
    assert_eq!(backend.get_content(), single(ClientCall::GetPageSource));
    let script = "return 1".to_string();
    assert_eq!(backend.evaluate(&script), single(ClientCall::ExecuteScript { script: script.clone() }));
    assert_eq!(backend.screenshot(), single(ClientCall::Screenshot));
    assert_eq!(backend.close(), Some(single(ClientCall::DeleteSession)));
    assert_eq!(backend.back(), single(ClientCall::Back));
    assert_eq!(backend.forward(), single(ClientCall::Forward));
    assert_eq!(backend.reload(), single(ClientCall::Refresh));
    assert_eq!(backend.get_cookies(), Ok(single(ClientCall::GetCookies)));
    assert_eq!(Interaction::Last.advance(Ok("x".to_string())), Progress::Finished);
}

#[test]
fn clicking_finds_then_clicks() {
    let step = WebDriverBackend::new(()).click("#go");
    assert_eq!(step, find("#go", Interaction::Click));
    assert_eq!(
        step.rest.advance(Ok("id1".to_string())),
        Progress::Next(single(ClientCall::ClickElement { element_id: "id1".to_string() }))
    );
}

#[test]
fn filling_finds_clears_and_types() {
    let element_id = "id1".to_string();
    let text = "hi".to_string();
    let step = WebDriverBackend::new(()).fill("input", "hi");
    assert_eq!(step, find("input", Interaction::Fill { text: text.clone() }));
    let next = match step.rest.advance(Ok(element_id.clone())) {
        Progress::Next(next) => next,
        other => panic!("{:?}", other),
    };
    assert_eq!(next.call, ClientCall::ClearElement { element_id: element_id.clone() });
    assert_eq!(
        next.rest.advance(Ok("ignored".to_string())),
        Progress::Next(single(ClientCall::SendKeys { element_id, text }))
    );
}

#[test]
fn a_failed_call_ends_the_operation() {
    let error = "no such element".to_string();
    let states = vec![
        Interaction::Click,
        Interaction::Fill { text: "t".to_string() },
        Interaction::Entering { element_id: "i".to_string(), text: "t".to_string() },
        Interaction::Last,
    ];
    for state in states {
        assert_eq!(state.advance(Err(error.clone())), Progress::Failed { error: error.clone() });
    }
}

#[test]
fn features_depend_on_the_type() {
    let backend = WebDriverBackend::new(());
    for feature in ["navigate", "evaluate", "screenshot", "click", "fill"] {
        assert!(backend.supports(feature));
    }
    for feature in ["screencast", "tracing", "network_intercept", "cdp", "", "Navigate", "type"] {
        assert!(!backend.supports(feature));
    }
    assert_eq!(backend.backend_type(), "webdriver");
    assert_eq!(
        backend.snapshot(),
        Err("Action 'snapshot' is not supported on the webdriver backend".to_string())
    );
    assert_eq!(
        backend.unsupported_error("route"),
        "Action 'route' is not supported on the webdriver backend"
    );
}

#[test]
fn cdp_backends_support_cdp_features() {
    for feature in ["screencast", "tracing", "network_intercept", "cdp", "fill"] {
        assert!(type_supports("cdp", feature));
    }
    assert!(!type_supports("cdp", "cookies"));
    assert!(!type_supports("camofox", "tracing"));
    assert_eq!(unsupported("cdp", "x"), "Action 'x' is not supported on the cdp backend");
}
