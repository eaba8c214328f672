use agent_browser::backend::BrowserBackend;
use agent_browser::camofox::{CamofoxBackend, CloseAction, CloseEvent, CreateTabResponse};
use agent_browser::exchange::{Exchange, Method};
use agent_browser::launch::{
    executable_name, resolve_camofox_executable, Launch, LaunchAction, LaunchError, PendingLaunch,
    SpawnPlan, StartupAction, StartupEvent,
};

fn attached(url: &str) -> CamofoxBackend {
    match CamofoxBackend::launch("s1", Some(url), Some("key".to_string())) {
        Launch::Attached(backend) => backend,
        Launch::Spawning(_) => panic!("not attached"),
    }
}

fn pending(configured: Option<&str>, key: Option<&str>) -> PendingLaunch {
    match CamofoxBackend::launch("s1", configured, key.map(|k| k.to_string())) {
        Launch::Attached(_) => panic!("attached"),
        Launch::Spawning(pending) => pending,
    }
}

fn spawned(key: Option<&str>, crash: bool) -> (SpawnPlan, CamofoxBackend) {
    pending(None, key).spawn(None, None, None, 9377, crash)
}

fn pairs(plan: &SpawnPlan) -> Vec<(&str, &str)> {
    plan.env.iter().map(|(k, v)| (k.as_str(), v.as_str())).collect()
}

#[test]
fn a_configured_server_is_attached_to() {
    let backend = attached("http://localhost:9377//");
    assert_eq!(backend.base_url(), "http://localhost:9377");
    assert!(!backend.owns_process());
    let request = backend.probe();
    assert_eq!(request.url, "http://localhost:9377/health");
    assert_eq!(request.bearer, Some("key".to_string()));
}

#[test]
fn blank_addresses_are_no_configuration() {
    pending(None, None);
    pending(Some(""), None);
    pending(Some(" \t"), None);
}

#[test]
fn a_spawned_server_is_owned_and_told_where_to_listen() {
    let (plan, backend) = spawned(Some("secret"), false);
    assert_eq!(plan.executable, "camofox-browser");
    assert_eq!(
        pairs(&plan),
        vec![
            ("CAMOFOX_BIND_HOST", "127.0.0.1"),
            ("CAMOFOX_PORT", "9377"),
            ("CAMOFOX_CRASH_REPORT_ENABLED", "false"),
            ("CAMOFOX_ACCESS_KEY", "secret"),
        ]
    );
    assert_eq!(backend.base_url(), "http://127.0.0.1:9377");
    assert!(backend.owns_process());
}

#[test]
fn configured_crash_reports_are_left_alone() {
    let (plan, _) = spawned(None, true);
    assert_eq!(pairs(&plan), vec![("CAMOFOX_BIND_HOST", "127.0.0.1"), ("CAMOFOX_PORT", "9377")]);
}

#[test]
fn launch_failures_are_worded() {
    let error = "e".to_string();
    assert_eq!(
        LaunchError::HttpClient { error: error.clone() }.message(),
        "Failed to create Camofox HTTP client: e"
    );
    assert_eq!(
        LaunchError::ReservePort { error: error.clone() }.message(),
        "Failed to reserve a Camofox port: e"
    );
    assert_eq!(
        LaunchError::ReadPort { error: error.clone() }.message(),
        "Failed to read reserved Camofox port: e"
    );
    assert_eq!(
        LaunchError::Spawn { executable: "x".to_string(), error }.message(),
        "Failed to launch Camofox with 'x': e. Install @askjo/camofox-browser or set AGENT_BROWSER_CAMOFOX_EXECUTABLE."
    );
}

#[test]
fn executables_are_chosen_in_order() {
    assert_eq!(resolve_camofox_executable(Some(""), Some("b"), Some("c")), "");
    assert_eq!(resolve_camofox_executable(Some("a"), Some("b"), Some("c")), "a");
    assert_eq!(resolve_camofox_executable(None, Some(" b "), Some("c")), " b ");
    assert_eq!(resolve_camofox_executable(None, Some(" "), Some("c")), "c");
    assert_eq!(resolve_camofox_executable(None, None, Some("c")), "c");
    assert_eq!(resolve_camofox_executable(None, Some(""), None), "camofox-browser");
}

#[test]
fn executables_have_an_ending_on_windows() {
    assert_eq!(executable_name("camofox-browser", true), "camofox-browser.cmd");
    assert_eq!(executable_name("camofox-browser", false), "camofox-browser");
}

#[test]
fn owned_processes_are_inspected_before_each_probe() {
    let (_, backend) = spawned(None, true);
    assert!(matches!(backend.wait_until_ready(StartupEvent::Started), StartupAction::Inspect));
    assert!(matches!(backend.wait_until_ready(StartupEvent::Paused), StartupAction::Inspect));
    match backend.wait_until_ready(StartupEvent::ProcessRunning) {
        StartupAction::Probe(request) => {
            assert_eq!(request.method, Method::Get);
            assert_eq!(request.url, "http://127.0.0.1:9377/health");
            assert!(request.body.is_none());
        }
        other => panic!("{:?}", other),
    }
}

#[test]
fn attached_servers_are_probed_at_once() {
    let backend = attached("http://h");
    assert!(matches!(backend.wait_until_ready(StartupEvent::Started), StartupAction::Probe(_)));
    assert!(matches!(backend.wait_until_ready(StartupEvent::Paused), StartupAction::Probe(_)));
}

#[test]
fn a_process_that_ends_ends_the_launch() {
    let (_, backend) = spawned(None, true);
    let exit_status = "exit status: 1".to_string();
    match backend.wait_until_ready(StartupEvent::ProcessExited { exit_status }) {
        StartupAction::GiveUp { complaint, stop } => {
            assert_eq!(complaint, "Camofox exited during startup with status exit status: 1");
            assert!(!stop);
        }
        other => panic!("{:?}", other),
    }
    match backend.wait_until_ready(StartupEvent::InspectFailed { error: "gone".to_string() }) {
        StartupAction::GiveUp { complaint, stop } => {
            assert_eq!(complaint, "Failed to inspect Camofox process: gone");
            assert!(!stop);
        }
        other => panic!("{:?}", other),
    }
}

#[test]
fn probes_are_repeated_until_the_time_is_up() {
    let (_, backend) = spawned(None, true);
    match backend.wait_until_ready(StartupEvent::Answered { status: 503, elapsed_millis: 29_999 }) {
        StartupAction::Pause { millis } => assert_eq!(millis, 100),
        other => panic!("{:?}", other),
    }
    match backend.wait_until_ready(StartupEvent::Unanswered { elapsed_millis: 30_000 }) {
        StartupAction::GiveUp { complaint, stop } => {
            assert_eq!(complaint, "Timed out waiting for Camofox at http://127.0.0.1:9377");
            assert!(stop);
        }
        other => panic!("{:?}", other),
    }
    match attached("http://h").wait_until_ready(StartupEvent::Unanswered { elapsed_millis: 30_000 }) {
        StartupAction::GiveUp { stop, .. } => assert!(!stop),
        other => panic!("{:?}", other),
    }
}

#[test]
fn a_late_success_is_a_success() {
    let backend = attached("http://h");
    let event = StartupEvent::Answered { status: 200, elapsed_millis: 60_000 };
    assert!(matches!(backend.wait_until_ready(event), StartupAction::Ready));
}

#[test]
fn the_tab_is_created_once_the_server_is_up() {
    let mut backend = attached("http://h");
    let event = StartupEvent::Answered { status: 200, elapsed_millis: 5 };
    match backend.continue_launch("s1", event) {
        LaunchAction::CreateTab(request) => {
            assert_eq!(request.method, Method::Post);
            assert_eq!(request.url, "http://h/tabs");
            assert_eq!(
                serde_json::Value::Object(request.body.unwrap()).to_string(),
                "{\"sessionKey\":\"s1\",\"userId\":\"agent-browser-s1\"}"
            );
        }
        other => panic!("{:?}", other),
    }
    let waiting = backend.continue_launch("s1", StartupEvent::Unanswered { elapsed_millis: 5 });
    assert!(matches!(waiting, LaunchAction::Wait(StartupAction::Pause { millis: 100 })));
    assert!(backend.close().is_none());
    backend.open_tab(CreateTabResponse { tab_id: "t9".to_string() });
    assert_eq!(backend.reload().url, "http://h/tabs/t9/refresh");
}

#[test]
fn the_chosen_executable_is_spawned() {
    let plan = pending(None, None).spawn(Some("/x/server"), Some("b"), Some("c"), 1, true).0;
    assert_eq!(plan.executable, "/x/server");
    let plan = pending(None, None).spawn(None, Some("  "), Some("c"), 1, true).0;
    assert_eq!(plan.executable, "c");
}

#[test]
fn a_process_is_given_up_once() {
    let (_, mut backend) = spawned(None, true);
    match backend.close_next(CloseEvent::Started) {
        CloseAction::StopServer { outcome } => assert_eq!(outcome, Ok(())),
        other => panic!("{:?}", other),
    }
    assert!(!backend.owns_process());
    match backend.close_next(CloseEvent::Started) {
        CloseAction::Finish { outcome } => assert_eq!(outcome, Ok(())),
        other => panic!("{:?}", other),
    }
}

#[test]
fn an_owned_server_is_stopped_after_the_session_whatever_that_gave() {
    let answers: Vec<(u16, &[u8], Result<(), String>)> = vec![
        (200, b"{}", Ok(())),
        (500, b"no", Err("Camofox returned 500 Internal Server Error: no".to_string())),
    ];
    for (status, body, expected) in answers {
        let (_, mut backend) = spawned(None, true);
        backend.open_tab(CreateTabResponse { tab_id: "t".to_string() });
        match backend.close_next(CloseEvent::Started) {
            CloseAction::EndSession(request) => assert_eq!(request.method, Method::Delete),
            other => panic!("{:?}", other),
        }
        assert!(backend.owns_process());
        let ended = Exchange::Answered { status, body: body.to_vec() };
        let outcome = match backend.close_next(CloseEvent::SessionEnded(ended)) {
            CloseAction::StopServer { outcome } => outcome,
            other => panic!("{:?}", other),
        };
        assert_eq!(outcome, expected);
        assert!(!backend.owns_process());
        match backend.close_next(CloseEvent::ServerStopped { outcome }) {
            CloseAction::Finish { outcome } => assert_eq!(outcome, expected),
            other => panic!("{:?}", other),
        }
    }
}

#[test]
fn a_launch_that_fails_leaves_only_a_spawned_server_to_stop() {
    let (_, mut backend) = spawned(None, true);
    let failed = backend.wait_until_ready(StartupEvent::InspectFailed { error: "x".to_string() });
    assert!(matches!(failed, StartupAction::GiveUp { stop: false, .. }));
    assert!(backend.release());
    assert!(!backend.release());
    let mut backend = attached("http://h");
    let failed = backend.wait_until_ready(StartupEvent::Unanswered { elapsed_millis: 30_000 });
    assert!(matches!(failed, StartupAction::GiveUp { stop: false, .. }));
    assert!(!backend.release());
}

#[test]
fn a_closed_backend_has_nothing_to_stop() {
    let (_, mut backend) = spawned(None, true);
    assert!(matches!(backend.close_next(CloseEvent::Started), CloseAction::StopServer { .. }));
    assert!(!backend.release());
}
