//! What a caller can rely on: for every operation, what it gives for what it is
//! given, in plain text.
use crate::backend;
use crate::backend::{BackendSnapshot, BrowserBackend};
use crate::camofox;
use crate::camofox::{
    CamofoxBackend, CloseAction, CloseEvent, CreateTabResponse, SnapshotResponse,
};
use crate::codec;
use crate::exchange;
use crate::exchange::{Exchange, Method, Request};
use crate::json;
use crate::launch;
use crate::launch::{
    Launch, LaunchAction, LaunchError, PendingLaunch, SpawnPlan, StartupAction, StartupEvent,
};
use crate::refs;
use crate::text;
use crate::webdriver;
use crate::webdriver::{ClientCall, Interaction, Progress, Step, WebDriverBackend};
use vstd::prelude::*;
use vstd::string::*;
use vstd::utf8::*;

verus! {

/// The request goes to the backend's own server, with the backend's access key
/// as its bearer token, and without a token where there is no key.
pub open spec fn is_sent(
    request: Request,
    backend: CamofoxBackend,
    method: Method,
    path: Seq<char>,
) -> bool {
    &&& request.method == method
    &&& request.url@ == backend@.base_url + path
    &&& match backend@.access_key {
        Some(key) => request.bearer matches Some(token) && token@ == key,
        None => request.bearer is None,
    }
}

/// The request's body is the JSON object of these members, and nothing else.
pub open spec fn has_body(request: Request, members: Map<Seq<char>, json::Json>) -> bool {
    request.body matches Some(object) && json::members(object) == members
}

/// A request has the method and the body that were asked for, and goes to the
/// path that was asked for on the backend's server.
pub proof fn a_request_is_sent_as_asked(
    backend: &CamofoxBackend,
    method: Method,
    path: &str,
    body: Option<serde_json::Map<String, serde_json::Value>>,
    request: Request,
)
    requires
        call_ensures(CamofoxBackend::request, (backend, method, path, body), request),
    ensures
        is_sent(request, *backend, method, path@),
        request.body == body,
{
}

/// The probe asks the server for its health, without a body.
pub proof fn a_probe_asks_for_health(backend: &CamofoxBackend, request: Request)
    requires
        call_ensures(CamofoxBackend::probe, (backend,), request),
    ensures
        is_sent(request, *backend, Method::Get, "/health"@),
        request.body is None,
{
}

/// A tab is created for the backend's user under the key of the session.
pub proof fn a_tab_is_created_for_the_session(
    backend: &CamofoxBackend,
    session_id: &str,
    request: Request,
)
    requires
        call_ensures(CamofoxBackend::create_tab, (backend, session_id), request),
    ensures
        is_sent(request, *backend, Method::Post, "/tabs"@),
        has_body(
            request,
            map![
                "userId"@ => json::Json::Text(backend@.user_id),
                "sessionKey"@ => json::Json::Text(session_id@),
            ],
        ),
{
}

/// The tab that the server has created is the one that the backend works in
/// from then on; nothing else of the backend changes.
pub proof fn the_created_tab_is_the_open_one(
    backend: &mut CamofoxBackend,
    created: CreateTabResponse,
)
    requires
        call_ensures(CamofoxBackend::open_tab, (backend, created), ()),
    ensures
        final(backend)@.tab_id == created.tab_id@,
        final(backend)@.base_url == old(backend)@.base_url,
        final(backend)@.user_id == old(backend)@.user_id,
        final(backend)@.access_key == old(backend)@.access_key,
        final(backend)@.owns_process == old(backend)@.owns_process,
{
}

/// Navigating posts exactly the address that was asked for to the open tab.
pub proof fn navigating_goes_to_the_address(backend: &CamofoxBackend, url: &str, request: Request)
    requires
        call_ensures(CamofoxBackend::navigate, (backend, url), request),
    ensures
        is_sent(
            request,
            *backend,
            Method::Post,
            "/tabs/"@ + backend@.tab_id + "/navigate"@,
        ),
        has_body(
            request,
            map![
                "userId"@ => json::Json::Text(backend@.user_id),
                "url"@ => json::Json::Text(url@),
            ],
        ),
{
}

/// The request has the open tab evaluate exactly this expression.
pub open spec fn evaluates(request: Request, backend: CamofoxBackend, expression: Seq<char>) -> bool {
    &&& is_sent(request, backend, Method::Post, "/tabs/"@ + backend@.tab_id + "/evaluate"@)
    &&& has_body(
        request,
        map![
            "userId"@ => json::Json::Text(backend@.user_id),
            "expression"@ => json::Json::Text(expression),
        ],
    )
}

/// A script is evaluated as it is, whichever way it is asked for.
pub proof fn scripts_are_evaluated_as_they_are(
    backend: &CamofoxBackend,
    script: &str,
    evaluated: Request,
    read: Request,
)
    requires
        call_ensures(CamofoxBackend::evaluate, (backend, script), evaluated),
        call_ensures(CamofoxBackend::evaluate_value, (backend, script), read),
    ensures
        evaluates(evaluated, *backend, script@),
        evaluates(read, *backend, script@),
{
}

/// The page's address, title and source are each what an expression of the page
/// gives.
pub proof fn page_facts_are_expressions(
    backend: &CamofoxBackend,
    address: Request,
    title: Request,
    source: Request,
)
    requires
        call_ensures(CamofoxBackend::get_url, (backend,), address),
        call_ensures(CamofoxBackend::get_title, (backend,), title),
        call_ensures(CamofoxBackend::get_content, (backend,), source),
    ensures
        evaluates(address, *backend, "location.href"@),
        evaluates(title, *backend, "document.title"@),
        evaluates(source, *backend, "document.documentElement.outerHTML"@),
{
}

/// A screenshot and a snapshot are asked for without a body, and the query names
/// the user, percent-encoded, whoever that is.
pub proof fn page_images_are_asked_for_in_the_users_name(
    backend: &CamofoxBackend,
    screenshot: Request,
    snapshot: Result<Request, String>,
)
    requires
        call_ensures(CamofoxBackend::screenshot, (backend,), screenshot),
        call_ensures(CamofoxBackend::snapshot, (backend,), snapshot),
    ensures
        is_sent(
            screenshot,
            *backend,
            Method::Get,
            "/tabs/"@ + backend@.tab_id + "/screenshot"@ + "?userId="@ + codec::percent_encoded(
                backend@.user_id,
            ),
        ),
        screenshot.body is None,
        snapshot matches Ok(request) && request.body is None && is_sent(
            request,
            *backend,
            Method::Get,
            "/tabs/"@ + backend@.tab_id + "/snapshot"@ + "?userId="@ + codec::percent_encoded(
                backend@.user_id,
            ),
        ),
{
}

/// An action that needs nothing but its name is posted under that name, and its
/// body names the user only. Going back, going forward and reloading are such
/// actions.
pub proof fn plain_actions_are_posted_under_their_names(
    backend: &CamofoxBackend,
    action: &str,
    posted: Request,
    back: Request,
    forward: Request,
    reload: Request,
)
    requires
        call_ensures(CamofoxBackend::post_tab_action, (backend, action), posted),
        call_ensures(CamofoxBackend::back, (backend,), back),
        call_ensures(CamofoxBackend::forward, (backend,), forward),
        call_ensures(CamofoxBackend::reload, (backend,), reload),
    ensures
        is_sent(posted, *backend, Method::Post, "/tabs/"@ + backend@.tab_id + action@),
        is_sent(back, *backend, Method::Post, "/tabs/"@ + backend@.tab_id + "/back"@),
        is_sent(forward, *backend, Method::Post, "/tabs/"@ + backend@.tab_id + "/forward"@),
        is_sent(reload, *backend, Method::Post, "/tabs/"@ + backend@.tab_id + "/refresh"@),
        has_body(posted, map!["userId"@ => json::Json::Text(backend@.user_id)]),
        has_body(back, map!["userId"@ => json::Json::Text(backend@.user_id)]),
        has_body(forward, map!["userId"@ => json::Json::Text(backend@.user_id)]),
        has_body(reload, map!["userId"@ => json::Json::Text(backend@.user_id)]),
{
}

/// The selector names the element of the reference, with or without an `@`.
pub open spec fn is_selector_of(selector: Seq<char>, name: Seq<char>) -> bool {
    refs::is_ref(name) && (selector == name || selector == "@"@ + name)
}

proof fn lemma_selector_of(selector: Seq<char>, name: Seq<char>)
    ensures
        is_selector_of(selector, name) ==> refs::is_ref(refs::without_at(selector))
            && refs::without_at(selector) == name,
        refs::is_ref(refs::without_at(selector)) ==> is_selector_of(
            selector,
            refs::without_at(selector),
        ),
{
    reveal_strlit("@");
    if selector == "@"@ + name {
        assert(selector.skip(1) == name);
    }
    if selector.len() > 0 && selector[0] == '@' {
        assert(selector == "@"@ + selector.skip(1));
    }
}

/// The reference that a selector names is found exactly where there is one, and
/// it is that reference, without the `@`.
pub proof fn selectors_name_refs_with_or_without_at(
    selector: &str,
    name: Seq<char>,
    found: Option<String>,
)
    requires
        call_ensures(refs::referenced, (selector,), found),
    ensures
        is_selector_of(selector@, name) ==> (found matches Some(inner) && inner@ == name),
        found matches Some(inner) ==> is_selector_of(selector@, inner@),
{
    lemma_selector_of(selector@, name);
}

/// A text is found to be a reference exactly where it is `e` and digits.
pub proof fn refs_are_recognized(value: &str, found: bool)
    requires
        call_ensures(refs::is_camofox_ref, (value,), found),
    ensures
        found <==> {
            &&& value@.len() >= 2
            &&& value@[0] == 'e'
            &&& forall|i: int|
                1 <= i < value@.len() ==> set![
                    '0', '1', '2', '3', '4', '5', '6', '7', '8', '9',
                ].contains(#[trigger] value@[i])
        },
{
    refs::refs_are_e_and_digits(value@);
}

/// A selector of a reference is sent as that reference, without the `@`.
pub proof fn refs_are_clicked_and_filled_by_their_names(
    backend: &CamofoxBackend,
    selector: &str,
    name: Seq<char>,
    value: &str,
    payload: serde_json::Map<String, serde_json::Value>,
    clicked: Request,
    filled: Request,
)
    requires
        is_selector_of(selector@, name),
        call_ensures(CamofoxBackend::selector_payload, (backend, selector), payload),
        call_ensures(CamofoxBackend::click, (backend, selector), clicked),
        call_ensures(CamofoxBackend::fill, (backend, selector, value), filled),
    ensures
        json::members(payload) == map![
            "userId"@ => json::Json::Text(backend@.user_id),
            "ref"@ => json::Json::Text(name),
        ],
        has_body(
            clicked,
            map![
                "userId"@ => json::Json::Text(backend@.user_id),
                "ref"@ => json::Json::Text(name),
            ],
        ),
        has_body(
            filled,
            map![
                "userId"@ => json::Json::Text(backend@.user_id),
                "ref"@ => json::Json::Text(name),
                "text"@ => json::Json::Text(value@),
                "mode"@ => json::Json::Text("fill"@),
            ],
        ),
{
    lemma_selector_of(selector@, name);
}

/// A selector that names no reference is sent as it is.
pub proof fn other_elements_are_clicked_and_filled_by_their_selectors(
    backend: &CamofoxBackend,
    selector: &str,
    value: &str,
    payload: serde_json::Map<String, serde_json::Value>,
    clicked: Request,
    filled: Request,
)
    requires
        forall|name: Seq<char>| !#[trigger] is_selector_of(selector@, name),
        call_ensures(CamofoxBackend::selector_payload, (backend, selector), payload),
        call_ensures(CamofoxBackend::click, (backend, selector), clicked),
        call_ensures(CamofoxBackend::fill, (backend, selector, value), filled),
    ensures
        json::members(payload) == map![
            "userId"@ => json::Json::Text(backend@.user_id),
            "selector"@ => json::Json::Text(selector@),
        ],
        has_body(
            clicked,
            map![
                "userId"@ => json::Json::Text(backend@.user_id),
                "selector"@ => json::Json::Text(selector@),
            ],
        ),
        has_body(
            filled,
            map![
                "userId"@ => json::Json::Text(backend@.user_id),
                "selector"@ => json::Json::Text(selector@),
                "text"@ => json::Json::Text(value@),
                "mode"@ => json::Json::Text("fill"@),
            ],
        ),
{
    lemma_selector_of(selector@, refs::without_at(selector@));
}

/// Whatever the selector and the text are, a click is posted as a click and a
/// fill as a typing.
pub proof fn clicks_are_clicks_and_fills_are_typings(
    backend: &CamofoxBackend,
    selector: &str,
    value: &str,
    clicked: Request,
    filled: Request,
)
    requires
        call_ensures(CamofoxBackend::click, (backend, selector), clicked),
        call_ensures(CamofoxBackend::fill, (backend, selector, value), filled),
    ensures
        is_sent(clicked, *backend, Method::Post, "/tabs/"@ + backend@.tab_id + "/click"@),
        is_sent(filled, *backend, Method::Post, "/tabs/"@ + backend@.tab_id + "/type"@),
{
}

/// A snapshot keeps the page's address, lists no references, and shows the text
/// with its references marked.
pub proof fn snapshots_are_shown_with_their_refs_marked(
    response: SnapshotResponse,
    snapshot: BackendSnapshot,
    before: Seq<char>,
    digits: Seq<char>,
    after: Seq<char>,
)
    requires
        call_ensures(camofox::snapshot_reply, (response,), snapshot),
    ensures
        snapshot.origin@ == response.url@,
        json::members(snapshot.refs) == Map::<Seq<char>, json::Json>::empty(),
        snapshot.snapshot@ == refs::normalized(response.snapshot@),
        digits.len() > 0 && (forall|i: int|
            0 <= i < digits.len() ==> set![
                '0', '1', '2', '3', '4', '5', '6', '7', '8', '9',
            ].contains(#[trigger] digits[i])) && response.snapshot@ == before + "[e"@ + digits
            + "]"@ + after ==> snapshot.snapshot@ == refs::normalized(before) + "[@e"@ + digits
            + "]"@ + refs::normalized(after),
{
    if digits.len() > 0 && (forall|i: int|
        0 <= i < digits.len() ==> set![
            '0', '1', '2', '3', '4', '5', '6', '7', '8', '9',
        ].contains(#[trigger] digits[i])) {
        refs::a_ref_is_marked_wherever_it_stands(before, digits, after);
    }
}

/// A snapshot of one element is shown as that element with its number marked,
/// whatever the number; a click on what is shown names that element.
pub proof fn a_shown_number_can_be_clicked(
    backend: &CamofoxBackend,
    n: nat,
    snapshot: &str,
    shown: String,
    selector: &str,
    clicked: Request,
)
    requires
        snapshot@ == "[e"@ + text::decimal(n) + "]"@,
        call_ensures(refs::normalize_snapshot_refs, (snapshot,), shown),
        shown@ == "["@ + selector@ + "]"@,
        call_ensures(CamofoxBackend::click, (backend, selector), clicked),
    ensures
        shown@ == "[@e"@ + text::decimal(n) + "]"@,
        has_body(
            clicked,
            map![
                "userId"@ => json::Json::Text(backend@.user_id),
                "ref"@ => json::Json::Text("e"@ + text::decimal(n)),
            ],
        ),
{
    reveal_strlit("[e");
    reveal_strlit("[@e");
    reveal_strlit("[");
    reveal_strlit("]");
    reveal_strlit("@");
    reveal_strlit("e");
    let none = Seq::<char>::empty();
    let name = "e"@ + text::decimal(n);
    text::decimal_is_made_of_digits(n);
    refs::e_and_a_number_is_a_ref(n);
    refs::a_ref_is_marked_wherever_it_stands(none, text::decimal(n), none);
    assert(none + "[e"@ + text::decimal(n) + "]"@ + none == snapshot@);
    assert(refs::normalized(none) == none);
    assert(none + "[@e"@ + text::decimal(n) + "]"@ + none == "[@e"@ + text::decimal(n) + "]"@);
    assert(name == seq!['e'] + text::decimal(n));
    assert(shown@.subrange(1, shown@.len() - 1) == selector@);
    assert(shown@.subrange(1, shown@.len() - 1) == "@"@ + name);
    lemma_selector_of(selector@, name);
}

/// A copy of a snapshot says the same.
pub proof fn a_copied_snapshot_says_the_same(snapshot: &BackendSnapshot, copy: BackendSnapshot)
    requires
        call_ensures(BackendSnapshot::clone, (snapshot,), copy),
    ensures
        copy.snapshot@ == snapshot.snapshot@,
        copy.origin@ == snapshot.origin@,
        json::members(copy.refs) == json::members(snapshot.refs),
{
}

/// Ending the session deletes the user's session on the server, without a body,
/// where a tab is open; where none is, there is nothing to end.
pub proof fn the_session_of_an_open_tab_is_deleted(
    backend: &CamofoxBackend,
    planned: Option<Request>,
)
    requires
        call_ensures(CamofoxBackend::close, (backend,), planned),
    ensures
        planned is None <==> backend@.tab_id.len() == 0,
        planned matches Some(request) ==> request.body is None && is_sent(
            request,
            *backend,
            Method::Delete,
            "/sessions/"@ + codec::percent_encoded(backend@.user_id),
        ),
{
}

/// Giving the server up says to stop it exactly where it is the backend's own,
/// and the backend has no server of its own from then on. Nothing else of the
/// backend changes.
pub proof fn a_server_is_given_up_once(backend: &mut CamofoxBackend, stop: bool)
    requires
        call_ensures(CamofoxBackend::release, (backend,), stop),
    ensures
        stop == old(backend)@.owns_process,
        !final(backend)@.owns_process,
        final(backend)@.base_url == old(backend)@.base_url,
        final(backend)@.user_id == old(backend)@.user_id,
        final(backend)@.tab_id == old(backend)@.tab_id,
        final(backend)@.access_key == old(backend)@.access_key,
{
}

/// What the backend says of itself is what it was set up with.
pub proof fn a_backend_knows_its_server(backend: &CamofoxBackend, owned: bool, url: &str)
    requires
        call_ensures(CamofoxBackend::owns_process, (backend,), owned),
        call_ensures(CamofoxBackend::base_url, (backend,), url),
    ensures
        owned == backend@.owns_process,
        url@ == backend@.base_url,
{
}

/// Two outcomes are both success, or both the same complaint.
pub open spec fn same_outcome(outcome: Result<(), String>, other: Result<(), String>) -> bool {
    match outcome {
        Ok(_) => other is Ok,
        Err(complaint) => other matches Err(repeated) && repeated@ == complaint@,
    }
}

/// Once there is no session to end, a server of the backend's own is stopped,
/// and any other closing is over. Either hands the outcome on.
pub open spec fn stops_or_finishes(
    owned: bool,
    action: CloseAction,
    outcome: Result<(), String>,
) -> bool {
    if owned {
        action matches CloseAction::StopServer { outcome: handed_on } && same_outcome(
            outcome,
            handed_on,
        )
    } else {
        action matches CloseAction::Finish { outcome: handed_on } && same_outcome(
            outcome,
            handed_on,
        )
    }
}

/// A closing begins with ending the session where a tab is open. What ending it
/// gave is handed on to the end, past the stopping of a server of the backend's
/// own. A server that is to be stopped is the backend's own no more, and nothing
/// else of the backend changes.
pub proof fn a_closing_goes_from_the_session_to_the_server(
    backend: &mut CamofoxBackend,
    event: CloseEvent,
    action: CloseAction,
    planned: Option<Request>,
    acknowledged: Result<(), String>,
)
    requires
        call_ensures(CamofoxBackend::close_next, (backend, event), action),
        event matches CloseEvent::SessionEnded(ended) ==> call_ensures(
            exchange::acknowledged,
            (ended,),
            acknowledged,
        ),
    ensures
        match event {
            CloseEvent::Started => if old(backend)@.tab_id.len() > 0 {
                action matches CloseAction::EndSession(request) && request.body is None && is_sent(
                    request,
                    *old(backend),
                    Method::Delete,
                    "/sessions/"@ + codec::percent_encoded(old(backend)@.user_id),
                )
            } else {
                stops_or_finishes(old(backend)@.owns_process, action, Ok(()))
            },
            CloseEvent::SessionEnded(_) => stops_or_finishes(
                old(backend)@.owns_process,
                action,
                acknowledged,
            ),
            CloseEvent::ServerStopped { outcome } => stops_or_finishes(false, action, outcome),
        },
        final(backend)@.owns_process == (old(backend)@.owns_process && !(action is StopServer)),
        final(backend)@.base_url == old(backend)@.base_url,
        final(backend)@.user_id == old(backend)@.user_id,
        final(backend)@.tab_id == old(backend)@.tab_id,
        final(backend)@.access_key == old(backend)@.access_key,
{
}

/// The optional texts say the same, or are both missing.
pub open spec fn same_option(text: Option<String>, other: Option<Seq<char>>) -> bool {
    match text {
        Some(inner) => other == Some(inner@),
        None => other is None,
    }
}

/// A launch attaches exactly where an address is configured that is not blank:
/// to that address without the slashes at its end. The server is not the
/// backend's own, the user is named after the session, the access key is the one
/// given, and no tab is open yet.
pub proof fn a_configured_address_is_attached_to(
    session_id: &str,
    configured: Option<&str>,
    access_key: Option<String>,
    begun: Launch,
)
    requires
        call_ensures(CamofoxBackend::launch, (session_id, configured, access_key), begun),
    ensures
        begun is Attached <==> (configured matches Some(url) && !text::is_blank(url@)),
        begun matches Launch::Attached(backend) ==> {
            let kept = backend@.base_url;
            &&& configured matches Some(url)
            &&& kept.len() <= url@.len()
            &&& kept == url@.take(kept.len() as int)
            &&& kept.len() > 0 ==> kept.last() != '/'
            &&& forall|i: int| kept.len() <= i < url@.len() ==> #[trigger] url@[i] == '/'
            &&& backend@.user_id == "agent-browser-"@ + session_id@
            &&& same_option(access_key, backend@.access_key)
            &&& backend@.tab_id.len() == 0
            &&& !backend@.owns_process
        },
{
    if let Some(url) = configured {
        text::only_trailing_slashes_are_dropped(url@);
        let kept = text::without_trailing_slashes(url@);
        assert(url@.subrange(0, kept.len() as int) == url@.take(kept.len() as int));
    }
}

/// The variable is set to the value.
pub open spec fn sets(env: Seq<(String, String)>, name: Seq<char>, value: Seq<char>) -> bool {
    exists|i: int| 0 <= i < env.len() && (#[trigger] env[i]).0@ == name && env[i].1@ == value
}

proof fn lemma_variables(
    env: Seq<(String, String)>,
    port: u16,
    crash_report_configured: bool,
    access_key: Option<Seq<char>>,
)
    requires
        launch::env_text(env) == launch::spawn_env(port, crash_report_configured, access_key),
    ensures
        env.len() == 2 + (if crash_report_configured { 0int } else { 1 }) + (
        if access_key is None { 0int } else { 1 }),
        env[0].0@ == "CAMOFOX_BIND_HOST"@ && env[0].1@ == "127.0.0.1"@,
        env[1].0@ == "CAMOFOX_PORT"@ && env[1].1@ == text::decimal(port as nat),
        !crash_report_configured ==> env[2].0@ == "CAMOFOX_CRASH_REPORT_ENABLED"@ && env[2].1@
            == "false"@,
        access_key matches Some(key) ==> env.last().0@ == "CAMOFOX_ACCESS_KEY"@ && env.last().1@
            == key,
{
    let pairs = launch::spawn_env(port, crash_report_configured, access_key);
    assert(env.len() == launch::env_text(env).len());
    assert forall|i: int| 0 <= i < env.len() implies (#[trigger] env[i].0@, env[i].1@)
        == pairs[i] by {
        assert(launch::env_text(env)[i] == (env[i].0@, env[i].1@));
    }
}

/// A server is spawned for a session exactly where no address is configured, or
/// a blank one. It is told to listen on this host and on the reserved port,
/// which is where the backend reaches it; it is told the access key exactly
/// where there is one, and to send no crash reports exactly where that is not
/// configured. It is told nothing else, and nothing twice. The server is the
/// backend's own, the user is named after the session, the access key is the one
/// given, and no tab is open yet.
pub proof fn a_spawned_server_listens_where_it_is_reached(
    session_id: &str,
    configured: Option<&str>,
    access_key: Option<String>,
    pending: PendingLaunch,
    executable: (Option<&str>, Option<&str>, Option<&str>),
    port: u16,
    crash_report_configured: bool,
    planned: (SpawnPlan, CamofoxBackend),
)
    requires
        call_ensures(
            CamofoxBackend::launch,
            (session_id, configured, access_key),
            Launch::Spawning(pending),
        ),
        call_ensures(
            PendingLaunch::spawn,
            (pending, executable.0, executable.1, executable.2, port, crash_report_configured),
            planned,
        ),
    ensures
        configured matches Some(url) ==> text::is_blank(url@),
        forall|name: Seq<char>, value: Seq<char>| #[trigger]
            sets(planned.0.env@, name, value) <==> {
                ||| name == "CAMOFOX_BIND_HOST"@ && value == "127.0.0.1"@
                ||| name == "CAMOFOX_PORT"@ && value == text::decimal(port as nat)
                ||| name == "CAMOFOX_CRASH_REPORT_ENABLED"@ && value == "false"@
                    && !crash_report_configured
                ||| name == "CAMOFOX_ACCESS_KEY"@ && (access_key matches Some(key) && key@ == value)
            },
        forall|i: int, j: int|
            0 <= i < j < planned.0.env@.len() ==> (#[trigger] planned.0.env@[i]).0@ != (
            #[trigger] planned.0.env@[j]).0@,
        forall|value: Seq<char>| #[trigger]
            sets(planned.0.env@, "CAMOFOX_PORT"@, value) ==> planned.1@.base_url
                == "http://127.0.0.1:"@ + value,
        planned.1@.base_url == "http://127.0.0.1:"@ + text::decimal(port as nat),
        planned.1@.user_id == "agent-browser-"@ + session_id@,
        same_option(access_key, planned.1@.access_key),
        planned.1@.tab_id.len() == 0,
        planned.1@.owns_process,
{
    reveal_strlit("CAMOFOX_BIND_HOST");
    reveal_strlit("CAMOFOX_PORT");
    reveal_strlit("CAMOFOX_CRASH_REPORT_ENABLED");
    reveal_strlit("CAMOFOX_ACCESS_KEY");
    assert("CAMOFOX_BIND_HOST"@.len() == 17 && "CAMOFOX_PORT"@.len() == 12);
    assert("CAMOFOX_CRASH_REPORT_ENABLED"@.len() == 28 && "CAMOFOX_ACCESS_KEY"@.len() == 18);
    let env = planned.0.env@;
    lemma_variables(env, port, crash_report_configured, text::text_option(access_key));
}

/// The program that is spawned is the one asked for; where none is, the
/// configured one, unless that is missing or blank; else the one next to this
/// program; else `camofox-browser` on the search path.
pub proof fn the_first_program_named_is_spawned(
    pending: PendingLaunch,
    explicit: Option<&str>,
    configured: Option<&str>,
    adjacent: Option<&str>,
    port: u16,
    crash_report_configured: bool,
    planned: (SpawnPlan, CamofoxBackend),
    resolved: String,
)
    requires
        call_ensures(
            PendingLaunch::spawn,
            (pending, explicit, configured, adjacent, port, crash_report_configured),
            planned,
        ),
        call_ensures(
            launch::resolve_camofox_executable,
            (explicit, configured, adjacent),
            resolved,
        ),
    ensures
        planned.0.executable@ == resolved@,
        explicit matches Some(path) ==> resolved@ == path@,
        explicit is None ==> {
            &&& configured is Some && !text::is_blank(configured->0@) ==> resolved@
                == configured->0@
            &&& configured is None || text::is_blank(configured->0@) ==> {
                &&& adjacent matches Some(path) ==> resolved@ == path@
                &&& adjacent is None ==> resolved@ == "camofox-browser"@
            }
        },
{
}

/// A program's file has the ending `.cmd` on Windows, and none elsewhere.
pub proof fn programs_end_in_cmd_on_windows(base: &str, windows: bool, name: String)
    requires
        call_ensures(launch::executable_name, (base, windows), name),
    ensures
        windows ==> name@ == base@ + ".cmd"@,
        !windows ==> name@ == base@,
{
}

/// A launch that fails before the server is up complains of what failed, in
/// words of its own, and gives the reason.
pub proof fn launch_failures_are_worded(failure: &LaunchError, complaint: String)
    requires
        call_ensures(LaunchError::message, (failure,), complaint),
    ensures
        match *failure {
            LaunchError::HttpClient { error } => complaint@
                == "Failed to create Camofox HTTP client: "@ + error@,
            LaunchError::ReservePort { error } => complaint@ == "Failed to reserve a Camofox port: "@
                + error@,
            LaunchError::ReadPort { error } => complaint@
                == "Failed to read reserved Camofox port: "@ + error@,
            LaunchError::Spawn { executable, error } => complaint@
                == "Failed to launch Camofox with '"@ + executable@ + "': "@ + error@
                + ". Install @askjo/camofox-browser or set AGENT_BROWSER_CAMOFOX_EXECUTABLE."@,
        },
{
}

/// After a probe that was not answered with success: a pause of a tenth of a
/// second within the first thirty seconds, and then the end, in which a server
/// of the backend's own is stopped.
pub open spec fn tries_again_or_gives_up(
    backend: CamofoxBackend,
    elapsed_millis: u64,
    action: StartupAction,
) -> bool {
    if elapsed_millis < 30_000 {
        action matches StartupAction::Pause { millis } && millis == 100
    } else {
        action matches StartupAction::GiveUp { complaint, stop } && complaint@
            == "Timed out waiting for Camofox at "@ + backend@.base_url && stop
            == backend@.owns_process
    }
}

/// The action probes the server.
pub open spec fn probes(backend: CamofoxBackend, action: StartupAction) -> bool {
    action matches StartupAction::Probe(request) && request.body is None && is_sent(
        request,
        backend,
        Method::Get,
        "/health"@,
    )
}

/// Waiting looks at a process of the backend's own before each probe, ends well
/// at the first successful answer, however late, tries again for thirty seconds,
/// and gives up at once where the process has ended or cannot be looked at.
pub proof fn waiting_probes_until_the_server_is_up(
    backend: &CamofoxBackend,
    event: StartupEvent,
    action: StartupAction,
)
    requires
        call_ensures(CamofoxBackend::wait_until_ready, (backend, event), action),
    ensures
        match event {
            StartupEvent::Started | StartupEvent::Paused => if backend@.owns_process {
                action is Inspect
            } else {
                probes(*backend, action)
            },
            StartupEvent::ProcessRunning => probes(*backend, action),
            StartupEvent::ProcessExited { exit_status } => {
                &&& action matches StartupAction::GiveUp { complaint, stop }
                &&& complaint@ == "Camofox exited during startup with status "@ + exit_status@
                &&& !stop
            },
            StartupEvent::InspectFailed { error } => {
                &&& action matches StartupAction::GiveUp { complaint, stop }
                &&& complaint@ == "Failed to inspect Camofox process: "@ + error@
                &&& !stop
            },
            StartupEvent::Answered { status, elapsed_millis } => if 200 <= status <= 299 {
                action is Ready
            } else {
                tries_again_or_gives_up(*backend, elapsed_millis, action)
            },
            StartupEvent::Unanswered { elapsed_millis } => tries_again_or_gives_up(
                *backend,
                elapsed_millis,
                action,
            ),
        },
{
}

/// A launch waits as `wait_until_ready` says, and creates the session's tab at
/// the moment at which that finds the server up.
pub proof fn a_launch_waits_and_creates_the_tab(
    backend: &CamofoxBackend,
    session_id: &str,
    event: StartupEvent,
    waited: StartupAction,
    action: LaunchAction,
)
    requires
        call_ensures(CamofoxBackend::wait_until_ready, (backend, event), waited),
        call_ensures(CamofoxBackend::continue_launch, (backend, session_id, event), action),
    ensures
        action is CreateTab <==> waited is Ready,
        action matches LaunchAction::CreateTab(request) ==> {
            &&& is_sent(request, *backend, Method::Post, "/tabs"@)
            &&& has_body(
                request,
                map![
                    "userId"@ => json::Json::Text(backend@.user_id),
                    "sessionKey"@ => json::Json::Text(session_id@),
                ],
            )
        },
        action matches LaunchAction::Wait(inner) ==> inner@ == waited@,
{
}

/// The times are thirty seconds for a server to come up and for a request to be
/// answered, and a tenth of a second between two attempts.
pub proof fn the_times_allowed()
    ensures
        launch::STARTUP_TIMEOUT_MILLIS == 30_000,
        launch::STARTUP_POLL_INTERVAL_MILLIS == 100,
        exchange::REQUEST_TIMEOUT_SECS == 30,
{
}

/// A text that is put together from two says the one and then the other.
pub proof fn joined_texts_say_both(first: &str, second: &str, whole: String)
    requires
        call_ensures(text::joined, (first, second), whole),
    ensures
        whole@.len() == first@.len() + second@.len(),
        whole@.take(first@.len() as int) == first@,
        whole@.skip(first@.len() as int) == second@,
{
}

/// A text is its characters, and a stretch of them is the text between its ends.
pub proof fn texts_are_their_characters(
    whole: &str,
    chars: Vec<char>,
    from: usize,
    to: usize,
    part: String,
)
    requires
        from <= to <= chars@.len(),
        call_ensures(text::chars_of, (whole,), chars),
        call_ensures(text::text_between, (&chars, from, to), part),
    ensures
        chars@ == whole@,
        part@.len() == to - from,
        forall|i: int| 0 <= i < to - from ==> #[trigger] part@[i] == whole@[from + i],
{
}

/// Two texts are found to be the same exactly where they are, and a copy of an
/// optional text is there exactly where the text is, and says the same.
pub proof fn texts_are_compared_and_copied_whole(
    a: &str,
    b: &str,
    same: bool,
    original: Option<String>,
    copy: Option<String>,
)
    requires
        call_ensures(text::same_text, (a, b), same),
        call_ensures(text::copied, (&original,), copy),
    ensures
        same <==> a@ == b@,
        copy is Some <==> original is Some,
        copy matches Some(inner) ==> inner@ == original->0@,
{
}

/// Blank text is found exactly where every character is white space, and a
/// character is found to be white space exactly where the text of it is blank.
pub proof fn blank_text_is_found(s: &str, found: bool, c: char, white: bool)
    requires
        call_ensures(text::blank, (s,), found),
        call_ensures(text::white_space, (c,), white),
    ensures
        found <==> text::is_blank(s@),
        white <==> text::is_blank(seq![c]),
{
    assert(seq![c][0] == c);
}

/// Trimming drops the slashes at the end, all of them, and nothing else.
pub proof fn only_the_last_slashes_are_trimmed(s: &str, kept: String)
    requires
        call_ensures(text::trim_trailing_slashes, (s,), kept),
    ensures
        kept@.len() <= s@.len(),
        kept@ == s@.take(kept@.len() as int),
        kept@.len() > 0 ==> kept@.last() != '/',
        forall|i: int| kept@.len() <= i < s@.len() ==> #[trigger] s@[i] == '/',
{
    text::only_trailing_slashes_are_dropped(s@);
    assert(s@.subrange(0, kept@.len() as int) == s@.take(kept@.len() as int));
}

/// The number ten times as large and a digit more is written with that digit
/// behind the number.
pub proof fn numbers_are_written_digit_by_digit(
    n: u16,
    d: u16,
    written: String,
    longer: String,
    single: String,
)
    requires
        0 < n,
        d < 10,
        10 * n + d <= u16::MAX,
        call_ensures(text::decimal_text, (n,), written),
        call_ensures(text::decimal_text, ((10 * n + d) as u16,), longer),
        call_ensures(text::decimal_text, (d,), single),
    ensures
        single@ == seq!["0123456789"@[d as int]],
        longer@ == written@ + single@,
{
    text::decimal_digits_count_by_ten(n as nat, d as nat);
}

/// Normalizing shows what `refs::normalized` says, so that `[e`, digits and `]`
/// are shown as `[@e`, the digits and `]`, and all else as it is.
pub proof fn snapshots_are_normalized(snapshot: &str, shown: String)
    requires
        call_ensures(refs::normalize_snapshot_refs, (snapshot,), shown),
    ensures
        shown@ == refs::normalized(snapshot@),
        (forall|i: int| 0 <= i < snapshot@.len() ==> #[trigger] snapshot@[i] != '[') ==> shown@
            == snapshot@,
{
    if forall|i: int| 0 <= i < snapshot@.len() ==> #[trigger] snapshot@[i] != '[' {
        refs::text_without_refs_is_unchanged(snapshot@);
    }
}

/// Bytes are found to be few enough exactly where what they are encoded to can
/// be held in memory.
pub proof fn room_for_base64_is_found(bytes: Seq<u8>, len: usize, fits: bool)
    requires
        bytes.len() == len,
        call_ensures(codec::fits_base64, (len,), fits),
    ensures
        fits <==> codec::base64_text(bytes).len() <= isize::MAX,
{
    codec::bytes_fit_where_their_base64_does(bytes);
}

/// Success is a status code from 200 to 299.
pub proof fn success_is_told_by_the_status(status: u16, found: bool)
    requires
        call_ensures(exchange::succeeded, (status,), found),
    ensures
        found <==> 200 <= status <= 299,
{
}

/// A refusal says what was refused with which status, and goes on with the error
/// that was stated, or else with the whole answer.
pub proof fn a_refusal_gives_the_error_or_the_answer(
    line: &str,
    error: Option<String>,
    answer: String,
    complaint: String,
)
    requires
        call_ensures(exchange::refusal, (line, error, answer), complaint),
    ensures
        error matches Some(inner) ==> complaint@ == "Camofox returned "@ + line@ + ": "@ + inner@,
        error is None ==> complaint@ == "Camofox returned "@ + line@ + ": "@ + answer@,
{
}

/// The answer is JSON: an object with a text as its member `error`.
pub open spec fn states_error(answer: Seq<u8>, error: Seq<char>) -> bool {
    json::parsed(answer) matches Ok(json::Json::Object(members)) && members.contains_pair(
        "error"@,
        json::Json::Text(error),
    )
}

/// The complaint that a request ends in where it has not succeeded.
pub open spec fn is_complaint(complaint: Seq<char>, exchange: Exchange) -> bool {
    match exchange {
        Exchange::SendFailed { error } => complaint == "Camofox request failed: "@ + error@,
        Exchange::ReadFailed { error } => complaint == "Failed to read Camofox response: "@ + error@,
        Exchange::Answered { status, body } => {
            let start = "Camofox returned "@ + codec::status_line(status) + ": "@;
            &&& forall|error: Seq<char>| #[trigger]
                states_error(body@, error) ==> complaint == start + error
            &&& (forall|error: Seq<char>| !#[trigger] states_error(body@, error)) ==> complaint
                == start + codec::lossy_text(body@)
        },
    }
}

/// A request succeeds exactly where it was answered with a status of success,
/// and then its body is handed on as it is. A refusal complains with the number
/// of the status and with the text that the answer states as its error, or else
/// with the whole answer, read as UTF-8.
pub proof fn answers_are_told_from_refusals(
    exchange: Exchange,
    outcome: Result<Vec<u8>, String>,
)
    requires
        call_ensures(exchange::request_json, (exchange,), outcome),
    ensures
        outcome is Ok <==> (exchange matches Exchange::Answered { status, .. } && 200 <= status
            <= 299),
        outcome matches Ok(bytes) ==> (exchange matches Exchange::Answered { body, .. } && bytes@
            == body@),
        outcome matches Err(complaint) ==> {
            &&& is_complaint(complaint@, exchange)
            &&& exchange matches Exchange::Answered { status, body } ==> {
                &&& ("Camofox returned "@ + text::decimal(status as nat).push(' ')).is_prefix_of(
                    complaint@,
                )
                &&& valid_utf8(body@) ==> codec::lossy_text(body@) == decode_utf8(body@)
            }
        },
{
    if let Exchange::Answered { status, body } = exchange {
        if let Some(error) = exchange::stated_error(body@) {
            assert(states_error(body@, error));
        }
        assert forall|error: Seq<char>| #[trigger] states_error(body@, error) implies Some(error)
            == exchange::stated_error(body@) by {}
    }
}

/// An operation of no result succeeds exactly where its request does and the
/// answer is JSON. It fails with the complaint of the request, or else with what
/// is wrong with the JSON.
pub proof fn acknowledgements_have_to_be_json(
    exchange: Exchange,
    answered: Result<Vec<u8>, String>,
    outcome: Result<(), String>,
)
    requires
        call_ensures(exchange::request_json, (exchange,), answered),
        call_ensures(exchange::acknowledged, (exchange,), outcome),
    ensures
        outcome is Ok <==> (answered matches Ok(body) && json::parsed(body@) is Ok),
        outcome matches Err(complaint) ==> match answered {
            Ok(body) => complaint@ == "Invalid Camofox response: "@ + json::parsed(body@)->Err_0,
            Err(refusal) => complaint@ == refusal@,
        },
{
}

/// Whatever came of a request can be handed in, as long as an answer's status has
/// three digits and an image has room for its base64 form.
pub proof fn every_answer_can_be_handed_in(exchange: Exchange)
    requires
        exchange matches Exchange::Answered { status, body } ==> 100 <= status <= 999
            && codec::base64_text(body@).len() <= isize::MAX,
    ensures
        call_requires(exchange::request_json, (exchange,)),
        call_requires(exchange::acknowledged, (exchange,)),
        call_requires(exchange::screenshot_reply, (exchange,)),
{
    if let Exchange::Answered { status, body } = exchange {
        codec::bytes_fit_where_their_base64_does(body@);
    }
}

/// What an answer was decoded to is handed on, and an answer that could not be
/// decoded is complained of with the reason.
pub proof fn decoding_errors_are_worded<T>(found: Result<T, String>, outcome: Result<T, String>)
    requires
        call_ensures(exchange::decoded::<T>, (found,), outcome),
    ensures
        found matches Ok(value) ==> (outcome matches Ok(same) && same == value),
        found matches Err(error) ==> (outcome matches Err(complaint) && complaint@
            == "Invalid Camofox response: "@ + error@),
{
}

/// A screenshot is had exactly where its request was answered with a status of
/// success: the image in base64, from which the image can be had back. A refusal
/// complains with the number of the status and with the whole answer, read as
/// UTF-8.
pub proof fn screenshots_are_the_image_in_base64(
    exchange: Exchange,
    outcome: Result<String, String>,
)
    requires
        call_ensures(exchange::screenshot_reply, (exchange,), outcome),
    ensures
        match exchange {
            Exchange::SendFailed { error } => outcome matches Err(complaint) && complaint@
                == "Camofox request failed: "@ + error@,
            Exchange::ReadFailed { error } => outcome matches Err(complaint) && complaint@
                == "Failed to read Camofox screenshot: "@ + error@,
            Exchange::Answered { status, body } => if 200 <= status <= 299 {
                outcome matches Ok(encoded) && encoded@ == codec::base64_text(body@)
                    && codec::base64_bytes(encoded@) == body@
            } else {
                &&& outcome matches Err(complaint)
                &&& complaint@ == "Camofox screenshot failed with "@ + codec::status_line(status)
                    + ": "@ + codec::lossy_text(body@)
                &&& ("Camofox screenshot failed with "@ + text::decimal(status as nat).push(
                    ' ',
                )).is_prefix_of(complaint@)
                &&& valid_utf8(body@) ==> codec::lossy_text(body@) == decode_utf8(body@)
            },
        },
{
    exchange::screenshots_decode_to_the_body(exchange);
}

/// The text was found in the value, or else the complaint is given.
pub open spec fn is_text_or(
    value: serde_json::Value,
    outcome: Result<String, String>,
    complaint: Seq<char>,
) -> bool {
    match json::contents(value) {
        json::Json::Text(inner) => outcome matches Ok(found) && found@ == inner,
        _ => outcome matches Err(given) && given@ == complaint,
    }
}

/// The page's address, title and source have to be strings, and are handed on as
/// they are; each complains in its own words where it is none.
pub proof fn page_facts_have_to_be_strings(
    value: &serde_json::Value,
    address: Result<String, String>,
    title: Result<String, String>,
    source: Result<String, String>,
)
    requires
        call_ensures(exchange::url_reply, (value,), address),
        call_ensures(exchange::title_reply, (value,), title),
        call_ensures(exchange::content_reply, (value,), source),
    ensures
        is_text_or(*value, address, "Camofox returned a non-string URL"@),
        is_text_or(*value, title, "Camofox returned a non-string title"@),
        is_text_or(*value, source, "Camofox returned non-string page content"@),
{
}

/// A text that was found is handed on; a missing one is complained of in the
/// words given.
pub proof fn a_missing_text_is_complained_of(
    found: Option<&str>,
    words: &str,
    outcome: Result<String, String>,
)
    requires
        call_ensures(exchange::text_or_complaint, (found, words), outcome),
    ensures
        found matches Some(inner) ==> (outcome matches Ok(text) && text@ == inner@),
        found is None ==> (outcome matches Err(complaint) && complaint@ == words@),
{
}

/// The text of a member is found exactly where the value is an object that has a
/// text under that name.
pub proof fn text_members_are_found_by_name(
    value: &serde_json::Value,
    key: &str,
    found: Option<String>,
    text: Seq<char>,
)
    requires
        call_ensures(json::member_text, (value, key), found),
    ensures
        (found matches Some(inner) && inner@ == text) <==> (json::contents(
            *value,
        ) matches json::Json::Object(members) && members.contains_pair(
            key@,
            json::Json::Text(text),
        )),
{
}

/// A feature of every backend: going to an address, evaluating a script, taking
/// a screenshot, clicking and filling.
pub open spec fn is_shared(feature: Seq<char>) -> bool {
    set!["navigate"@, "evaluate"@, "screenshot"@, "click"@, "fill"@].contains(feature)
}

/// Every backend supports the shared features, one of the type `cdp` screencasts,
/// tracing, network interception and its own protocol too, and none supports
/// anything else.
pub proof fn support_goes_by_the_type<B: BrowserBackend>(
    some_backend: &B,
    kind: &str,
    feature: &str,
    by_type: bool,
    by_backend: bool,
)
    requires
        call_ensures(backend::type_supports, (kind, feature), by_type),
        call_ensures(B::supports, (some_backend, feature), by_backend),
    ensures
        by_type <==> is_shared(feature@) || (kind@ == "cdp"@ && set![
            "screencast"@, "tracing"@, "network_intercept"@, "cdp"@,
        ].contains(feature@)),
        by_backend <==> is_shared(feature@) || (some_backend.kind() == "cdp"@ && set![
            "screencast"@, "tracing"@, "network_intercept"@, "cdp"@,
        ].contains(feature@)),
{
}

/// The two backends say which they are, and support the shared features only.
pub proof fn the_backends_support_what_they_share<C: Send + Sync>(
    camofox: &CamofoxBackend,
    driver: &WebDriverBackend<C>,
    feature: &str,
    kinds: (&str, &str),
    supported: (bool, bool),
)
    requires
        call_ensures(CamofoxBackend::backend_type, (camofox,), kinds.0),
        call_ensures(WebDriverBackend::<C>::backend_type, (driver,), kinds.1),
        call_ensures(CamofoxBackend::supports, (camofox, feature), supported.0),
        call_ensures(WebDriverBackend::<C>::supports, (driver, feature), supported.1),
    ensures
        kinds.0@ == "camofox"@,
        kinds.1@ == "webdriver"@,
        supported.0 == is_shared(feature@),
        supported.1 == is_shared(feature@),
{
    backend::other_backends_support_common_features_only("camofox"@, feature@);
}

/// A backend is alive exactly where it could be asked for its address.
pub proof fn having_an_address_is_being_alive<B: BrowserBackend>(
    some_backend: &B,
    url: &Result<String, String>,
    alive: bool,
)
    requires
        call_ensures(B::is_alive, (some_backend, url), alive),
    ensures
        alive <==> url is Ok,
{
}

/// The complaint names the action and the type of the backend.
pub open spec fn is_unsupported(complaint: Seq<char>, action: Seq<char>, kind: Seq<char>) -> bool {
    complaint == "Action '"@ + action + "' is not supported on the "@ + kind + " backend"@
}

/// The operation has failed with the complaint that it is not supported.
pub open spec fn fails_as_unsupported<T>(
    outcome: Result<T, String>,
    action: Seq<char>,
    kind: Seq<char>,
) -> bool {
    outcome matches Err(complaint) && is_unsupported(complaint@, action, kind)
}

/// What is not supported is complained of with the action and the type of the
/// backend.
pub proof fn what_is_not_supported_is_named<B: BrowserBackend>(
    some_backend: &B,
    kind: &str,
    action: &str,
    worded: String,
    complaint: String,
)
    requires
        call_ensures(backend::unsupported, (kind, action), worded),
        call_ensures(B::unsupported_error, (some_backend, action), complaint),
    ensures
        is_unsupported(worded@, action@, kind@),
        is_unsupported(complaint@, action@, some_backend.kind()),
{
}

/// On Camofox, typing key by key, pressing a key, scrolling and reading cookies
/// are not supported.
pub proof fn camofox_refuses_what_it_cannot_do(
    backend: &CamofoxBackend,
    typing: (&str, &str, bool, Option<u64>),
    key: &str,
    typed: Result<Request, String>,
    pressed: Result<Request, String>,
    scrolled: Result<Request, String>,
    cookies: Result<Request, String>,
)
    requires
        call_ensures(
            CamofoxBackend::type_text,
            (backend, typing.0, typing.1, typing.2, typing.3),
            typed,
        ),
        call_ensures(CamofoxBackend::press, (backend, key), pressed),
        call_ensures(CamofoxBackend::scroll, (backend,), scrolled),
        call_ensures(CamofoxBackend::get_cookies, (backend,), cookies),
    ensures
        fails_as_unsupported(typed, "type"@, "camofox"@),
        fails_as_unsupported(pressed, "press"@, "camofox"@),
        fails_as_unsupported(scrolled, "scroll"@, "camofox"@),
        fails_as_unsupported(cookies, "cookies_get"@, "camofox"@),
{
}

/// On WebDriver, typing key by key, pressing a key, scrolling and taking a
/// snapshot are not supported.
pub proof fn webdriver_refuses_what_it_cannot_do<C: Send + Sync>(
    backend: &WebDriverBackend<C>,
    typing: (&str, &str, bool, Option<u64>),
    key: &str,
    typed: Result<Step, String>,
    pressed: Result<Step, String>,
    scrolled: Result<Step, String>,
    snapshot: Result<Step, String>,
)
    requires
        call_ensures(
            WebDriverBackend::<C>::type_text,
            (backend, typing.0, typing.1, typing.2, typing.3),
            typed,
        ),
        call_ensures(WebDriverBackend::<C>::press, (backend, key), pressed),
        call_ensures(WebDriverBackend::<C>::scroll, (backend,), scrolled),
        call_ensures(WebDriverBackend::<C>::snapshot, (backend,), snapshot),
    ensures
        fails_as_unsupported(typed, "type"@, "webdriver"@),
        fails_as_unsupported(pressed, "press"@, "webdriver"@),
        fails_as_unsupported(scrolled, "scroll"@, "webdriver"@),
        fails_as_unsupported(snapshot, "snapshot"@, "webdriver"@),
{
}

/// The client that a WebDriver backend is made with is the one that it has.
pub proof fn a_webdriver_backend_keeps_its_client<C>(
    client: C,
    made: WebDriverBackend<C>,
    found: &C,
)
    requires
        call_ensures(WebDriverBackend::<C>::new, (client,), made),
        call_ensures(WebDriverBackend::<C>::client, (&made,), found),
    ensures
        *found == client,
{
}

/// Going to an address and executing a script take one call of the client, with
/// the address or the script as it is.
pub proof fn webdriver_hands_texts_on_as_they_are<C: Send + Sync>(
    backend: &WebDriverBackend<C>,
    text: &str,
    navigation: Step,
    evaluation: Step,
)
    requires
        call_ensures(WebDriverBackend::<C>::navigate, (backend, text), navigation),
        call_ensures(WebDriverBackend::<C>::evaluate, (backend, text), evaluation),
    ensures
        navigation.call matches ClientCall::Navigate { url } && url@ == text@,
        navigation.rest is Last,
        evaluation.call matches ClientCall::ExecuteScript { script } && script@ == text@,
        evaluation.rest is Last,
{
}

/// What takes one call of the client without arguments makes that call and no
/// other.
pub proof fn webdriver_reads_with_one_call<C: Send + Sync>(
    backend: &WebDriverBackend<C>,
    address: Step,
    title: Step,
    source: Step,
    screenshot: Step,
    cookies: Result<Step, String>,
)
    requires
        call_ensures(WebDriverBackend::<C>::get_url, (backend,), address),
        call_ensures(WebDriverBackend::<C>::get_title, (backend,), title),
        call_ensures(WebDriverBackend::<C>::get_content, (backend,), source),
        call_ensures(WebDriverBackend::<C>::screenshot, (backend,), screenshot),
        call_ensures(WebDriverBackend::<C>::get_cookies, (backend,), cookies),
    ensures
        address.call is GetUrl && address.rest is Last,
        title.call is GetTitle && title.rest is Last,
        source.call is GetPageSource && source.rest is Last,
        screenshot.call is Screenshot && screenshot.rest is Last,
        cookies matches Ok(step) && step.call is GetCookies && step.rest is Last,
{
}

/// Moving through the history and closing make their one call and no other.
pub proof fn webdriver_moves_with_one_call<C: Send + Sync>(
    backend: &WebDriverBackend<C>,
    back: Step,
    forward: Step,
    reload: Step,
    close: Option<Step>,
)
    requires
        call_ensures(WebDriverBackend::<C>::back, (backend,), back),
        call_ensures(WebDriverBackend::<C>::forward, (backend,), forward),
        call_ensures(WebDriverBackend::<C>::reload, (backend,), reload),
        call_ensures(WebDriverBackend::<C>::close, (backend,), close),
    ensures
        back.call is Back && back.rest is Last,
        forward.call is Forward && forward.rest is Last,
        reload.call is Refresh && reload.rest is Last,
        close matches Some(step) && step.call is DeleteSession && step.rest is Last,
{
}

/// The call looks an element up by this CSS selector.
pub open spec fn looks_up(call: ClientCall, selector: Seq<char>) -> bool {
    call matches ClientCall::FindElement { using, value } && using@ == "css selector"@ && value@
        == selector
}

/// A click looks the element up, clicks the one that was found, and is over.
pub proof fn webdriver_clicks_what_it_found<C: Send + Sync>(
    backend: &WebDriverBackend<C>,
    selector: &str,
    lookup: Step,
    found: String,
    reply: String,
    after_lookup: Progress,
    after_click: Progress,
)
    requires
        call_ensures(WebDriverBackend::<C>::click, (backend, selector), lookup),
        call_ensures(Interaction::advance, (lookup.rest, Ok(found)), after_lookup),
        after_lookup matches Progress::Next(click) ==> call_ensures(
            Interaction::advance,
            (click.rest, Ok(reply)),
            after_click,
        ),
    ensures
        looks_up(lookup.call, selector@),
        after_lookup matches Progress::Next(click) && (click.call matches ClientCall::ClickElement {
            element_id,
        } && element_id@ == found@),
        after_click is Finished,
{
}

/// A fill looks the element up, clears the one that was found, types the text
/// into that same one, and is over.
pub proof fn webdriver_clears_and_types_into_what_it_found<C: Send + Sync>(
    backend: &WebDriverBackend<C>,
    selector: &str,
    text: &str,
    lookup: Step,
    found: String,
    replies: (String, String),
    after_lookup: Progress,
    after_clearing: Progress,
    after_typing: Progress,
)
    requires
        call_ensures(WebDriverBackend::<C>::fill, (backend, selector, text), lookup),
        call_ensures(Interaction::advance, (lookup.rest, Ok(found)), after_lookup),
        after_lookup matches Progress::Next(clearing) ==> call_ensures(
            Interaction::advance,
            (clearing.rest, Ok(replies.0)),
            after_clearing,
        ),
        after_clearing matches Progress::Next(typing) ==> call_ensures(
            Interaction::advance,
            (typing.rest, Ok(replies.1)),
            after_typing,
        ),
    ensures
        looks_up(lookup.call, selector@),
        after_lookup matches Progress::Next(clearing) && (
        clearing.call matches ClientCall::ClearElement { element_id } && element_id@ == found@),
        after_clearing matches Progress::Next(typing) && (typing.call matches ClientCall::SendKeys {
            element_id,
            text: typed,
        } && element_id@ == found@ && typed@ == text@),
        after_typing is Finished,
{
}

/// A call that fails ends its operation with the error, whatever is left to do,
/// and a last call that succeeds ends its operation well.
pub proof fn a_failing_call_ends_its_operation(
    rest: Interaction,
    error: String,
    reply: String,
    failed: Progress,
    ended: Progress,
)
    requires
        call_ensures(Interaction::advance, (rest, Err(error)), failed),
        call_ensures(Interaction::advance, (Interaction::Last, Ok(reply)), ended),
    ensures
        failed matches Progress::Failed { error: given } && given@ == error@,
        ended is Finished,
{
}

/// The actions that are not supported on WebDriver are these fourteen.
pub proof fn webdriver_lists_what_it_cannot_do()
    ensures
        webdriver::WEBDRIVER_UNSUPPORTED_ACTIONS@.map_values(|action: &'static str| action@) == seq![
            "screencast_start"@,
            "screencast_stop"@,
            "trace_start"@,
            "trace_stop"@,
            "profiler_start"@,
            "profiler_stop"@,
            "route"@,
            "unroute"@,
            "expose"@,
            "addscript"@,
            "addinitscript"@,
            "network"@,
            "har_start"@,
            "har_stop"@,
        ],
{
}

} // verus!
