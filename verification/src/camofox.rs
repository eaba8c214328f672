//! The backend that drives a browser through a Camofox server's REST API.
use crate::backend;
use crate::backend::BrowserBackend;
use crate::codec;
use crate::exchange;
use crate::exchange::{Exchange, Method, Request};
use crate::json;
use crate::refs;
use crate::text;
use vstd::prelude::*;
use vstd::string::*;

verus! {

/// What the server says about a tab that it has created.
#[derive(Debug)]
pub struct CreateTabResponse {
    pub tab_id: String,
}

/// What the server says about a page.
#[derive(Debug)]
pub struct SnapshotResponse {
    pub url: String,
    pub snapshot: String,
}

/// Camofox's local REST API projected through the backend contract. The backend
/// owns the server where it was spawned for it, and only attaches otherwise.
pub struct CamofoxBackend {
    base_url: String,
    user_id: String,
    tab_id: String,
    access_key: Option<String>,
    owns_process: bool,
}

/// What a backend is set up with. The tab is empty until one is open.
#[verifier::ext_equal]
pub struct BackendState {
    pub base_url: Seq<char>,
    pub user_id: Seq<char>,
    pub tab_id: Seq<char>,
    pub access_key: Option<Seq<char>>,
    pub owns_process: bool,
}

impl View for CamofoxBackend {
    type V = BackendState;

    closed spec fn view(&self) -> BackendState {
        BackendState {
            base_url: self.base_url@,
            user_id: self.user_id@,
            tab_id: self.tab_id@,
            access_key: text::text_option(self.access_key),
            owns_process: self.owns_process,
        }
    }
}

/// The members of a payload that names an element: its reference where the
/// selector is one, with or without a leading `@`, and else the selector as it
/// is.
pub open spec fn selector_members(user_id: Seq<char>, selector: Seq<char>) -> Map<
    Seq<char>,
    json::Json,
> {
    let user = json::no_members().insert("userId"@, json::Json::Text(user_id));
    if refs::is_ref(refs::without_at(selector)) {
        user.insert("ref"@, json::Json::Text(refs::without_at(selector)))
    } else {
        user.insert("selector"@, json::Json::Text(selector))
    }
}

impl BackendState {
    /// The path of what concerns the open tab.
    pub open spec fn tab_path(self, suffix: Seq<char>) -> Seq<char> {
        "/tabs/"@ + self.tab_id + suffix
    }

    /// The path of what concerns the open tab, with the user in the query.
    pub open spec fn tab_query(self, suffix: Seq<char>) -> Seq<char> {
        self.tab_path(suffix) + "?userId="@ + codec::percent_encoded(self.user_id)
    }

    /// A request to the server, with the access key where there is one.
    pub open spec fn request(
        self,
        method: Method,
        path: Seq<char>,
        body: Option<Map<Seq<char>, json::Json>>,
    ) -> exchange::RequestModel {
        exchange::RequestModel { method, url: self.base_url + path, bearer: self.access_key, body }
    }

    /// The members that every payload has.
    pub open spec fn user_members(self) -> Map<Seq<char>, json::Json> {
        json::no_members().insert("userId"@, json::Json::Text(self.user_id))
    }

    /// A request that posts members to the open tab.
    pub open spec fn tab_post(
        self,
        suffix: Seq<char>,
        members: Map<Seq<char>, json::Json>,
    ) -> exchange::RequestModel {
        self.request(Method::Post, self.tab_path(suffix), Some(members))
    }

    /// The request that creates the session's tab.
    pub open spec fn tab_creation(self, session_id: Seq<char>) -> exchange::RequestModel {
        self.request(
            Method::Post,
            "/tabs"@,
            Some(self.user_members().insert("sessionKey"@, json::Json::Text(session_id))),
        )
    }

    /// The request that evaluates an expression in the open tab.
    pub open spec fn evaluation(self, expression: Seq<char>) -> exchange::RequestModel {
        self.tab_post(
            "/evaluate"@,
            self.user_members().insert("expression"@, json::Json::Text(expression)),
        )
    }

    /// The request that has the open tab go to an address.
    pub open spec fn navigation(self, url: Seq<char>) -> exchange::RequestModel {
        self.tab_post("/navigate"@, self.user_members().insert("url"@, json::Json::Text(url)))
    }

    /// The request that clicks the element of a selector.
    pub open spec fn clicking(self, selector: Seq<char>) -> exchange::RequestModel {
        self.tab_post("/click"@, selector_members(self.user_id, selector))
    }

    /// The request that fills the element of a selector with a text.
    pub open spec fn filling(self, selector: Seq<char>, value: Seq<char>) -> exchange::RequestModel {
        self.tab_post(
            "/type"@,
            selector_members(self.user_id, selector).insert("text"@, json::Json::Text(value)).insert(
                "mode"@,
                json::Json::Text("fill"@),
            ),
        )
    }

    /// The request that ends the user's session.
    pub open spec fn session_end(self) -> exchange::RequestModel {
        self.request(
            Method::Delete,
            "/sessions/"@ + codec::percent_encoded(self.user_id),
            None,
        )
    }

    /// The request that asks whether the server is up.
    pub open spec fn health_probe(self) -> exchange::RequestModel {
        self.request(Method::Get, "/health"@, None)
    }
}

/// The server has to be stopped once the backend gives it up: it is the
/// backend's own.
pub open spec fn must_stop(state: BackendState) -> bool {
    state.owns_process
}

/// A backend that has given its server up.
pub open spec fn released(state: BackendState) -> BackendState {
    BackendState { owns_process: false, ..state }
}

impl CamofoxBackend {
    /// A backend without a tab.
    pub(crate) fn assemble(
        base_url: String,
        user_id: String,
        access_key: Option<String>,
        owns_process: bool,
    ) -> (backend: Self)
        ensures
            backend@ == (BackendState {
                base_url: base_url@,
                user_id: user_id@,
                tab_id: Seq::empty(),
                access_key: text::text_option(access_key),
                owns_process,
            }),
    {
        Self { base_url, user_id, tab_id: String::new(), access_key, owns_process }
    }

    fn tab_path(&self, suffix: &str) -> (path: String)
        ensures
            path@ == self@.tab_path(suffix@),
    {
        let mut path = text::joined("/tabs/", self.tab_id.as_str());
        path.append(suffix);
        path
    }

    fn tab_query(&self, suffix: &str) -> (path: String)
        ensures
            path@ == self@.tab_query(suffix@),
    {
        let mut path = self.tab_path(suffix);
        path.append("?userId=");
        path.append(codec::percent_encode(self.user_id.as_str()).as_str());
        path
    }

    /// A request to the server.
    pub fn request(
        &self,
        method: Method,
        path: &str,
        body: Option<serde_json::Map<String, serde_json::Value>>,
    ) -> (request: Request)
        ensures
            request@ == self@.request(
                method,
                path@,
                match body {
                    Some(object) => Some(json::members(object)),
                    None => None,
                },
            ),
            request.body == body,
    {
        Request {
            method,
            url: text::joined(self.base_url.as_str(), path),
            bearer: text::copied(&self.access_key),
            body,
        }
    }

    fn user_payload(&self) -> (object: serde_json::Map<String, serde_json::Value>)
        ensures
            json::members(object) == self@.user_members(),
    {
        let mut object = json::empty_object();
        json::insert_text(&mut object, "userId", self.user_id.as_str());
        object
    }

    fn tab_post(
        &self,
        suffix: &str,
        object: serde_json::Map<String, serde_json::Value>,
    ) -> (request: Request)
        ensures
            request@ == self@.tab_post(suffix@, json::members(object)),
            request.body == Some(object),
    {
        let path = self.tab_path(suffix);
        self.request(Method::Post, path.as_str(), Some(object))
    }

    /// The request that evaluates an expression in the open tab.
    pub fn evaluate_value(&self, expression: &str) -> (request: Request)
        ensures
            request@ == self@.evaluation(expression@),
    {
        let mut object = self.user_payload();
        json::insert_text(&mut object, "expression", expression);
        self.tab_post("/evaluate", object)
    }

    /// The request that has the open tab do something that needs no more than
    /// the name of the action.
    pub fn post_tab_action(&self, action: &str) -> (request: Request)
        ensures
            request@ == self@.tab_post(action@, self@.user_members()),
    {
        self.tab_post(action, self.user_payload())
    }

    /// The payload that names the element of a selector.
    pub fn selector_payload(&self, selector: &str) -> (object: serde_json::Map<
        String,
        serde_json::Value,
    >)
        ensures
            json::members(object) == selector_members(self@.user_id, selector@),
    {
        let mut object = self.user_payload();
        match refs::referenced(selector) {
            Some(name) => json::insert_text(&mut object, "ref", name.as_str()),
            None => json::insert_text(&mut object, "selector", selector),
        }
        object
    }

    /// The request that creates the tab of the session.
    pub fn create_tab(&self, session_id: &str) -> (request: Request)
        ensures
            request@ == self@.tab_creation(session_id@),
    {
        let mut object = self.user_payload();
        json::insert_text(&mut object, "sessionKey", session_id);
        self.request(Method::Post, "/tabs", Some(object))
    }

    /// Takes over the tab that the server has created.
    pub fn open_tab(&mut self, created: CreateTabResponse)
        ensures
            final(self)@ == (BackendState { tab_id: created.tab_id@, ..old(self)@ }),
    {
        self.tab_id = created.tab_id;
    }

    /// The request that asks whether the server is up.
    pub fn probe(&self) -> (request: Request)
        ensures
            request@ == self@.health_probe(),
    {
        self.request(Method::Get, "/health", None)
    }

    /// Gives the server up: says whether it has to be stopped.
    pub fn release(&mut self) -> (stop: bool)
        ensures
            stop == must_stop(old(self)@),
            final(self)@ == released(old(self)@),
    {
        let stop = self.owns_process;
        self.owns_process = false;
        stop
    }

    /// Whether the server is the backend's own.
    pub fn owns_process(&self) -> (owned: bool)
        ensures
            owned == self@.owns_process,
    {
        self.owns_process
    }

    /// Where the server is found.
    pub fn base_url(&self) -> (url: &str)
        ensures
            url@ == self@.base_url,
    {
        self.base_url.as_str()
    }
}

impl BrowserBackend for CamofoxBackend {
    type Call = Request;

    open spec fn kind(&self) -> Seq<char> {
        "camofox"@
    }

    fn navigate(&self, url: &str) -> (request: Request)
        ensures
            request@ == self@.navigation(url@),
    {
        let mut object = self.user_payload();
        json::insert_text(&mut object, "url", url);
        self.tab_post("/navigate", object)
    }

    /// To be read by `exchange::url_reply`.
    fn get_url(&self) -> (request: Request)
        ensures
            request@ == self@.evaluation("location.href"@),
    {
        self.evaluate_value("location.href")
    }

    /// To be read by `exchange::title_reply`.
    fn get_title(&self) -> (request: Request)
        ensures
            request@ == self@.evaluation("document.title"@),
    {
        self.evaluate_value("document.title")
    }

    /// To be read by `exchange::content_reply`.
    fn get_content(&self) -> (request: Request)
        ensures
            request@ == self@.evaluation("document.documentElement.outerHTML"@),
    {
        self.evaluate_value("document.documentElement.outerHTML")
    }

    fn evaluate(&self, script: &str) -> (request: Request)
        ensures
            request@ == self@.evaluation(script@),
    {
        self.evaluate_value(script)
    }

    /// To be read by `exchange::screenshot_reply`.
    fn screenshot(&self) -> (request: Request)
        ensures
            request@ == self@.request(Method::Get, self@.tab_query("/screenshot"@), None),
    {
        let path = self.tab_query("/screenshot");
        self.request(Method::Get, path.as_str(), None)
    }

    fn click(&self, selector: &str) -> (request: Request)
        ensures
            request@ == self@.clicking(selector@),
    {
        self.tab_post("/click", self.selector_payload(selector))
    }

    fn fill(&self, selector: &str, value: &str) -> (request: Request)
        ensures
            request@ == self@.filling(selector@, value@),
    {
        let mut object = self.selector_payload(selector);
        json::insert_text(&mut object, "text", value);
        json::insert_text(&mut object, "mode", "fill");
        self.tab_post("/type", object)
    }

    fn close(&self) -> (request: Option<Request>)
        ensures
            self@.tab_id.len() == 0 ==> request is None,
            self@.tab_id.len() > 0 ==> (request matches Some(inner) && inner@
                == self@.session_end()),
    {
        if self.tab_id.as_str().is_empty() {
            None
        } else {
            let path = text::joined(
                "/sessions/",
                codec::percent_encode(self.user_id.as_str()).as_str(),
            );
            Some(self.request(Method::Delete, path.as_str(), None))
        }
    }

    fn back(&self) -> (request: Request)
        ensures
            request@ == self@.tab_post("/back"@, self@.user_members()),
    {
        self.post_tab_action("/back")
    }

    fn forward(&self) -> (request: Request)
        ensures
            request@ == self@.tab_post("/forward"@, self@.user_members()),
    {
        self.post_tab_action("/forward")
    }

    fn reload(&self) -> (request: Request)
        ensures
            request@ == self@.tab_post("/refresh"@, self@.user_members()),
    {
        self.post_tab_action("/refresh")
    }

    fn get_cookies(&self) -> (outcome: Result<Request, String>)
        ensures
            backend::refused(outcome, "cookies_get"@, "camofox"@),
    {
        Err(self.unsupported_error("cookies_get"))
    }

    fn backend_type(&self) -> &str {
        "camofox"
    }

    /// To be read by `snapshot_reply`.
    fn snapshot(&self) -> (outcome: Result<Request, String>)
        ensures
            outcome matches Ok(request) && request@ == self@.request(
                Method::Get,
                self@.tab_query("/snapshot"@),
                None,
            ),
    {
        let path = self.tab_query("/snapshot");
        Ok(self.request(Method::Get, path.as_str(), None))
    }
}

/// The snapshot that the server took, its references named as selectors name
/// them.
pub fn snapshot_reply(response: SnapshotResponse) -> (snapshot: backend::BackendSnapshot)
    ensures
        snapshot@ == (backend::SnapshotModel {
            snapshot: refs::normalized(response.snapshot@),
            origin: response.url@,
            refs: json::no_members(),
        }),
{
    backend::BackendSnapshot {
        snapshot: refs::normalize_snapshot_refs(response.snapshot.as_str()),
        origin: response.url,
        refs: json::empty_object(),
    }
}

/// What happened while a backend closes.
#[derive(Debug)]
pub enum CloseEvent {
    /// The closing begins.
    Started,
    /// The request that ends the session has come to its end.
    SessionEnded(Exchange),
    /// The server's process was stopped, or could not be.
    ServerStopped { outcome: Result<(), String> },
}

/// What to do next while a backend closes.
#[derive(Debug)]
pub enum CloseAction {
    /// Send the request that ends the session.
    EndSession(Request),
    /// Stop the server's process. The outcome of the closing stands already,
    /// and is to be handed back.
    StopServer { outcome: Result<(), String> },
    /// The closing is over.
    Finish { outcome: Result<(), String> },
}

/// What an event says.
pub enum CloseEventModel {
    Started,
    SessionEnded(Exchange),
    ServerStopped(Result<(), Seq<char>>),
}

/// What an action says.
pub enum CloseModel {
    EndSession(exchange::RequestModel),
    StopServer(Result<(), Seq<char>>),
    Finish(Result<(), Seq<char>>),
}

/// An outcome that is nothing but success, or the complaint.
pub open spec fn plain_outcome(outcome: Result<(), String>) -> Result<(), Seq<char>> {
    match outcome {
        Ok(_) => Ok(()),
        Err(complaint) => Err(complaint@),
    }
}

impl View for CloseEvent {
    type V = CloseEventModel;

    open spec fn view(&self) -> CloseEventModel {
        match *self {
            CloseEvent::Started => CloseEventModel::Started,
            CloseEvent::SessionEnded(ended) => CloseEventModel::SessionEnded(ended),
            CloseEvent::ServerStopped { outcome } => CloseEventModel::ServerStopped(
                plain_outcome(outcome),
            ),
        }
    }
}

impl View for CloseAction {
    type V = CloseModel;

    open spec fn view(&self) -> CloseModel {
        match *self {
            CloseAction::EndSession(request) => CloseModel::EndSession(request@),
            CloseAction::StopServer { outcome } => CloseModel::StopServer(plain_outcome(outcome)),
            CloseAction::Finish { outcome } => CloseModel::Finish(plain_outcome(outcome)),
        }
    }
}

/// What to do once the session needs no more ending.
pub open spec fn after_session(
    state: BackendState,
    outcome: Result<(), Seq<char>>,
) -> CloseModel {
    if state.owns_process {
        CloseModel::StopServer(outcome)
    } else {
        CloseModel::Finish(outcome)
    }
}

/// What to do next while a backend closes: end the session of an open tab, then
/// stop the server where it is the backend's own.
pub open spec fn close_next(state: BackendState, event: CloseEventModel) -> CloseModel {
    match event {
        CloseEventModel::Started => if state.tab_id.len() == 0 {
            after_session(state, Ok(()))
        } else {
            CloseModel::EndSession(state.session_end())
        },
        CloseEventModel::SessionEnded(ended) => after_session(
            state,
            exchange::acknowledgement(ended),
        ),
        CloseEventModel::ServerStopped(outcome) => CloseModel::Finish(outcome),
    }
}

/// A backend after an action of its closing: a server that is to be stopped is
/// no longer the backend's own.
pub open spec fn after_close_action(state: BackendState, action: CloseModel) -> BackendState {
    BackendState { owns_process: state.owns_process && !(action is StopServer), ..state }
}

impl CamofoxBackend {
    fn stop_or_finish(&mut self, outcome: Result<(), String>) -> (action: CloseAction)
        ensures
            action@ == after_session(old(self)@, plain_outcome(outcome)),
            final(self)@ == after_close_action(old(self)@, action@),
    {
        if self.release() {
            CloseAction::StopServer { outcome }
        } else {
            CloseAction::Finish { outcome }
        }
    }

    /// Says how to go on closing.
    pub fn close_next(&mut self, event: CloseEvent) -> (action: CloseAction)
        requires
            event matches CloseEvent::SessionEnded(ended) ==> ended.wf(),
        ensures
            action@ == close_next(old(self)@, event@),
            final(self)@ == after_close_action(old(self)@, action@),
    {
        match event {
            CloseEvent::Started => match self.close() {
                Some(request) => CloseAction::EndSession(request),
                None => self.stop_or_finish(Ok(())),
            },
            CloseEvent::SessionEnded(ended) => {
                let outcome = exchange::acknowledged(ended);
                self.stop_or_finish(outcome)
            },
            CloseEvent::ServerStopped { outcome } => CloseAction::Finish { outcome },
        }
    }
}

/// A thing that closing has done outside.
pub enum CloseCall {
    EndSession(exchange::RequestModel),
    StopServer,
}

/// How far a closing is from its end.
pub open spec fn close_distance(event: CloseEventModel) -> nat {
    match event {
        CloseEventModel::Started => 2,
        CloseEventModel::SessionEnded(_) => 1,
        CloseEventModel::ServerStopped(_) => 0,
    }
}

/// What a closing has done from `event` on, one thing after the other, where the
/// request that ends the session comes to the end `ended`; what the closing
/// gives; and the backend that it leaves.
pub open spec fn closed(state: BackendState, event: CloseEventModel, ended: Exchange) -> (
    Seq<CloseCall>,
    Result<(), Seq<char>>,
    BackendState,
)
    decreases close_distance(event),
{
    let action = close_next(state, event);
    let next = after_close_action(state, action);
    match action {
        CloseModel::EndSession(request) => {
            let (calls, outcome, last) = closed(next, CloseEventModel::SessionEnded(ended), ended);
            (seq![CloseCall::EndSession(request)] + calls, outcome, last)
        },
        CloseModel::StopServer(outcome) => {
            let (calls, outcome, last) = closed(
                next,
                CloseEventModel::ServerStopped(outcome),
                ended,
            );
            (seq![CloseCall::StopServer] + calls, outcome, last)
        },
        CloseModel::Finish(outcome) => (Seq::empty(), outcome, next),
    }
}

/// Closing ends the session first, where there is a tab, and then stops the
/// server, where it is the backend's own: whatever ending the session gave, and
/// nothing else. It gives what ending the session gave, or success where there
/// was no session to end, and it leaves a backend without a server of its own.
pub proof fn closing_ends_the_session_and_then_stops_the_server(
    state: BackendState,
    ended: Exchange,
)
    ensures
        closed(state, CloseEventModel::Started, ended) == (
            (if state.tab_id.len() > 0 {
                seq![CloseCall::EndSession(state.session_end())]
            } else {
                Seq::empty()
            }) + (if state.owns_process {
                seq![CloseCall::StopServer]
            } else {
                Seq::empty()
            }),
            if state.tab_id.len() > 0 {
                exchange::acknowledgement(ended)
            } else {
                Ok(())
            },
            released(state),
        ),
{
    reveal_with_fuel(closed, 3);
    let none = Seq::<CloseCall>::empty();
    let end = seq![CloseCall::EndSession(state.session_end())];
    let stop = seq![CloseCall::StopServer];
    assert(none + none == none);
    assert(none + stop == stop);
    assert(stop + none == stop);
    assert(end + none == end);
    assert(end + (stop + none) == end + stop);
}

/// Once a backend has given its server up, or has closed, whatever ending the
/// session gave, there is nothing left to stop.
pub proof fn nothing_is_left_to_stop_after_release_or_closing(state: BackendState, ended: Exchange)
    ensures
        !must_stop(released(state)),
        !must_stop(closed(state, CloseEventModel::Started, ended).2),
{
    closing_ends_the_session_and_then_stops_the_server(state, ended);
}

/// Every request goes to the backend's own server and carries its access key,
/// where it has one.
pub proof fn requests_go_to_the_server_with_the_key(
    state: BackendState,
    method: Method,
    path: Seq<char>,
    body: Option<Map<Seq<char>, json::Json>>,
)
    ensures
        state.base_url.is_prefix_of(state.request(method, path, body).url),
        state.request(method, path, body).bearer == state.access_key,
{
    let url = state.base_url + path;
    assert(url.subrange(0, state.base_url.len() as int) == state.base_url);
}

/// The names of the members are all different.
proof fn lemma_member_names()
    ensures
        "userId"@ != "ref"@,
        "userId"@ != "selector"@,
        "userId"@ != "text"@,
        "userId"@ != "mode"@,
        "userId"@ != "url"@,
        "userId"@ != "expression"@,
        "userId"@ != "sessionKey"@,
        "ref"@ != "selector"@,
        "ref"@ != "text"@,
        "ref"@ != "mode"@,
        "selector"@ != "text"@,
        "selector"@ != "mode"@,
        "text"@ != "mode"@,
{
    reveal_strlit("userId");
    reveal_strlit("ref");
    reveal_strlit("selector");
    reveal_strlit("text");
    reveal_strlit("mode");
    reveal_strlit("url");
    reveal_strlit("expression");
    reveal_strlit("sessionKey");
    assert("userId"@.len() == 6 && "ref"@.len() == 3 && "selector"@.len() == 8);
    assert("url"@.len() == 3 && "expression"@.len() == 10 && "sessionKey"@.len() == 10);
    assert("text"@.len() == 4 && "text"@[0] == 't');
    assert("mode"@.len() == 4 && "mode"@[0] == 'm');
}

/// The request's body says whose session it belongs to.
pub open spec fn names_user(request: exchange::RequestModel, user_id: Seq<char>) -> bool {
    request.body matches Some(members) && members.contains_pair(
        "userId"@,
        json::Json::Text(user_id),
    )
}

/// Whatever is posted to the server says whose session it belongs to.
pub proof fn every_body_names_the_user(
    state: BackendState,
    session_id: Seq<char>,
    url: Seq<char>,
    expression: Seq<char>,
    selector: Seq<char>,
    value: Seq<char>,
    action: Seq<char>,
)
    ensures
        names_user(state.tab_creation(session_id), state.user_id),
        names_user(state.navigation(url), state.user_id),
        names_user(state.evaluation(expression), state.user_id),
        names_user(state.clicking(selector), state.user_id),
        names_user(state.filling(selector, value), state.user_id),
        names_user(state.tab_post(action, state.user_members()), state.user_id),
{
    lemma_member_names();
}

/// Filling an element names it as clicking it does, and adds the text and the
/// mode, nothing else.
pub proof fn filling_names_the_element_as_clicking_does(
    state: BackendState,
    selector: Seq<char>,
    value: Seq<char>,
)
    ensures
        ({
            let clicked = state.clicking(selector).body->0;
            let filled = state.filling(selector, value).body->0;
            &&& filled.contains_pair("text"@, json::Json::Text(value))
            &&& filled.contains_pair("mode"@, json::Json::Text("fill"@))
            &&& filled.remove("text"@).remove("mode"@) == clicked
        }),
{
    lemma_member_names();
    let clicked = state.clicking(selector).body->0;
    let filled = state.filling(selector, value).body->0;
    assert(filled.remove("text"@).remove("mode"@) =~= clicked);
}

/// An element's reference names the same element with and without the `@`.
pub proof fn at_sign_before_a_ref_is_optional(user_id: Seq<char>, name: Seq<char>)
    requires
        refs::is_ref(name),
    ensures
        selector_members(user_id, seq!['@'] + name) == selector_members(user_id, name),
{
    assert((seq!['@'] + name).skip(1) == name);
}

/// A selector that is no reference is sent as it is, `@` and all.
pub proof fn other_selectors_are_sent_unchanged(user_id: Seq<char>, selector: Seq<char>)
    requires
        !refs::is_ref(refs::without_at(selector)),
    ensures
        selector_members(user_id, selector).contains_pair("selector"@, json::Json::Text(selector)),
        !selector_members(user_id, selector).contains_key("ref"@),
{
    lemma_member_names();
}

/// What a snapshot shows of an element is a selector for that element: the text
/// between the brackets, taken as a selector, names the reference that the
/// server gave.
pub proof fn shown_refs_are_selectors(
    user_id: Seq<char>,
    snapshot: Seq<char>,
    start: int,
    end: int,
)
    requires
        refs::bracketed_ref(snapshot, start, end),
    ensures
        ({
            let at = refs::marked(snapshot, start).len() as int;
            let shown = refs::normalized(snapshot).subrange(at + 1, at + 1 + (end - start));
            selector_members(user_id, shown).contains_pair(
                "ref"@,
                json::Json::Text(snapshot.subrange(start + 1, end)),
            )
        }),
{
    let at = refs::marked(snapshot, start).len() as int;
    let whole = refs::normalized(snapshot);
    let name = snapshot.subrange(start + 1, end);
    refs::bracketed_ref_is_shown_with_at(snapshot, start, end);
    let window = whole.subrange(at, at + 2 + (end - start));
    let shown = whole.subrange(at + 1, at + 1 + (end - start));
    assert forall|k: int| 0 <= k < shown.len() implies #[trigger] shown[k] == (seq!['@']
        + name)[k] by {
        assert(shown[k] == window[k + 1]);
    }
    assert(shown == seq!['@'] + name);
    at_sign_before_a_ref_is_optional(user_id, name);
}

/// Two backends of one server that end the same session are the same user.
pub proof fn users_end_their_own_session(a: BackendState, b: BackendState)
    requires
        a.base_url == b.base_url,
        a.session_end().url == b.session_end().url,
    ensures
        a.user_id == b.user_id,
{
    let prefix = a.base_url + "/sessions/"@;
    let left = codec::percent_encoded(a.user_id);
    let right = codec::percent_encoded(b.user_id);
    assert(a.session_end().url.skip(prefix.len() as int) == left);
    assert(b.session_end().url.skip(prefix.len() as int) == right);
    codec::percent_encoding_is_injective(a.user_id, b.user_id);
}

} // verus!
