//! Finding or starting a Camofox server, and waiting for it to be up.
use crate::camofox;
use crate::camofox::{BackendState, CamofoxBackend};
use crate::codec;
use crate::exchange;
use crate::exchange::Request;
use crate::text;
use vstd::prelude::*;
use vstd::string::*;

verus! {

/// How long a server may take to answer, in milliseconds.
pub const STARTUP_TIMEOUT_MILLIS: u64 = 30_000;

/// How long to wait between two attempts to reach a server, in milliseconds.
pub const STARTUP_POLL_INTERVAL_MILLIS: u64 = 100;

/// The user that a session acts as.
pub open spec fn session_user(session_id: Seq<char>) -> Seq<char> {
    "agent-browser-"@ + session_id
}

/// The server to attach to: the configured address without its trailing
/// slashes, where one is configured that is not blank.
pub open spec fn attach_base(configured: Option<Seq<char>>) -> Option<Seq<char>> {
    match configured {
        Some(url) if !text::is_blank(url) => Some(text::without_trailing_slashes(url)),
        _ => None,
    }
}

/// The address of a server that was spawned to listen on a port of this host.
pub open spec fn local_base(port: u16) -> Seq<char> {
    "http://127.0.0.1:"@ + text::decimal(port as nat)
}

/// How a launch begins: the backend is attached to a server, or a server has to
/// be spawned for it.
pub enum Launch {
    Attached(CamofoxBackend),
    Spawning(PendingLaunch),
}

/// A launch that waits for its server to be spawned.
pub struct PendingLaunch {
    user_id: String,
    access_key: Option<String>,
}

/// What a pending launch knows.
#[verifier::ext_equal]
pub struct PendingModel {
    pub user_id: Seq<char>,
    pub access_key: Option<Seq<char>>,
}

/// What the beginning of a launch says.
pub enum LaunchModel {
    Attached(BackendState),
    Spawning(PendingModel),
}

impl View for PendingLaunch {
    type V = PendingModel;

    closed spec fn view(&self) -> PendingModel {
        PendingModel { user_id: self.user_id@, access_key: text::text_option(self.access_key) }
    }
}

impl View for Launch {
    type V = LaunchModel;

    open spec fn view(&self) -> LaunchModel {
        match *self {
            Launch::Attached(backend) => LaunchModel::Attached(backend@),
            Launch::Spawning(pending) => LaunchModel::Spawning(pending@),
        }
    }
}

/// How a launch begins.
pub open spec fn launched(
    session_id: Seq<char>,
    configured: Option<Seq<char>>,
    access_key: Option<Seq<char>>,
) -> LaunchModel {
    match attach_base(configured) {
        Some(base_url) => LaunchModel::Attached(
            BackendState {
                base_url,
                user_id: session_user(session_id),
                tab_id: Seq::empty(),
                access_key,
                owns_process: false,
            },
        ),
        None => LaunchModel::Spawning(
            PendingModel { user_id: session_user(session_id), access_key },
        ),
    }
}

impl CamofoxBackend {
    /// Attaches to the configured server, or finds that one has to be spawned.
    /// The backend still has to wait for its server and to open its tab.
    pub fn launch(
        session_id: &str,
        configured_url: Option<&str>,
        access_key: Option<String>,
    ) -> (launch: Launch)
        ensures
            launch@ == launched(
                session_id@,
                text::str_option(configured_url),
                text::text_option(access_key),
            ),
    {
        let user_id = text::joined("agent-browser-", session_id);
        match configured_url {
            Some(url) => {
                if !text::blank(url) {
                    let base_url = text::trim_trailing_slashes(url);
                    return Launch::Attached(
                        CamofoxBackend::assemble(base_url, user_id, access_key, false),
                    );
                }
            },
            None => {},
        }
        Launch::Spawning(PendingLaunch { user_id, access_key })
    }
}

/// How the server is to be spawned: what to run, and which environment
/// variables to add. Its output is discarded.
#[derive(Debug)]
pub struct SpawnPlan {
    pub executable: String,
    pub env: Vec<(String, String)>,
}

/// The environment variables as text.
pub open spec fn env_text(env: Seq<(String, String)>) -> Seq<(Seq<char>, Seq<char>)> {
    env.map_values(|entry: (String, String)| (entry.0@, entry.1@))
}

/// The environment variables that a spawned server is given: where to listen;
/// no crash reports, unless that is configured already; the access key, where
/// there is one.
pub open spec fn spawn_env(
    port: u16,
    crash_report_configured: bool,
    access_key: Option<Seq<char>>,
) -> Seq<(Seq<char>, Seq<char>)> {
    seq![
        ("CAMOFOX_BIND_HOST"@, "127.0.0.1"@),
        ("CAMOFOX_PORT"@, text::decimal(port as nat)),
    ] + (if crash_report_configured {
        Seq::empty()
    } else {
        seq![("CAMOFOX_CRASH_REPORT_ENABLED"@, "false"@)]
    }) + (match access_key {
        Some(key) => seq![("CAMOFOX_ACCESS_KEY"@, key)],
        None => Seq::empty(),
    })
}

fn add_variable(env: &mut Vec<(String, String)>, name: &str, value: &str)
    ensures
        env_text(final(env)@) == env_text(old(env)@).push((name@, value@)),
{
    env.push((name.to_owned(), value.to_owned()));
    assert(env_text(env@) == env_text(old(env)@).push((name@, value@)));
}

/// Why a launch failed before the server was up.
#[derive(Debug)]
pub enum LaunchError {
    HttpClient { error: String },
    ReservePort { error: String },
    ReadPort { error: String },
    Spawn { executable: String, error: String },
}

/// The complaint about a launch that failed.
pub open spec fn launch_complaint(failure: LaunchError) -> Seq<char> {
    match failure {
        LaunchError::HttpClient { error } => "Failed to create Camofox HTTP client: "@ + error@,
        LaunchError::ReservePort { error } => "Failed to reserve a Camofox port: "@ + error@,
        LaunchError::ReadPort { error } => "Failed to read reserved Camofox port: "@ + error@,
        LaunchError::Spawn { executable, error } => "Failed to launch Camofox with '"@
            + executable@ + "': "@ + error@
            + ". Install @askjo/camofox-browser or set AGENT_BROWSER_CAMOFOX_EXECUTABLE."@,
    }
}

impl LaunchError {
    /// Words the complaint.
    pub fn message(&self) -> (complaint: String)
        ensures
            complaint@ == launch_complaint(*self),
    {
        match self {
            LaunchError::HttpClient { error } => text::joined(
                "Failed to create Camofox HTTP client: ",
                error.as_str(),
            ),
            LaunchError::ReservePort { error } => text::joined(
                "Failed to reserve a Camofox port: ",
                error.as_str(),
            ),
            LaunchError::ReadPort { error } => text::joined(
                "Failed to read reserved Camofox port: ",
                error.as_str(),
            ),
            LaunchError::Spawn { executable, error } => {
                let mut complaint = text::joined(
                    "Failed to launch Camofox with '",
                    executable.as_str(),
                );
                complaint.append("': ");
                complaint.append(error.as_str());
                complaint.append(
                    ". Install @askjo/camofox-browser or set AGENT_BROWSER_CAMOFOX_EXECUTABLE.",
                );
                complaint
            },
        }
    }
}

/// Which program to spawn: the one asked for; else the one configured, unless
/// that is blank; else the one found next to this program; else the one on the
/// search path.
pub open spec fn executable_choice(
    explicit: Option<Seq<char>>,
    configured: Option<Seq<char>>,
    adjacent: Option<Seq<char>>,
) -> Seq<char> {
    match explicit {
        Some(path) => path,
        None => match configured {
            Some(path) if !text::is_blank(path) => path,
            _ => match adjacent {
                Some(path) => path,
                None => "camofox-browser"@,
            },
        },
    }
}

/// Chooses the program to spawn. `adjacent` is the path of the server next to
/// this program, where there is such a file.
pub fn resolve_camofox_executable(
    explicit: Option<&str>,
    configured: Option<&str>,
    adjacent: Option<&str>,
) -> (executable: String)
    ensures
        executable@ == executable_choice(
            text::str_option(explicit),
            text::str_option(configured),
            text::str_option(adjacent),
        ),
{
    match explicit {
        Some(path) => return path.to_owned(),
        None => {},
    }
    match configured {
        Some(path) => {
            if !text::blank(path) {
                return path.to_owned();
            }
        },
        None => {},
    }
    match adjacent {
        Some(path) => path.to_owned(),
        None => "camofox-browser".to_owned(),
    }
}

/// The backend whose server is spawned to listen on the port.
pub open spec fn spawned(pending: PendingModel, port: u16) -> BackendState {
    BackendState {
        base_url: local_base(port),
        user_id: pending.user_id,
        tab_id: Seq::empty(),
        access_key: pending.access_key,
        owns_process: true,
    }
}

impl PendingLaunch {
    /// Plans the server that listens on the reserved port, and the backend that
    /// owns it. The program is chosen as `resolve_camofox_executable` does.
    pub fn spawn(
        self,
        explicit: Option<&str>,
        configured: Option<&str>,
        adjacent: Option<&str>,
        port: u16,
        crash_report_configured: bool,
    ) -> (planned: (SpawnPlan, CamofoxBackend))
        ensures
            planned.0.executable@ == executable_choice(
                text::str_option(explicit),
                text::str_option(configured),
                text::str_option(adjacent),
            ),
            env_text(planned.0.env@) == spawn_env(
                port,
                crash_report_configured,
                self@.access_key,
            ),
            planned.1@ == spawned(self@, port),
    {
        let executable = resolve_camofox_executable(explicit, configured, adjacent);
        let mut env: Vec<(String, String)> = Vec::new();
        let number = text::decimal_text(port);
        assert(env_text(env@) == Seq::<(Seq<char>, Seq<char>)>::empty());
        add_variable(&mut env, "CAMOFOX_BIND_HOST", "127.0.0.1");
        add_variable(&mut env, "CAMOFOX_PORT", number.as_str());
        if !crash_report_configured {
            add_variable(&mut env, "CAMOFOX_CRASH_REPORT_ENABLED", "false");
        }
        match &self.access_key {
            Some(key) => add_variable(&mut env, "CAMOFOX_ACCESS_KEY", key.as_str()),
            None => {},
        }
        assert(env_text(env@) == spawn_env(port, crash_report_configured, self@.access_key));
        let base_url = text::joined("http://127.0.0.1:", number.as_str());
        (
            SpawnPlan { executable, env },
            CamofoxBackend::assemble(base_url, self.user_id, self.access_key, true),
        )
    }
}

/// The file name of a program, on Windows or elsewhere.
pub fn executable_name(base: &str, windows: bool) -> (name: String)
    ensures
        name@ == if windows {
            base@ + ".cmd"@
        } else {
            base@
        },
{
    if windows {
        text::joined(base, ".cmd")
    } else {
        base.to_owned()
    }
}

/// What happened while a backend waits for its server.
#[derive(Debug)]
pub enum StartupEvent {
    /// The waiting begins.
    Started,
    /// The server's process is still running.
    ProcessRunning,
    /// The server's process has ended.
    ProcessExited { exit_status: String },
    /// The server's process could not be inspected.
    InspectFailed { error: String },
    /// The server has answered the probe.
    Answered { status: u16, elapsed_millis: u64 },
    /// The probe was not answered.
    Unanswered { elapsed_millis: u64 },
    /// The pause is over.
    Paused,
}

/// What to do next while a backend waits for its server.
#[derive(Debug)]
pub enum StartupAction {
    /// See whether the server's process is still running.
    Inspect,
    /// Send the probe.
    Probe(Request),
    Pause { millis: u64 },
    /// The server is up.
    Ready,
    /// End the launch with the complaint, and stop the server's process first
    /// where that is asked for.
    GiveUp { complaint: String, stop: bool },
}

/// What an action says.
pub enum StartupModel {
    Inspect,
    Probe(exchange::RequestModel),
    Pause(u64),
    Ready,
    GiveUp(Seq<char>, bool),
}

impl View for StartupAction {
    type V = StartupModel;

    open spec fn view(&self) -> StartupModel {
        match *self {
            StartupAction::Inspect => StartupModel::Inspect,
            StartupAction::Probe(request) => StartupModel::Probe(request@),
            StartupAction::Pause { millis } => StartupModel::Pause(millis),
            StartupAction::Ready => StartupModel::Ready,
            StartupAction::GiveUp { complaint, stop } => StartupModel::GiveUp(complaint@, stop),
        }
    }
}

/// What to do after a probe that was not answered with success.
pub open spec fn startup_retry(state: BackendState, elapsed_millis: u64) -> StartupModel {
    if elapsed_millis < STARTUP_TIMEOUT_MILLIS {
        StartupModel::Pause(STARTUP_POLL_INTERVAL_MILLIS)
    } else {
        StartupModel::GiveUp(
            "Timed out waiting for Camofox at "@ + state.base_url,
            state.owns_process,
        )
    }
}

/// What to do next while a backend waits for its server.
pub open spec fn startup_next(state: BackendState, event: StartupEvent) -> StartupModel {
    match event {
        StartupEvent::Started | StartupEvent::Paused => if state.owns_process {
            StartupModel::Inspect
        } else {
            StartupModel::Probe(state.health_probe())
        },
        StartupEvent::ProcessRunning => StartupModel::Probe(state.health_probe()),
        StartupEvent::ProcessExited { exit_status } => StartupModel::GiveUp(
            "Camofox exited during startup with status "@ + exit_status@,
            false,
        ),
        StartupEvent::InspectFailed { error } => StartupModel::GiveUp(
            "Failed to inspect Camofox process: "@ + error@,
            false,
        ),
        StartupEvent::Answered { status, elapsed_millis } => if codec::is_success(status) {
            StartupModel::Ready
        } else {
            startup_retry(state, elapsed_millis)
        },
        StartupEvent::Unanswered { elapsed_millis } => startup_retry(state, elapsed_millis),
    }
}

impl CamofoxBackend {
    fn retry(&self, elapsed_millis: u64) -> (action: StartupAction)
        ensures
            action@ == startup_retry(self@, elapsed_millis),
    {
        if elapsed_millis < STARTUP_TIMEOUT_MILLIS {
            StartupAction::Pause { millis: STARTUP_POLL_INTERVAL_MILLIS }
        } else {
            StartupAction::GiveUp {
                complaint: text::joined("Timed out waiting for Camofox at ", self.base_url()),
                stop: self.owns_process(),
            }
        }
    }

    /// Says how to go on waiting for the server. `elapsed_millis` counts from
    /// `Started`.
    pub fn wait_until_ready(&self, event: StartupEvent) -> (action: StartupAction)
        ensures
            action@ == startup_next(self@, event),
    {
        match event {
            StartupEvent::Started | StartupEvent::Paused => {
                if self.owns_process() {
                    StartupAction::Inspect
                } else {
                    StartupAction::Probe(self.probe())
                }
            },
            StartupEvent::ProcessRunning => StartupAction::Probe(self.probe()),
            StartupEvent::ProcessExited { exit_status } => StartupAction::GiveUp {
                complaint: text::joined(
                    "Camofox exited during startup with status ",
                    exit_status.as_str(),
                ),
                stop: false,
            },
            StartupEvent::InspectFailed { error } => StartupAction::GiveUp {
                complaint: text::joined("Failed to inspect Camofox process: ", error.as_str()),
                stop: false,
            },
            StartupEvent::Answered { status, elapsed_millis } => {
                if exchange::succeeded(status) {
                    StartupAction::Ready
                } else {
                    self.retry(elapsed_millis)
                }
            },
            StartupEvent::Unanswered { elapsed_millis } => self.retry(elapsed_millis),
        }
    }
}

/// What to do next in a launch whose server has been found or spawned.
#[derive(Debug)]
pub enum LaunchAction {
    /// Wait for the server, or give up.
    Wait(StartupAction),
    /// Have the server create the session's tab; its answer is for `open_tab`.
    CreateTab(Request),
}

/// What an action of a launch says.
pub enum LaunchActionModel {
    Wait(StartupModel),
    CreateTab(exchange::RequestModel),
}

impl View for LaunchAction {
    type V = LaunchActionModel;

    open spec fn view(&self) -> LaunchActionModel {
        match *self {
            LaunchAction::Wait(action) => LaunchActionModel::Wait(action@),
            LaunchAction::CreateTab(request) => LaunchActionModel::CreateTab(request@),
        }
    }
}

/// What to do next in a launch: wait for the server, then create the tab.
pub open spec fn launch_next(
    state: BackendState,
    session_id: Seq<char>,
    event: StartupEvent,
) -> LaunchActionModel {
    match startup_next(state, event) {
        StartupModel::Ready => LaunchActionModel::CreateTab(state.tab_creation(session_id)),
        other => LaunchActionModel::Wait(other),
    }
}

impl CamofoxBackend {
    /// Says how to go on with the launch of a session.
    pub fn continue_launch(&self, session_id: &str, event: StartupEvent) -> (action: LaunchAction)
        ensures
            action@ == launch_next(self@, session_id@, event),
    {
        match self.wait_until_ready(event) {
            StartupAction::Ready => LaunchAction::CreateTab(self.create_tab(session_id)),
            other => LaunchAction::Wait(other),
        }
    }
}

/// The session's tab is asked for exactly when the server has answered with
/// success.
pub proof fn tab_is_created_on_a_server_that_is_up(
    state: BackendState,
    session_id: Seq<char>,
    event: StartupEvent,
)
    ensures
        launch_next(state, session_id, event) is CreateTab <==> (
        event matches StartupEvent::Answered { status, .. } && codec::is_success(status)),
{
}

/// The event reports what came of the action.
pub open spec fn reports(event: StartupEvent, action: StartupModel) -> bool {
    match action {
        StartupModel::Inspect => event is ProcessRunning || event is ProcessExited
            || event is InspectFailed,
        StartupModel::Probe(_) => event is Answered || event is Unanswered,
        StartupModel::Pause(_) => event is Paused,
        StartupModel::Ready => false,
        StartupModel::GiveUp(_, _) => false,
    }
}

/// The event at `i` reports what came of the action that the event before it led
/// to.
pub open spec fn follows(state: BackendState, events: Seq<StartupEvent>, i: int) -> bool {
    reports(events[i], startup_next(state, events[i - 1]))
}

/// The events of a wait, in order: it begins with `Started`, and every further
/// event reports what came of the action that the event before it led to.
pub open spec fn is_wait(state: BackendState, events: Seq<StartupEvent>) -> bool {
    &&& events.len() > 0
    &&& events[0] is Started
    &&& forall|i: int| 0 < i < events.len() ==> #[trigger] follows(state, events, i)
}

/// The actions of a wait, one for each event.
pub open spec fn waited(state: BackendState, events: Seq<StartupEvent>) -> Seq<StartupModel> {
    events.map_values(|event: StartupEvent| startup_next(state, event))
}

/// In a whole wait, every probe of an owned server comes right after an
/// inspection that saw its process running.
pub proof fn owned_servers_are_probed_while_seen_running(
    state: BackendState,
    events: Seq<StartupEvent>,
    i: int,
)
    requires
        is_wait(state, events),
        state.owns_process,
        0 <= i < events.len(),
        waited(state, events)[i] is Probe,
    ensures
        i > 0,
        waited(state, events)[i - 1] is Inspect,
        events[i] is ProcessRunning,
{
    if i > 0 {
        assert(follows(state, events, i));
    }
}

/// In a whole wait, a server that is found up, or given up because the time is
/// up, has just been probed; one of the backend's own was seen running before
/// that.
pub proof fn a_wait_is_decided_by_a_probe(
    state: BackendState,
    events: Seq<StartupEvent>,
    i: int,
)
    requires
        is_wait(state, events),
        0 <= i < events.len(),
        waited(state, events)[i] is Ready || is_too_late(events[i]),
    ensures
        i > 0,
        waited(state, events)[i - 1] == StartupModel::Probe(state.health_probe()),
        state.owns_process ==> i > 1 && waited(state, events)[i - 2] is Inspect && events[i
            - 1] is ProcessRunning,
{
    if i > 0 {
        assert(follows(state, events, i));
        if state.owns_process {
            owned_servers_are_probed_while_seen_running(state, events, i - 1);
        }
    }
}

/// In a whole wait, a further probe comes only after a pause since the one
/// before it, and only where that one left time.
pub proof fn probes_are_apart(state: BackendState, events: Seq<StartupEvent>, i: int)
    requires
        is_wait(state, events),
        0 < i < events.len(),
        waited(state, events)[i - 1] is Probe,
        i + 1 < events.len(),
    ensures
        waited(state, events)[i] == StartupModel::Pause(STARTUP_POLL_INTERVAL_MILLIS),
        !is_too_late(events[i]),
        events[i + 1] is Paused,
{
    assert(follows(state, events, i));
    assert(follows(state, events, i + 1));
}

/// A wait is over once the server is up or given up.
pub proof fn a_wait_ends_with_its_decision(
    state: BackendState,
    events: Seq<StartupEvent>,
    i: int,
)
    requires
        is_wait(state, events),
        0 <= i < events.len(),
        waited(state, events)[i] is Ready || waited(state, events)[i] is GiveUp,
    ensures
        i == events.len() - 1,
{
    if i + 1 < events.len() {
        assert(follows(state, events, i + 1));
    }
}

/// A backend attaches exactly where an address is configured that is not blank,
/// and then the server is not its own.
pub proof fn only_spawned_servers_are_owned(
    session_id: Seq<char>,
    configured: Option<Seq<char>>,
    access_key: Option<Seq<char>>,
)
    ensures
        match launched(session_id, configured, access_key) {
            LaunchModel::Attached(state) => {
                &&& !state.owns_process
                &&& configured matches Some(url) && !text::is_blank(url)
            },
            LaunchModel::Spawning(_) => configured is None || text::is_blank(configured->0),
        },
{
}

/// The backend that waits for its server: the attached one, or the one whose
/// server is spawned to listen on the port.
pub open spec fn starting(
    session_id: Seq<char>,
    configured: Option<Seq<char>>,
    access_key: Option<Seq<char>>,
    port: u16,
) -> BackendState {
    match launched(session_id, configured, access_key) {
        LaunchModel::Attached(state) => state,
        LaunchModel::Spawning(pending) => spawned(pending, port),
    }
}

/// A launch has failed: the wait was given up, or the server is up and the
/// session's tab could not be created.
pub open spec fn has_failed(
    state: BackendState,
    session_id: Seq<char>,
    events: Seq<StartupEvent>,
    tab_created: bool,
) -> bool {
    &&& is_wait(state, events)
    &&& match launch_next(state, session_id, events.last()) {
        LaunchActionModel::Wait(action) => action is GiveUp,
        LaunchActionModel::CreateTab(_) => !tab_created,
    }
}

/// However a launch fails, giving the server up then says that it has to be
/// stopped exactly where it was spawned: where no address is configured that is
/// not blank.
pub proof fn a_failed_launch_leaves_a_spawned_server_to_stop(
    session_id: Seq<char>,
    configured: Option<Seq<char>>,
    access_key: Option<Seq<char>>,
    port: u16,
    events: Seq<StartupEvent>,
    tab_created: bool,
)
    requires
        has_failed(
            starting(session_id, configured, access_key, port),
            session_id,
            events,
            tab_created,
        ),
    ensures
        camofox::must_stop(starting(session_id, configured, access_key, port)) <==> (configured is None
            || text::is_blank(configured->0)),
{
}

/// The address of an attached server is the configured one up to its trailing
/// slashes, and ends in none.
pub proof fn attached_base_ends_in_no_slash(url: Seq<char>)
    requires
        !text::is_blank(url),
    ensures
        attach_base(Some(url)) matches Some(base_url) && {
            &&& base_url.is_prefix_of(url)
            &&& base_url.len() > 0 ==> base_url.last() != '/'
            &&& forall|i: int| base_url.len() <= i < url.len() ==> #[trigger] url[i] == '/'
        },
{
    text::only_trailing_slashes_are_dropped(url);
}

/// Waiting ends well exactly when the server has answered with success.
pub proof fn ready_means_a_successful_answer(state: BackendState, event: StartupEvent)
    ensures
        startup_next(state, event) is Ready <==> (event matches StartupEvent::Answered {
            status,
            ..
        } && codec::is_success(status)),
{
}

/// The probe was not answered with success, and the time is up.
pub open spec fn is_too_late(event: StartupEvent) -> bool {
    match event {
        StartupEvent::Answered { status, elapsed_millis } => !codec::is_success(status)
            && elapsed_millis >= STARTUP_TIMEOUT_MILLIS,
        StartupEvent::Unanswered { elapsed_millis } => elapsed_millis >= STARTUP_TIMEOUT_MILLIS,
        _ => false,
    }
}

/// While waiting, a process is stopped exactly when it is the backend's own and
/// the time is up.
pub proof fn only_an_owned_server_is_stopped_and_only_late(
    state: BackendState,
    event: StartupEvent,
)
    ensures
        startup_next(state, event) matches StartupModel::GiveUp(_, true) <==> (state.owns_process
            && is_too_late(event)),
{
}

/// A backend that is attached to its server neither inspects nor stops the
/// server's process.
pub proof fn an_attached_server_is_left_alone(state: BackendState, event: StartupEvent)
    requires
        !state.owns_process,
    ensures
        !(startup_next(state, event) is Inspect),
        !(startup_next(state, event) matches StartupModel::GiveUp(_, true)),
{
}

/// Waiting goes on, with a pause, exactly when a probe was not answered with
/// success and there is time left.
pub proof fn waiting_goes_on_while_there_is_time(state: BackendState, event: StartupEvent)
    requires
        event is Answered || event is Unanswered,
    ensures
        startup_next(state, event) is Pause <==> !(startup_next(state, event) is Ready)
            && !is_too_late(event),
        startup_next(state, event) is GiveUp <==> is_too_late(event),
{
}

/// Sessions of different names are different users.
pub proof fn sessions_are_different_users(a: Seq<char>, b: Seq<char>)
    requires
        session_user(a) == session_user(b),
    ensures
        a == b,
{
    let prefix = "agent-browser-"@;
    assert(session_user(a).skip(prefix.len() as int) == a);
    assert(session_user(b).skip(prefix.len() as int) == b);
}

} // verus!
