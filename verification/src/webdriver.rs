//! The backend that drives a browser through a WebDriver client.
use crate::backend::BrowserBackend;
use crate::exchange;
use vstd::prelude::*;
use vstd::string::*;

verus! {

/// The actions that are not supported on WebDriver.
pub const WEBDRIVER_UNSUPPORTED_ACTIONS: [&'static str; 14] = [
    "screencast_start",
    "screencast_stop",
    "trace_start",
    "trace_stop",
    "profiler_start",
    "profiler_stop",
    "route",
    "unroute",
    "expose",
    "addscript",
    "addinitscript",
    "network",
    "har_start",
    "har_stop",
];

/// A call to the WebDriver client.
#[derive(Debug, PartialEq, Eq)]
pub enum ClientCall {
    Navigate { url: String },
    GetUrl,
    GetTitle,
    GetPageSource,
    /// Executes a script without arguments.
    ExecuteScript { script: String },
    Screenshot,
    FindElement { using: String, value: String },
    ClickElement { element_id: String },
    ClearElement { element_id: String },
    SendKeys { element_id: String, text: String },
    DeleteSession,
    Back,
    Forward,
    Refresh,
    GetCookies,
}

/// What a call says.
pub enum CallModel {
    Navigate(Seq<char>),
    GetUrl,
    GetTitle,
    GetPageSource,
    ExecuteScript(Seq<char>),
    Screenshot,
    FindElement(Seq<char>, Seq<char>),
    ClickElement(Seq<char>),
    ClearElement(Seq<char>),
    SendKeys(Seq<char>, Seq<char>),
    DeleteSession,
    Back,
    Forward,
    Refresh,
    GetCookies,
}

impl View for ClientCall {
    type V = CallModel;

    open spec fn view(&self) -> CallModel {
        match *self {
            ClientCall::Navigate { url } => CallModel::Navigate(url@),
            ClientCall::GetUrl => CallModel::GetUrl,
            ClientCall::GetTitle => CallModel::GetTitle,
            ClientCall::GetPageSource => CallModel::GetPageSource,
            ClientCall::ExecuteScript { script } => CallModel::ExecuteScript(script@),
            ClientCall::Screenshot => CallModel::Screenshot,
            ClientCall::FindElement { using, value } => CallModel::FindElement(using@, value@),
            ClientCall::ClickElement { element_id } => CallModel::ClickElement(element_id@),
            ClientCall::ClearElement { element_id } => CallModel::ClearElement(element_id@),
            ClientCall::SendKeys { element_id, text } => CallModel::SendKeys(element_id@, text@),
            ClientCall::DeleteSession => CallModel::DeleteSession,
            ClientCall::Back => CallModel::Back,
            ClientCall::Forward => CallModel::Forward,
            ClientCall::Refresh => CallModel::Refresh,
            ClientCall::GetCookies => CallModel::GetCookies,
        }
    }
}

/// What is left of an operation once the call under way has ended.
#[derive(Debug, PartialEq, Eq)]
pub enum Interaction {
    /// The element is being looked up, to be clicked.
    Click,
    /// The element is being looked up, to be filled with the text.
    Fill { text: String },
    /// The element is being cleared, to receive the text.
    Entering { element_id: String, text: String },
    /// The last call is under way.
    Last,
}

/// A call, and what is left of the operation that it belongs to.
#[derive(Debug, PartialEq, Eq)]
pub struct Step {
    pub call: ClientCall,
    pub rest: Interaction,
}

/// How an operation goes on.
#[derive(Debug, PartialEq, Eq)]
pub enum Progress {
    Next(Step),
    Finished,
    Failed { error: String },
}

/// What is left of an operation.
pub enum InteractionModel {
    Click,
    Fill(Seq<char>),
    Entering(Seq<char>, Seq<char>),
    Last,
}

/// What a step says.
pub struct StepModel {
    pub call: CallModel,
    pub rest: InteractionModel,
}

/// What a progress says.
pub enum ProgressModel {
    Next(StepModel),
    Finished,
    Failed(Seq<char>),
}

impl View for Interaction {
    type V = InteractionModel;

    open spec fn view(&self) -> InteractionModel {
        match *self {
            Interaction::Click => InteractionModel::Click,
            Interaction::Fill { text } => InteractionModel::Fill(text@),
            Interaction::Entering { element_id, text } => InteractionModel::Entering(
                element_id@,
                text@,
            ),
            Interaction::Last => InteractionModel::Last,
        }
    }
}

impl View for Step {
    type V = StepModel;

    open spec fn view(&self) -> StepModel {
        StepModel { call: self.call@, rest: self.rest@ }
    }
}

impl View for Progress {
    type V = ProgressModel;

    open spec fn view(&self) -> ProgressModel {
        match *self {
            Progress::Next(step) => ProgressModel::Next(step@),
            Progress::Finished => ProgressModel::Finished,
            Progress::Failed { error } => ProgressModel::Failed(error@),
        }
    }
}

/// The step of an operation that is one call.
pub open spec fn only(call: CallModel) -> StepModel {
    StepModel { call, rest: InteractionModel::Last }
}

/// The step that looks an element up by a CSS selector.
pub open spec fn lookup(selector: Seq<char>, rest: InteractionModel) -> StepModel {
    StepModel { call: CallModel::FindElement("css selector"@, selector), rest }
}

fn find(selector: &str, rest: Interaction) -> (step: Step)
    ensures
        step@ == lookup(selector@, rest@),
{
    Step {
        call: ClientCall::FindElement {
            using: "css selector".to_owned(),
            value: selector.to_owned(),
        },
        rest,
    }
}

/// WebDriver implementation of the backend, over the client it is given.
pub struct WebDriverBackend<C> {
    client: C,
}

impl<C> WebDriverBackend<C> {
    /// The client that performs the backend's calls.
    pub closed spec fn performer(self) -> C {
        self.client
    }

    pub fn new(client: C) -> (backend: Self)
        ensures
            backend.performer() == client,
    {
        Self { client }
    }

    pub fn client(&self) -> (client: &C)
        ensures
            *client == self.performer(),
    {
        &self.client
    }
}

impl<C: Send + Sync> BrowserBackend for WebDriverBackend<C> {
    type Call = Step;

    open spec fn kind(&self) -> Seq<char> {
        "webdriver"@
    }

    fn navigate(&self, url: &str) -> (step: Step)
        ensures
            step@ == only(CallModel::Navigate(url@)),
    {
        Step { call: ClientCall::Navigate { url: url.to_owned() }, rest: Interaction::Last }
    }

    fn get_url(&self) -> (step: Step)
        ensures
            step@ == only(CallModel::GetUrl),
    {
        Step { call: ClientCall::GetUrl, rest: Interaction::Last }
    }

    fn get_title(&self) -> (step: Step)
        ensures
            step@ == only(CallModel::GetTitle),
    {
        Step { call: ClientCall::GetTitle, rest: Interaction::Last }
    }

    fn get_content(&self) -> (step: Step)
        ensures
            step@ == only(CallModel::GetPageSource),
    {
        Step { call: ClientCall::GetPageSource, rest: Interaction::Last }
    }

    fn evaluate(&self, script: &str) -> (step: Step)
        ensures
            step@ == only(CallModel::ExecuteScript(script@)),
    {
        Step { call: ClientCall::ExecuteScript { script: script.to_owned() }, rest: Interaction::Last }
    }

    fn screenshot(&self) -> (step: Step)
        ensures
            step@ == only(CallModel::Screenshot),
    {
        Step { call: ClientCall::Screenshot, rest: Interaction::Last }
    }

    fn click(&self, selector: &str) -> (step: Step)
        ensures
            step@ == lookup(selector@, InteractionModel::Click),
    {
        find(selector, Interaction::Click)
    }

    fn fill(&self, selector: &str, value: &str) -> (step: Step)
        ensures
            step@ == lookup(selector@, InteractionModel::Fill(value@)),
    {
        find(selector, Interaction::Fill { text: value.to_owned() })
    }

    fn close(&self) -> (step: Option<Step>)
        ensures
            step matches Some(inner) && inner@ == only(CallModel::DeleteSession),
    {
        Some(Step { call: ClientCall::DeleteSession, rest: Interaction::Last })
    }

    fn back(&self) -> (step: Step)
        ensures
            step@ == only(CallModel::Back),
    {
        Step { call: ClientCall::Back, rest: Interaction::Last }
    }

    fn forward(&self) -> (step: Step)
        ensures
            step@ == only(CallModel::Forward),
    {
        Step { call: ClientCall::Forward, rest: Interaction::Last }
    }

    fn reload(&self) -> (step: Step)
        ensures
            step@ == only(CallModel::Refresh),
    {
        Step { call: ClientCall::Refresh, rest: Interaction::Last }
    }

    fn get_cookies(&self) -> (outcome: Result<Step, String>)
        ensures
            outcome matches Ok(step) && step@ == only(CallModel::GetCookies),
    {
        Ok(Step { call: ClientCall::GetCookies, rest: Interaction::Last })
    }

    fn backend_type(&self) -> &str {
        "webdriver"
    }
}

/// How an operation goes on once the call under way has ended. The call that
/// looks an element up ends in the element's identifier; what another call ends
/// in does not bear on how the operation goes on.
pub open spec fn advanced(
    state: InteractionModel,
    outcome: Result<Seq<char>, Seq<char>>,
) -> ProgressModel {
    match outcome {
        Err(error) => ProgressModel::Failed(error),
        Ok(element_id) => match state {
            InteractionModel::Click => ProgressModel::Next(
                only(CallModel::ClickElement(element_id)),
            ),
            InteractionModel::Fill(text) => ProgressModel::Next(
                StepModel {
                    call: CallModel::ClearElement(element_id),
                    rest: InteractionModel::Entering(element_id, text),
                },
            ),
            InteractionModel::Entering(cleared, text) => ProgressModel::Next(
                only(CallModel::SendKeys(cleared, text)),
            ),
            InteractionModel::Last => ProgressModel::Finished,
        },
    }
}

impl Interaction {
    /// Goes on after the call under way has ended.
    pub fn advance(self, outcome: Result<String, String>) -> (progress: Progress)
        ensures
            progress@ == advanced(self@, exchange::text_outcome(outcome)),
    {
        match outcome {
            Err(error) => Progress::Failed { error },
            Ok(element_id) => match self {
                Interaction::Click => Progress::Next(
                    Step { call: ClientCall::ClickElement { element_id }, rest: Interaction::Last },
                ),
                Interaction::Fill { text } => Progress::Next(
                    Step {
                        call: ClientCall::ClearElement { element_id: element_id.clone() },
                        rest: Interaction::Entering { element_id, text },
                    },
                ),
                Interaction::Entering { element_id: cleared, text } => Progress::Next(
                    Step {
                        call: ClientCall::SendKeys { element_id: cleared, text },
                        rest: Interaction::Last,
                    },
                ),
                Interaction::Last => Progress::Finished,
            },
        }
    }
}

/// The calls that an operation makes from `step` on while they end in
/// `outcomes`, one after the other, and how the operation ends, where it does.
pub open spec fn performed(
    step: StepModel,
    outcomes: Seq<Result<Seq<char>, Seq<char>>>,
) -> (Seq<CallModel>, Option<Result<(), Seq<char>>>)
    decreases outcomes.len(),
{
    if outcomes.len() == 0 {
        (seq![step.call], None)
    } else {
        match advanced(step.rest, outcomes.first()) {
            ProgressModel::Next(next) => {
                let (calls, end) = performed(next, outcomes.drop_first());
                (seq![step.call] + calls, end)
            },
            ProgressModel::Finished => (seq![step.call], Some(Ok(()))),
            ProgressModel::Failed(error) => (seq![step.call], Some(Err(error))),
        }
    }
}

/// A click whose calls all succeed looks the element up and clicks the one that
/// was found, and that is all.
pub proof fn click_clicks_what_was_found(
    selector: Seq<char>,
    element_id: Seq<char>,
    reply: Seq<char>,
)
    ensures
        performed(lookup(selector, InteractionModel::Click), seq![Ok(element_id), Ok(reply)]) == (
            seq![
                CallModel::FindElement("css selector"@, selector),
                CallModel::ClickElement(element_id),
            ],
            Some(Ok::<(), Seq<char>>(())),
        ),
{
    let outcomes = seq![Ok::<Seq<char>, Seq<char>>(element_id), Ok(reply)];
    reveal_with_fuel(performed, 3);
    assert(outcomes.drop_first() == seq![Ok::<Seq<char>, Seq<char>>(reply)]);
    let first = CallModel::FindElement("css selector"@, selector);
    let second = CallModel::ClickElement(element_id);
    assert(seq![first] + seq![second] == seq![first, second]);
}

/// A fill whose calls all succeed looks the element up, clears the one that was
/// found and then types the text into that same element, and that is all.
pub proof fn fill_clears_then_types(
    selector: Seq<char>,
    text: Seq<char>,
    element_id: Seq<char>,
    cleared: Seq<char>,
    typed: Seq<char>,
)
    ensures
        performed(
            lookup(selector, InteractionModel::Fill(text)),
            seq![Ok(element_id), Ok(cleared), Ok(typed)],
        ) == (
            seq![
                CallModel::FindElement("css selector"@, selector),
                CallModel::ClearElement(element_id),
                CallModel::SendKeys(element_id, text),
            ],
            Some(Ok::<(), Seq<char>>(())),
        ),
{
    let outcomes = seq![Ok::<Seq<char>, Seq<char>>(element_id), Ok(cleared), Ok(typed)];
    reveal_with_fuel(performed, 4);
    assert(outcomes.drop_first() == seq![Ok::<Seq<char>, Seq<char>>(cleared), Ok(typed)]);
    assert(outcomes.drop_first().drop_first() == seq![Ok::<Seq<char>, Seq<char>>(typed)]);
    let first = CallModel::FindElement("css selector"@, selector);
    let second = CallModel::ClearElement(element_id);
    let third = CallModel::SendKeys(element_id, text);
    assert(seq![first] + (seq![second] + seq![third]) == seq![first, second, third]);
}

/// The first call that fails ends the operation with its error: nothing is
/// called after it, whatever was left to do.
pub proof fn failure_ends_the_operation(
    step: StepModel,
    error: Seq<char>,
    later: Seq<Result<Seq<char>, Seq<char>>>,
)
    ensures
        performed(step, seq![Err(error)] + later) == (
            seq![step.call],
            Some(Err::<(), Seq<char>>(error)),
        ),
{
    let outcomes = seq![Err::<Seq<char>, Seq<char>>(error)] + later;
    assert(outcomes.first() == Err::<Seq<char>, Seq<char>>(error));
}

} // verus!
