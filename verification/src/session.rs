//! The start of a session: the process is launched, and a session is opened in it or
//! reconnected to, in one request and its response.

use crate::command::{autonomy, autonomy_level, set_optional, with_optional};
use crate::json::{empty_object, Json, JsonView};
use crate::model::{
    CursorView, DriverEvent, DriverEventView, InteractionMode, ProviderResumeCursor, RuntimeMode,
};
use crate::reply::{decline, no_answer, reject, rejection};
use crate::stream::{initial_state, Effect, EffectView, StateView, StreamState};
use crate::text::{joined, same_text};
use crate::views::{lemma_views_push, viewed, views};
use crate::wire::{
    following, identified_request, request_envelope, request_id, respond, response_envelope,
    WireMessage, WireMessageView,
};
use vstd::prelude::*;
use vstd::string::StringExecFns;

verus! {

/// How a session is to be started.
#[derive(Debug, PartialEq, Eq)]
pub struct StartOptions {
    pub cwd: String,
    pub mode: RuntimeMode,
    pub interaction_mode: InteractionMode,
    pub model: Option<String>,
    pub reasoning_effort: Option<String>,
    pub provider_cursor: Option<ProviderResumeCursor>,
    /// The name by which the user knows the provider of the cursor.
    pub cursor_provider: String,
}

/// What a [`StartOptions`] means.
pub struct StartOptionsView {
    pub cwd: Seq<char>,
    pub mode: RuntimeMode,
    pub interaction_mode: InteractionMode,
    pub model: Option<Seq<char>>,
    pub reasoning_effort: Option<Seq<char>>,
    pub provider_cursor: Option<CursorView>,
    pub cursor_provider: Seq<char>,
}

impl View for StartOptions {
    type V = StartOptionsView;

    open spec fn view(&self) -> StartOptionsView {
        StartOptionsView {
            cwd: self.cwd@,
            mode: self.mode,
            interaction_mode: self.interaction_mode,
            model: viewed(self.model),
            reasoning_effort: viewed(self.reasoning_effort),
            provider_cursor: viewed(self.provider_cursor),
            cursor_provider: self.cursor_provider@,
        }
    }
}

/// Why a session could not be started.
#[derive(Debug, PartialEq, Eq)]
pub enum StartError {
    /// The cursor is not one of a Factory session.
    ForeignCursor { provider: String },
    /// The process answered the request with an error.
    RequestFailed { method: String, error: String },
    /// The process did not answer in time.
    TimedOut { method: String },
    /// No more messages come from the process.
    ProcessExited,
    /// The process opened a session and did not say which.
    NoSessionId,
}

/// What a [`StartError`] means.
pub enum StartErrorView {
    ForeignCursor { provider: Seq<char> },
    RequestFailed { method: Seq<char>, error: Seq<char> },
    TimedOut { method: Seq<char> },
    ProcessExited,
    NoSessionId,
}

impl View for StartError {
    type V = StartErrorView;

    open spec fn view(&self) -> StartErrorView {
        match self {
            StartError::ForeignCursor { provider } => StartErrorView::ForeignCursor {
                provider: provider@,
            },
            StartError::RequestFailed { method, error } => StartErrorView::RequestFailed {
                method: method@,
                error: error@,
            },
            StartError::TimedOut { method } => StartErrorView::TimedOut { method: method@ },
            StartError::ProcessExited => StartErrorView::ProcessExited,
            StartError::NoSessionId => StartErrorView::NoSessionId,
        }
    }
}

/// What the user is told of an error.
pub open spec fn error_text(error: StartErrorView) -> Seq<char> {
    match error {
        StartErrorView::ForeignCursor { provider } => "cannot resume Factory Droid from a "@
            + provider + " cursor"@,
        StartErrorView::RequestFailed { method, error } => "Droid "@ + method + " failed: "@
            + error,
        StartErrorView::TimedOut { method } => "Droid "@ + method + " timed out"@,
        StartErrorView::ProcessExited => "Droid process exited during the handshake"@,
        StartErrorView::NoSessionId => "Droid initialize_session returned no session ID"@,
    }
}

impl StartError {
    /// What the user is told.
    pub fn message(&self) -> (text: String)
        ensures
            text@ == error_text(self@),
    {
        match self {
            StartError::ForeignCursor { provider } => {
                let mut text = joined("cannot resume Factory Droid from a ", provider);
                text.append(" cursor");
                text
            },
            StartError::RequestFailed { method, error } => {
                let mut text = joined("Droid ", method);
                text.append(" failed: ");
                text.append(error);
                text
            },
            StartError::TimedOut { method } => {
                let mut text = joined("Droid ", method);
                text.append(" timed out");
                text
            },
            StartError::ProcessExited => "Droid process exited during the handshake".to_owned(),
            StartError::NoSessionId => "Droid initialize_session returned no session ID".to_owned(),
        }
    }
}

/// What a fallible step gives.
pub open spec fn outcome<T: View>(result: Result<T, StartError>) -> Result<T::V, StartErrorView> {
    match result {
        Ok(value) => Ok(value@),
        Err(error) => Err(error@),
    }
}

/// What is needed to start a session.
#[derive(Debug, PartialEq, Eq)]
pub struct Launch {
    /// The arguments of the process.
    pub arguments: Vec<String>,
    /// The request that opens the session.
    pub method: String,
    pub params: Json,
    /// The session to reconnect to, if any.
    pub resumed: Option<String>,
    /// Whether requests of the agent are approved without asking.
    pub auto_approve: bool,
}

/// What a [`Launch`] means.
pub struct LaunchView {
    pub arguments: Seq<Seq<char>>,
    pub method: Seq<char>,
    pub params: JsonView,
    pub resumed: Option<Seq<char>>,
    pub auto_approve: bool,
}

impl View for Launch {
    type V = LaunchView;

    open spec fn view(&self) -> LaunchView {
        LaunchView {
            arguments: views(self.arguments),
            method: self.method@,
            params: self.params@,
            resumed: viewed(self.resumed),
            auto_approve: self.auto_approve,
        }
    }
}

/// The session that a cursor stands for: none without a cursor, and an error for a
/// cursor that does not name a Factory session.
pub open spec fn resumed_session(options: StartOptionsView) -> Result<
    Option<Seq<char>>,
    StartErrorView,
> {
    match options.provider_cursor {
        Some(CursorView::Droid { session_id }) => if session_id.len() > 0 {
            Ok(Some(session_id))
        } else {
            Err(StartErrorView::ForeignCursor { provider: options.cursor_provider })
        },
        Some(CursorView::Other) => Err(
            StartErrorView::ForeignCursor { provider: options.cursor_provider },
        ),
        None => Ok(None),
    }
}

/// The arguments of the process.
pub open spec fn launch_arguments(mode: RuntimeMode, interaction_mode: InteractionMode) -> Seq<
    Seq<char>,
> {
    seq![
        "exec"@,
        "--input-format"@,
        "stream-jsonrpc"@,
        "--output-format"@,
        "stream-jsonrpc"@,
        "--auto"@,
        autonomy(mode, interaction_mode),
    ]
}

/// The parameters that reconnect to a session.
pub open spec fn load_params(session_id: Seq<char>) -> JsonView {
    empty_object().with("sessionId"@, JsonView::Str(session_id)).with(
        "loadAllMessages"@,
        JsonView::Bool(false),
    )
}

/// The parameters that open a session.
pub open spec fn initialize_params(options: StartOptionsView) -> JsonView {
    with_optional(
        with_optional(
            empty_object().with("machineId"@, JsonView::Str("waku"@)).with(
                "cwd"@,
                JsonView::Str(options.cwd),
            ).with(
                "interactionMode"@,
                JsonView::Str(
                    if options.interaction_mode == InteractionMode::Plan {
                        "spec"@
                    } else {
                        "auto"@
                    },
                ),
            ).with(
                "autonomyLevel"@,
                JsonView::Str(autonomy(options.mode, options.interaction_mode)),
            ),
            "modelId"@,
            options.model,
        ),
        "reasoningEffort"@,
        options.reasoning_effort,
    )
}

/// What is needed to start a session.
pub open spec fn planned(options: StartOptionsView) -> Result<LaunchView, StartErrorView> {
    match resumed_session(options) {
        Ok(resumed) => Ok(
            LaunchView {
                arguments: launch_arguments(options.mode, options.interaction_mode),
                method: if resumed is Some {
                    "droid.load_session"@
                } else {
                    "droid.initialize_session"@
                },
                params: match resumed {
                    Some(session_id) => load_params(session_id),
                    None => initialize_params(options),
                },
                resumed,
                auto_approve: options.mode != RuntimeMode::Ask,
            },
        ),
        Err(error) => Err(error),
    }
}

/// The arguments of the process.
fn process_arguments(mode: RuntimeMode, interaction_mode: InteractionMode) -> (arguments: Vec<
    String,
>)
    ensures
        views(arguments) == launch_arguments(mode, interaction_mode),
{
    let mut arguments: Vec<String> = Vec::new();
    arguments.push("exec".to_owned());
    arguments.push("--input-format".to_owned());
    arguments.push("stream-jsonrpc".to_owned());
    arguments.push("--output-format".to_owned());
    arguments.push("stream-jsonrpc".to_owned());
    arguments.push("--auto".to_owned());
    arguments.push(autonomy_level(mode, interaction_mode).to_owned());
    assert(views(arguments) =~= launch_arguments(mode, interaction_mode));
    arguments
}

/// Plans the start of a session.
pub fn plan_start(options: StartOptions) -> (launch: Result<Launch, StartError>)
    ensures
        outcome(launch) == planned(options@),
{
    let arguments = process_arguments(options.mode, options.interaction_mode);
    let auto_approve = options.mode != RuntimeMode::Ask;
    match options.provider_cursor {
        Some(ProviderResumeCursor::Droid { session_id }) => {
            if session_id.as_str().is_empty() {
                return Err(StartError::ForeignCursor { provider: options.cursor_provider });
            }
            let params = Json::object().with("sessionId", Json::text(&session_id)).with(
                "loadAllMessages",
                Json::Bool(false),
            );
            Ok(
                Launch {
                    arguments,
                    method: "droid.load_session".to_owned(),
                    params,
                    resumed: Some(session_id),
                    auto_approve,
                },
            )
        },
        Some(ProviderResumeCursor::Other) => Err(
            StartError::ForeignCursor { provider: options.cursor_provider },
        ),
        None => {
            let interaction = if options.interaction_mode == InteractionMode::Plan {
                "spec"
            } else {
                "auto"
            };
            let params = Json::object().with("machineId", Json::text("waku")).with(
                "cwd",
                Json::text(&options.cwd),
            ).with("interactionMode", Json::text(interaction)).with(
                "autonomyLevel",
                Json::text(autonomy_level(options.mode, options.interaction_mode)),
            );
            let params = set_optional(params, "modelId", &options.model);
            let params = set_optional(params, "reasoningEffort", &options.reasoning_effort);
            Ok(
                Launch {
                    arguments,
                    method: "droid.initialize_session".to_owned(),
                    params,
                    resumed: None,
                    auto_approve,
                },
            )
        },
    }
}

/// A request whose response is waited for.
#[derive(Debug, PartialEq, Eq)]
pub struct Handshake {
    pub request_id: String,
    pub method: String,
}

/// What a [`Handshake`] means.
pub struct HandshakeView {
    pub request_id: Seq<char>,
    pub method: Seq<char>,
}

impl View for Handshake {
    type V = HandshakeView;

    open spec fn view(&self) -> HandshakeView {
        HandshakeView { request_id: self.request_id@, method: self.method@ }
    }
}

/// What happens while a response is waited for.
#[derive(Debug, PartialEq, Eq)]
pub enum HandshakeEvent {
    /// A message came from the process.
    Message(WireMessage),
    /// The time for the response is over.
    DeadlinePassed,
    /// No message came from the process.
    ReceiveFailed,
}

/// What a [`HandshakeEvent`] means.
pub enum HandshakeEventView {
    Message(WireMessageView),
    DeadlinePassed,
    ReceiveFailed,
}

impl View for HandshakeEvent {
    type V = HandshakeEventView;

    open spec fn view(&self) -> HandshakeEventView {
        match self {
            HandshakeEvent::Message(message) => HandshakeEventView::Message(message@),
            HandshakeEvent::DeadlinePassed => HandshakeEventView::DeadlinePassed,
            HandshakeEvent::ReceiveFailed => HandshakeEventView::ReceiveFailed,
        }
    }
}

/// What an event makes of the wait for a response: an error, the result of the request,
/// or nothing, so that the wait goes on. Only the response to the request ends the wait;
/// notifications, requests and other responses are passed over.
pub open spec fn progressed(handshake: HandshakeView, event: HandshakeEventView) -> Result<
    Option<JsonView>,
    StartErrorView,
> {
    match event {
        HandshakeEventView::DeadlinePassed => Err(
            StartErrorView::TimedOut { method: handshake.method },
        ),
        HandshakeEventView::ReceiveFailed => Err(StartErrorView::ProcessExited),
        HandshakeEventView::Message(WireMessageView::Response { id, result, error }) => if id
            != handshake.request_id {
            Ok(None)
        } else {
            match error {
                Some(error) => Err(
                    StartErrorView::RequestFailed { method: handshake.method, error },
                ),
                None => match result {
                    Some(result) => Ok(Some(result)),
                    None => Ok(Some(JsonView::Null)),
                },
            }
        },
        HandshakeEventView::Message(_) => Ok(None),
    }
}

/// Starts the request `method`: the message to send, and what to wait for.
pub fn send_request(method: &str, params: Json, sequence: &mut u64) -> (sent: (Json, Handshake))
    ensures
        sent.0@ == request_envelope(request_id(*old(sequence)), method@, params@),
        sent.1@ == (HandshakeView { request_id: request_id(*old(sequence)), method: method@ }),
        *final(sequence) == following(*old(sequence)),
{
    let (message, request_id) = identified_request(method, params, sequence);
    (message, Handshake { request_id, method: method.to_owned() })
}

impl Handshake {
    /// Takes in an event. The result of the request ends the wait, as does an error.
    pub fn advance(&self, event: HandshakeEvent) -> (progress: Result<Option<Json>, StartError>)
        ensures
            match progress {
                Ok(result) => progressed(self@, event@) == Ok::<Option<JsonView>, StartErrorView>(
                    viewed(result),
                ),
                Err(error) => progressed(self@, event@) == Err::<Option<JsonView>, StartErrorView>(
                    error@,
                ),
            },
    {
        match event {
            HandshakeEvent::DeadlinePassed => Err(
                StartError::TimedOut { method: self.method.clone() },
            ),
            HandshakeEvent::ReceiveFailed => Err(StartError::ProcessExited),
            HandshakeEvent::Message(message) => match message {
                WireMessage::Response { id, result, error } => {
                    if !same_text(&id, &self.request_id) {
                        return Ok(None);
                    }
                    match error {
                        Some(error) => Err(
                            StartError::RequestFailed { method: self.method.clone(), error },
                        ),
                        None => match result {
                            Some(result) => Ok(Some(result)),
                            None => Ok(Some(Json::Null)),
                        },
                    }
                },
                _ => Ok(None),
            },
        }
    }
}

/// The answers to requests that an earlier client left open, each with `result`.
pub open spec fn leftover_answers(entries: Seq<JsonView>, result: JsonView) -> Seq<EffectView>
    decreases entries.len(),
{
    if entries.len() == 0 {
        Seq::empty()
    } else {
        let before = leftover_answers(entries.drop_last(), result);
        match entries.last().get_str("requestId"@) {
            Some(id) => before.push(EffectView::Send(response_envelope(id, result))),
            None => before,
        }
    }
}

/// The answers to everything that an earlier client of a session left open.
pub open spec fn leftovers(response: JsonView) -> Seq<EffectView> {
    leftover_answers(response.get_items("pendingPermissions"@), rejection()) + leftover_answers(
        response.get_items("pendingAskUserRequests"@),
        no_answer(),
    )
}

/// Answers the requests listed in the field `key`: permission requests with a
/// rejection, questions without an answer.
fn answer_leftovers(
    response: &Json,
    key: &str,
    questions: bool,
    effects: &mut Vec<Effect>,
)
    ensures
        views(*final(effects)) == views(*old(effects)) + leftover_answers(
            response@.get_items(key@),
            if questions {
                no_answer()
            } else {
                rejection()
            },
        ),
{
    let ghost all = response@.get_items(key@);
    let ghost result = if questions {
        no_answer()
    } else {
        rejection()
    };
    let ghost start = views(*effects);
    let entries = match response.get(key) {
        Some(value) => match value.as_array() {
            Some(entries) => entries,
            None => {
                assert(start + leftover_answers(all, result) =~= start);
                return ;
            },
        },
        None => {
            assert(start + leftover_answers(all, result) =~= start);
            return ;
        },
    };
    assert(all == views(*entries));
    let mut i: usize = 0;
    assert(all.take(0) =~= Seq::empty());
    assert(start + leftover_answers(all.take(0), result) =~= start);
    while i < entries.len()
        invariant
            i <= entries.len(),
            all == views(*entries),
            result == if questions {
                no_answer()
            } else {
                rejection()
            },
            views(*effects) == start + leftover_answers(all.take(i as int), result),
        decreases entries.len() - i,
    {
        assert(all.take(i + 1).drop_last() =~= all.take(i as int));
        assert(all.take(i + 1).last() == entries@[i as int]@);
        match entries[i].get_str("requestId") {
            Some(id) => {
                let answer = if questions {
                    decline()
                } else {
                    reject()
                };
                let effect = Effect::Send(respond(id, answer));
                let ghost before = *effects;
                effects.push(effect);
                proof {
                    lemma_views_push(before, *effects, effect);
                    assert(views(*effects) =~= start + leftover_answers(all.take(i + 1), result));
                }
            },
            None => {},
        }
        i = i + 1;
    }
    assert(all.take(i as int) =~= all);
}

/// A session that was started.
pub struct Started {
    /// To be carried out in this order.
    pub effects: Vec<Effect>,
    /// The state in which the session runs.
    pub state: StreamState,
}

/// What a [`Started`] means.
pub struct StartedView {
    pub effects: Seq<EffectView>,
    pub state: StateView,
}

impl View for Started {
    type V = StartedView;

    open spec fn view(&self) -> StartedView {
        StartedView { effects: views(self.effects), state: self.state@ }
    }
}

/// The event that reports the session.
pub open spec fn connected(session_id: Seq<char>) -> EffectView {
    EffectView::Emit(
        DriverEventView::Connected { provider_cursor: Some(CursorView::Droid { session_id }) },
    )
}

/// The session that the response to the first request starts. One that was reconnected
/// to begins with the answers to what was left open; one that was opened must be named.
pub open spec fn begun(launch: LaunchView, response: JsonView) -> Result<
    StartedView,
    StartErrorView,
> {
    match launch.resumed {
        Some(session_id) => Ok(
            StartedView {
                effects: leftovers(response).push(connected(session_id)),
                state: initial_state(launch.auto_approve),
            },
        ),
        None => match response.get_str("sessionId"@) {
            Some(session_id) => Ok(
                StartedView {
                    effects: seq![connected(session_id)],
                    state: initial_state(launch.auto_approve),
                },
            ),
            None => Err(StartErrorView::NoSessionId),
        },
    }
}

/// Starts the session with the response to the first request.
pub fn finish_start(launch: Launch, response: &Json) -> (started: Result<Started, StartError>)
    ensures
        outcome(started) == begun(launch@, response@),
{
    let mut effects: Vec<Effect> = Vec::new();
    assert(views(effects) =~= Seq::empty());
    let session_id = match launch.resumed {
        Some(session_id) => {
            // Permission requests a previous client left unanswered would hang
            // the resumed turn forever; reject them so the agent moves on.
            answer_leftovers(response, "pendingPermissions", false, &mut effects);
            answer_leftovers(response, "pendingAskUserRequests", true, &mut effects);
            assert(views(effects) =~= leftovers(response@));
            session_id
        },
        None => match response.get_string("sessionId") {
            Some(session_id) => session_id,
            None => {
                return Err(StartError::NoSessionId);
            },
        },
    };
    let effect = Effect::Emit(
        DriverEvent::Connected {
            provider_cursor: Some(ProviderResumeCursor::Droid { session_id }),
        },
    );
    let ghost before = effects;
    effects.push(effect);
    proof {
        lemma_views_push(before, effects, effect);
        if launch.resumed is None {
            assert(views(effects) =~= seq![connected(session_id@)]);
        }
    }
    let state = StreamState::new(launch.auto_approve);
    Ok(Started { effects, state })
}

} // verus!
