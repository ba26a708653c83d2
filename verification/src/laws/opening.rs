//! What the start of a session comes to: how the process is launched, what it is asked,
//! and what its response makes of the session.

use crate::command::autonomy;
use crate::json::JsonView;
use crate::model::{CursorView, DriverEventView, InteractionMode, RuntimeMode};
use crate::session::{
    begun, error_text, leftover_answers, planned, progressed, HandshakeEventView, HandshakeView,
    LaunchView, StartErrorView, StartOptionsView,
};
use crate::stream::{EffectView, StateView};
use crate::wire::{response_envelope, WireMessageView};
use vstd::prelude::*;

verus! {

/// Each access mode has its level: while something is built `off` to be asked, `low` for
/// edits and for planning, `medium` and `high` beyond that; and `low` while planning,
/// whatever the access.
pub proof fn law_each_mode_has_its_level(mode: RuntimeMode, interaction_mode: InteractionMode)
    ensures
        interaction_mode == InteractionMode::Plan ==> autonomy(mode, interaction_mode) == "low"@,
        interaction_mode == InteractionMode::Build ==> autonomy(mode, interaction_mode)
            == match mode {
            RuntimeMode::Ask => "off"@,
            RuntimeMode::AutoAcceptEdits => "low"@,
            RuntimeMode::Plan => "low"@,
            RuntimeMode::Auto => "medium"@,
            RuntimeMode::FullAccess => "high"@,
        },
{
}

/// The process is launched to speak JSON-RPC in both directions, at the level of the
/// chosen modes, and the session approves by itself exactly outside the supervised mode.
pub proof fn law_the_process_is_launched(options: StartOptionsView)
    requires
        options.provider_cursor matches Some(cursor) ==> cursor is Droid
            && cursor->session_id.len() > 0,
    ensures
        planned(options) matches Ok(launch) && {
            &&& launch.arguments.len() == 7
            &&& launch.arguments[0] == "exec"@
            &&& launch.arguments[1] == "--input-format"@
            &&& launch.arguments[2] == "stream-jsonrpc"@
            &&& launch.arguments[3] == "--output-format"@
            &&& launch.arguments[4] == "stream-jsonrpc"@
            &&& launch.arguments[5] == "--auto"@
            &&& launch.arguments[6] == autonomy(options.mode, options.interaction_mode)
            &&& launch.auto_approve == (options.mode != RuntimeMode::Ask)
        },
{
}

/// The names of the parameters differ.
proof fn lemma_parameter_names()
    ensures
        "machineId"@.len() == 9,
        "cwd"@.len() == 3,
        "interactionMode"@.len() == 15,
        "autonomyLevel"@.len() == 13,
        "modelId"@.len() == 7,
        "reasoningEffort"@.len() == 15,
        "interactionMode"@ != "reasoningEffort"@,
{
    reveal_strlit("machineId");
    reveal_strlit("cwd");
    reveal_strlit("interactionMode");
    reveal_strlit("autonomyLevel");
    reveal_strlit("modelId");
    reveal_strlit("reasoningEffort");
    assert("interactionMode"@[0] == 'i');
    assert("reasoningEffort"@[0] == 'r');
}

/// Without a cursor a new session is asked for, in the given directory: for planning
/// exactly where the interaction is planning, whatever the access, at the level of the
/// chosen modes, with the model and the effort where they are given, and with no other
/// parameter.
pub proof fn law_new_sessions_are_asked_for(options: StartOptionsView, key: Seq<char>)
    requires
        options.provider_cursor is None,
    ensures
        planned(options) matches Ok(launch) && {
            let params = launch.params;
            &&& launch.method == "droid.initialize_session"@
            &&& launch.resumed is None
            &&& params is Object
            &&& params.get("machineId"@) == Some(JsonView::Str("waku"@))
            &&& params.get("cwd"@) == Some(JsonView::Str(options.cwd))
            &&& params.get("interactionMode"@) == Some(JsonView::Str("spec"@))
                <==> options.interaction_mode == InteractionMode::Plan
            &&& params.get("interactionMode"@) == Some(JsonView::Str("auto"@))
                <==> options.interaction_mode == InteractionMode::Build
            &&& params.get("autonomyLevel"@) == Some(
                JsonView::Str(autonomy(options.mode, options.interaction_mode)),
            )
            &&& params.get("modelId"@) == match options.model {
                Some(model) => Some(JsonView::Str(model)),
                None => None,
            }
            &&& params.get("reasoningEffort"@) == match options.reasoning_effort {
                Some(effort) => Some(JsonView::Str(effort)),
                None => None,
            }
            &&& params.get(key) is Some ==> key == "machineId"@ || key == "cwd"@ || key
                == "interactionMode"@ || key == "autonomyLevel"@ || key == "modelId"@ || key
                == "reasoningEffort"@
        },
{
    lemma_parameter_names();
    reveal_strlit("spec");
    reveal_strlit("auto");
    assert("spec"@[0] == 's');
    assert("auto"@[0] == 'a');
}

/// With a cursor that names a Factory session, that session is loaded, without its
/// messages.
pub proof fn law_known_sessions_are_loaded(options: StartOptionsView, session_id: Seq<char>)
    requires
        options.provider_cursor == Some(CursorView::Droid { session_id }),
        session_id.len() > 0,
    ensures
        planned(options) matches Ok(launch) && {
            &&& launch.method == "droid.load_session"@
            &&& launch.resumed == Some(session_id)
            &&& launch.params == JsonView::Object(
                map![
                    "sessionId"@ => JsonView::Str(session_id),
                    "loadAllMessages"@ => JsonView::Bool(false)
                ],
            )
        },
{
}

/// While the response is waited for, an event of each kind has its outcome: the response
/// to the request gives its error or its result, which is `null` where it has none; the
/// end of the time and of the messages are errors; and anything else is passed over.
pub proof fn law_each_event_has_its_outcome(
    handshake: HandshakeView,
    id: Seq<char>,
    result: Option<JsonView>,
    error: Option<Seq<char>>,
    message: WireMessageView,
)
    ensures
        progressed(handshake, HandshakeEventView::DeadlinePassed) == Err::<
            Option<JsonView>,
            StartErrorView,
        >(StartErrorView::TimedOut { method: handshake.method }),
        progressed(handshake, HandshakeEventView::ReceiveFailed) == Err::<
            Option<JsonView>,
            StartErrorView,
        >(StartErrorView::ProcessExited),
        progressed(
            handshake,
            HandshakeEventView::Message(WireMessageView::Response { id, result, error }),
        ) == match (id == handshake.request_id, error, result) {
            (false, _, _) => Ok::<Option<JsonView>, StartErrorView>(None),
            (true, Some(error), _) => Err(
                StartErrorView::RequestFailed { method: handshake.method, error },
            ),
            (true, None, Some(result)) => Ok(Some(result)),
            (true, None, None) => Ok(Some(JsonView::Null)),
        },
        !(message is Response) ==> progressed(handshake, HandshakeEventView::Message(message))
            == Ok::<Option<JsonView>, StartErrorView>(None),
{
}

/// The answers to what was left open, one for each request that has an identifier.
proof fn lemma_leftovers_filtered(
    entries: Seq<JsonView>,
    result: JsonView,
    known: spec_fn(JsonView) -> bool,
    answer: spec_fn(JsonView) -> EffectView,
)
    requires
        forall|entry: JsonView|
            #[trigger] known(entry) == (entry.get_str("requestId"@) is Some),
        forall|entry: JsonView|
            entry.get_str("requestId"@) is Some ==> #[trigger] answer(entry) == EffectView::Send(
                response_envelope(entry.get_str("requestId"@)->0, result),
            ),
    ensures
        leftover_answers(entries, result) == entries.filter(known).map_values(answer),
    decreases entries.len(),
{
    reveal(Seq::filter);
    if entries.len() == 0 {
        assert(leftover_answers(entries, result) =~= entries.filter(known).map_values(answer));
    } else {
        lemma_leftovers_filtered(entries.drop_last(), result, known, answer);
        assert(known(entries.last()) == (entries.last().get_str("requestId"@) is Some));
        if known(entries.last()) {
            assert(answer(entries.last()) == EffectView::Send(
                response_envelope(entries.last().get_str("requestId"@)->0, result),
            ));
        }
        assert(leftover_answers(entries, result) =~= entries.filter(known).map_values(answer));
    }
}

/// A session that is resumed first answers what an earlier client left open, in order and
/// each once: permission requests with `cancel`, then questions without an answer. Then
/// its cursor is reported, and it runs idle, with nothing waiting.
pub proof fn law_resumed_sessions_answer_first(
    launch: LaunchView,
    session_id: Seq<char>,
    response: JsonView,
    permissions: Seq<JsonView>,
    questions: Seq<JsonView>,
)
    requires
        launch.resumed == Some(session_id),
        response.get("pendingPermissions"@) == Some(JsonView::Array(permissions)) || (
        permissions.len() == 0 && !(response.get("pendingPermissions"@) matches Some(
            JsonView::Array(_),
        ))),
        response.get("pendingAskUserRequests"@) == Some(JsonView::Array(questions)) || (
        questions.len() == 0 && !(response.get("pendingAskUserRequests"@) matches Some(
            JsonView::Array(_),
        ))),
    ensures
        begun(launch, response) matches Ok(started) && {
            &&& started.effects == permissions.filter(
                |entry: JsonView| entry.get("requestId"@) matches Some(JsonView::Str(_)),
            ).map_values(
                |entry: JsonView|
                    EffectView::Send(
                        response_envelope(
                            entry.get("requestId"@)->0->Str_0,
                            JsonView::Object(map!["selectedOption"@ => JsonView::Str("cancel"@)]),
                        ),
                    ),
            ) + questions.filter(
                |entry: JsonView| entry.get("requestId"@) matches Some(JsonView::Str(_)),
            ).map_values(
                |entry: JsonView|
                    EffectView::Send(
                        response_envelope(
                            entry.get("requestId"@)->0->Str_0,
                            JsonView::Object(
                                map![
                                    "cancelled"@ => JsonView::Bool(true),
                                    "answers"@ => JsonView::Array(Seq::empty())
                                ],
                            ),
                        ),
                    ),
            ) + seq![
                EffectView::Emit(
                    DriverEventView::Connected {
                        provider_cursor: Some(CursorView::Droid { session_id }),
                    },
                ),
            ]
            &&& started.state == (StateView {
                turn_active: false,
                auto_approve: launch.auto_approve,
                tools: Seq::empty(),
                pending: Seq::empty(),
            })
        },
{
    let known = |entry: JsonView| entry.get("requestId"@) matches Some(JsonView::Str(_));
    let rejected = |entry: JsonView|
        EffectView::Send(
            response_envelope(
                entry.get("requestId"@)->0->Str_0,
                JsonView::Object(map!["selectedOption"@ => JsonView::Str("cancel"@)]),
            ),
        );
    let declined = |entry: JsonView|
        EffectView::Send(
            response_envelope(
                entry.get("requestId"@)->0->Str_0,
                JsonView::Object(
                    map![
                        "cancelled"@ => JsonView::Bool(true),
                        "answers"@ => JsonView::Array(Seq::empty())
                    ],
                ),
            ),
        );
    assert(response.get_items("pendingPermissions"@) =~= permissions);
    assert(response.get_items("pendingAskUserRequests"@) =~= questions);
    let rejection = JsonView::Object(map!["selectedOption"@ => JsonView::Str("cancel"@)]);
    let no_answer = JsonView::Object(
        map![
            "cancelled"@ => JsonView::Bool(true),
            "answers"@ => JsonView::Array(Seq::empty())
        ],
    );
    lemma_leftovers_filtered(permissions, rejection, known, rejected);
    lemma_leftovers_filtered(questions, no_answer, known, declined);
}

/// A new session starts exactly where the process names it by a text: its cursor is
/// reported, and it runs idle, with nothing waiting.
pub proof fn law_new_sessions_are_named(launch: LaunchView, response: JsonView)
    requires
        launch.resumed is None,
    ensures
        match response.get("sessionId"@) {
            Some(JsonView::Str(session_id)) => begun(launch, response) matches Ok(started) && {
                &&& started.effects == seq![
                    EffectView::Emit(
                        DriverEventView::Connected {
                            provider_cursor: Some(CursorView::Droid { session_id }),
                        },
                    ),
                ]
                &&& started.state == (StateView {
                    turn_active: false,
                    auto_approve: launch.auto_approve,
                    tools: Seq::empty(),
                    pending: Seq::empty(),
                })
            },
            _ => begun(launch, response) matches Err(error) && error == StartErrorView::NoSessionId,
        },
{
}

/// Each error says what went wrong, with the provider, the method or the message that it
/// is about.
pub proof fn law_errors_say_what_went_wrong(
    provider: Seq<char>,
    method: Seq<char>,
    error: Seq<char>,
)
    ensures
        error_text(StartErrorView::ForeignCursor { provider })
            == "cannot resume Factory Droid from a "@ + provider + " cursor"@,
        error_text(StartErrorView::RequestFailed { method, error }) == "Droid "@ + method
            + " failed: "@ + error,
        error_text(StartErrorView::TimedOut { method }) == "Droid "@ + method + " timed out"@,
        error_text(StartErrorView::ProcessExited) == "Droid process exited during the handshake"@,
        error_text(StartErrorView::NoSessionId)
            == "Droid initialize_session returned no session ID"@,
{
}

} // verus!
