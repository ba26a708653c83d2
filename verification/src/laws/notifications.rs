//! What each notification of the process comes to.

use crate::json::JsonView;
use crate::laws::asking::lemma_first_tool_use;
use crate::message::{countable, message_state, message_step, subject};
use crate::model::{DriverEventView, TextView, ToolActivityView};
use crate::notification::{
    activity_title, bare_tool_use, lemma_kinds, notification_effects, notification_state,
    usage_fits,
};
use crate::permission::{tool_name, WordingView};
use crate::stream::{EffectView, StateView, StepView, ToolRecordView};
use crate::table::{lemma_lookup_put, lemma_lookup_without, lookup};
use crate::wire::WireMessageView;
use vstd::prelude::*;

verus! {

/// The names of the fields of a tool use differ.
proof fn lemma_tool_fields()
    ensures
        "id"@ != "name"@,
        "id"@ != "input"@,
{
    reveal_strlit("id");
    reveal_strlit("name");
    reveal_strlit("input");
    assert("id"@.len() == 2);
    assert("name"@.len() == 4);
    assert("input"@.len() == 5);
}

/// Streamed text is passed on as it comes, character for character: a piece that is not
/// empty gives one event with exactly that text, as what the assistant says or as what it
/// thinks, and anything else gives none. Nothing changes.
pub proof fn law_streamed_text_is_passed_on(
    notification: JsonView,
    wording: WordingView,
    state: StateView,
)
    ensures
        ({
            let effects = notification_effects(notification, wording, state);
            let says = notification.get("type"@) == Some(JsonView::Str("assistant_text_delta"@));
            let thinks = notification.get("type"@) == Some(JsonView::Str("thinking_text_delta"@));
            &&& says || thinks ==> notification_state(notification, wording, state) == state
            &&& says || thinks ==> match notification.get("textDelta"@) {
                Some(JsonView::Str(text)) => {
                    &&& text.len() == 0 ==> effects.len() == 0
                    &&& text.len() > 0 && says ==> effects == seq![
                        EffectView::Emit(DriverEventView::TextDelta(text)),
                    ]
                    &&& text.len() > 0 && thinks ==> effects == seq![
                        EffectView::Emit(DriverEventView::ReasoningDelta(text)),
                    ]
                },
                _ => effects.len() == 0,
            }
        }),
{
    lemma_kinds();
}

/// A tool call is shown with its identifier, the name of the tool, which is `Tool` where
/// it has none, and its arguments unless they are `null`. Its title is what the
/// application words, or else the title under which the same tool was shown before, or
/// else its name. A tool with an identifier is remembered under it with that title;
/// nothing else changes.
pub proof fn law_tool_calls_are_shown(
    notification: JsonView,
    tool_use: JsonView,
    wording: WordingView,
    state: StateView,
    other: Seq<char>,
)
    requires
        notification.get("type"@) == Some(JsonView::Str("tool_call"@)),
    ensures
        ({
            let effects = notification_effects(notification, wording, state);
            let after = notification_state(notification, wording, state);
            let name = match tool_use.get("name"@) {
                Some(JsonView::Str(name)) => name,
                _ => "Tool"@,
            };
            let id = match tool_use.get("id"@) {
                Some(JsonView::Str(id)) => Some(id),
                _ => None,
            };
            let title = match (wording.title, id) {
                (Some(words), _) => words,
                (None, Some(id)) => match lookup(state.tools, id) {
                    Some(record) => record.title,
                    None => name,
                },
                (None, None) => name,
            };
            &&& notification.get("toolUse"@) is None ==> effects.len() == 0 && after == state
            &&& notification.get("toolUse"@) == Some(tool_use) ==> {
                &&& effects == seq![
                    EffectView::Emit(
                        DriverEventView::RichActivity(
                            ToolActivityView {
                                id,
                                tool_name: name,
                                title,
                                arguments: match tool_use.get("input"@) {
                                    Some(JsonView::Null) => None,
                                    input => input,
                                },
                                output: None,
                                failed: false,
                                complete: false,
                            },
                        ),
                    ),
                ]
                &&& after == (StateView { tools: after.tools, ..state })
                &&& id is None ==> after.tools == state.tools
                &&& id matches Some(id) ==> {
                    &&& lookup(after.tools, id) == Some(ToolRecordView { tool_name: name, title })
                    &&& other != id ==> lookup(after.tools, other) == lookup(state.tools, other)
                }
            }
        }),
{
    lemma_kinds();
    match tool_use.get("id"@) {
        Some(JsonView::Str(id)) => {
            let record = ToolRecordView {
                tool_name: tool_name(Some(tool_use)),
                title: activity_title(tool_use, wording.title, state),
            };
            lemma_lookup_put(state.tools, id, record, id);
            lemma_lookup_put(state.tools, id, record, other);
        },
        _ => {},
    }
}

/// A tool result is shown with its identifier and its content, as complete, and as failed
/// exactly where `isError` is `true`, under what the application words, or the title of
/// the call, or `Tool` where none is known. The tool is then forgotten; nothing else
/// changes. A result without an identifier is not shown.
pub proof fn law_tool_results_are_shown(
    notification: JsonView,
    wording: WordingView,
    state: StateView,
    other: Seq<char>,
)
    requires
        notification.get("type"@) == Some(JsonView::Str("tool_result"@)),
    ensures
        ({
            let effects = notification_effects(notification, wording, state);
            let after = notification_state(notification, wording, state);
            match notification.get("toolUseId"@) {
                Some(JsonView::Str(id)) => {
                    &&& effects == seq![
                        EffectView::Emit(
                            DriverEventView::RichActivity(
                                ToolActivityView {
                                    id: Some(id),
                                    tool_name: "Tool"@,
                                    title: match (wording.title, lookup(state.tools, id)) {
                                        (Some(words), _) => words,
                                        (None, Some(record)) => record.title,
                                        (None, None) => "Tool"@,
                                    },
                                    arguments: None,
                                    output: notification.get("content"@),
                                    failed: notification.get("isError"@) == Some(
                                        JsonView::Bool(true),
                                    ),
                                    complete: true,
                                },
                            ),
                        ),
                    ]
                    &&& after == (StateView { tools: after.tools, ..state })
                    &&& lookup(after.tools, id) is None
                    &&& other != id ==> lookup(after.tools, other) == lookup(state.tools, other)
                },
                _ => effects.len() == 0 && after == state,
            }
        }),
{
    lemma_kinds();
    match notification.get("toolUseId"@) {
        Some(JsonView::Str(id)) => {
            lemma_tool_fields();
            let tool_use = bare_tool_use(id);
            assert(tool_use.get_str("id"@) == Some(id));
            assert(tool_use.get("name"@) is None);
            assert(tool_use.get("input"@) is None);
            lemma_lookup_without(state.tools, id, id);
            lemma_lookup_without(state.tools, id, other);
        },
        _ => {},
    }
}

/// The end of a turn is told once: as a success without further word where the reason is
/// `completed` or `cancelled`, or none is given, and otherwise as a failure with the
/// reason. No turn runs then; nothing else changes.
pub proof fn law_turns_end_for_a_reason(
    notification: JsonView,
    wording: WordingView,
    state: StateView,
)
    requires
        notification.get("type"@) == Some(JsonView::Str("agent_turn_completed"@)),
    ensures
        notification_state(notification, wording, state) == (StateView {
            turn_active: false,
            ..state
        }),
        ({
            let effects = notification_effects(notification, wording, state);
            let succeeded = effects == seq![
                EffectView::Emit(DriverEventView::TurnFinished { success: true, summary: None }),
            ];
            match notification.get("reason"@) {
                Some(JsonView::Str(reason)) => {
                    &&& reason == "completed"@ || reason == "cancelled"@ ==> succeeded
                    &&& reason != "completed"@ && reason != "cancelled"@ ==> effects == seq![
                        EffectView::Emit(
                            DriverEventView::TurnFinished {
                                success: false,
                                summary: Some(
                                    TextView::Localized {
                                        key: "session.agent_stopped_reason"@,
                                        parameter: "reason"@,
                                        value: reason,
                                    },
                                ),
                            },
                        ),
                    ]
                },
                _ => succeeded,
            }
        }),
{
    lemma_kinds();
}

/// The tokens in use are the sum of the four counts of a report, where a count that is
/// missing or not a whole number is zero. A sum that is not zero is told; nothing changes.
pub proof fn law_token_counts_are_added_up(
    notification: JsonView,
    usage: JsonView,
    wording: WordingView,
    state: StateView,
)
    requires
        notification.get("type"@) == Some(JsonView::Str("session_token_usage_changed"@)),
        usage_fits(notification),
    ensures
        ({
            let effects = notification_effects(notification, wording, state);
            let count = |field: Seq<char>|
                match usage.get(field) {
                    Some(value) => match value.as_u64() {
                        Some(n) => n as int,
                        None => 0,
                    },
                    None => 0,
                };
            let total = count("inputTokens"@) + count("cacheCreationTokens"@) + count(
                "cacheReadTokens"@,
            ) + count("outputTokens"@);
            &&& notification_state(notification, wording, state) == state
            &&& notification.get("tokenUsage"@) is None ==> effects.len() == 0
            &&& notification.get("tokenUsage"@) == Some(usage) ==> {
                &&& total == 0 ==> effects.len() == 0
                &&& total > 0 ==> {
                    &&& effects.len() == 1
                    &&& effects[0] matches EffectView::Emit(
                        DriverEventView::UsageUpdated {
                            context_tokens: Some(tokens),
                            context_window: None,
                        },
                    )
                    &&& tokens == total
                }
            }
        }),
{
    lemma_kinds();
}

/// A report can be taken in exactly where the sum of its four counts is at most
/// `u64::MAX`; every other notification can be taken in, and every other message.
pub proof fn law_only_reports_can_be_too_large(
    notification: JsonView,
    usage: JsonView,
    method: Seq<char>,
    params: JsonView,
    message: WireMessageView,
)
    ensures
        notification.get("type"@) != Some(JsonView::Str("session_token_usage_changed"@))
            ==> usage_fits(notification),
        notification.get("tokenUsage"@) is None ==> usage_fits(notification),
        notification.get("type"@) == Some(JsonView::Str("session_token_usage_changed"@))
            && notification.get("tokenUsage"@) == Some(usage) ==> {
            let count = |field: Seq<char>|
                match usage.get(field) {
                    Some(value) => match value.as_u64() {
                        Some(n) => n as int,
                        None => 0,
                    },
                    None => 0,
                };
            usage_fits(notification) <==> count("inputTokens"@) + count("cacheCreationTokens"@)
                + count("cacheReadTokens"@) + count("outputTokens"@) <= 0xffff_ffff_ffff_ffff
        },
        !(message is Notification) ==> countable(message),
        method != "droid.session_notification"@ || params.get("notification"@) is None
            ==> countable(WireMessageView::Notification { method, params }),
        method == "droid.session_notification"@ && params.get("notification"@) == Some(notification)
            ==> countable(WireMessageView::Notification { method, params }) == usage_fits(
            notification,
        ),
{
}

/// A new title is passed on, or that there is none; nothing changes.
pub proof fn law_titles_are_passed_on(
    notification: JsonView,
    wording: WordingView,
    state: StateView,
)
    requires
        notification.get("type"@) == Some(JsonView::Str("session_title_updated"@)),
    ensures
        notification_state(notification, wording, state) == state,
        notification_effects(notification, wording, state) == seq![
            EffectView::Emit(
                DriverEventView::AutoTitleUpdated(
                    match notification.get("title"@) {
                        Some(JsonView::Str(title)) => Some(title),
                        _ => None,
                    },
                ),
            ),
        ],
{
    lemma_kinds();
}

/// An error is passed on in its own words, or as an error where it has none; nothing
/// changes.
pub proof fn law_errors_are_passed_on(
    notification: JsonView,
    wording: WordingView,
    state: StateView,
)
    requires
        notification.get("type"@) == Some(JsonView::Str("error"@)),
    ensures
        notification_state(notification, wording, state) == state,
        notification_effects(notification, wording, state) == seq![
            EffectView::Emit(
                DriverEventView::Error(
                    match notification.get("message"@) {
                        Some(JsonView::Str(message)) => message,
                        _ => "Droid reported an error"@,
                    },
                ),
            ),
        ],
{
    lemma_kinds();
}

/// A session notification is taken in as what it holds; one that holds nothing, and one
/// of any other method, does nothing.
pub proof fn law_session_notifications_are_taken_in(
    method: Seq<char>,
    params: JsonView,
    notification: JsonView,
    wording: WordingView,
    state: StateView,
    stderr: Seq<Seq<char>>,
)
    ensures
        ({
            let message = WireMessageView::Notification { method, params };
            let step = message_step(message, wording, state, stderr);
            let after = message_state(message, wording, state);
            let silent = step == (StepView {
                effects: Seq::empty(),
                checked: None,
                running: true,
            }) && after == state;
            &&& method != "droid.session_notification"@ ==> silent
            &&& params.get("notification"@) is None ==> silent
            &&& method == "droid.session_notification"@ && params.get("notification"@) == Some(
                notification,
            ) ==> {
                &&& step == (StepView {
                    effects: notification_effects(notification, wording, state),
                    checked: None,
                    running: true,
                })
                &&& after == notification_state(notification, wording, state)
            }
        }),
{
}

/// The application is asked for words on the arguments of a tool call, unless they are
/// `null`, and on those of the first tool use of a permission request; on nothing else.
pub proof fn law_words_are_asked_for_arguments(
    method: Seq<char>,
    params: JsonView,
    notification: JsonView,
    tool_use: JsonView,
    id: Seq<char>,
    uses: Seq<JsonView>,
    i: int,
)
    ensures
        ({
            let message = WireMessageView::Notification { method, params };
            let call = {
                &&& method == "droid.session_notification"@
                &&& params.get("notification"@) == Some(notification)
                &&& notification.get("type"@) == Some(JsonView::Str("tool_call"@))
                &&& notification.get("toolUse"@) == Some(tool_use)
            };
            &&& call ==> subject(message) == match tool_use.get("input"@) {
                Some(JsonView::Null) => None,
                input => input,
            }
            &&& method != "droid.session_notification"@ ==> subject(message) is None
            &&& params.get("notification"@) is None ==> subject(message) is None
            &&& params.get("notification"@) == Some(notification) && (notification.get("type"@)
                != Some(JsonView::Str("tool_call"@)) || notification.get("toolUse"@) is None)
                ==> subject(message) is None
        }),
        ({
            let message = WireMessageView::Request { id, method, params };
            &&& method != "droid.request_permission"@ ==> subject(message) is None
            &&& !(params.get("toolUses"@) matches Some(JsonView::Array(_))) ==> subject(
                message,
            ) is None
            &&& method == "droid.request_permission"@ && params.get("toolUses"@) == Some(
                JsonView::Array(uses),
            ) && 0 <= i <= uses.len() && (forall|j: int|
                0 <= j < i ==> (#[trigger] uses[j]).get("toolUse"@) is None) && (i < uses.len()
                ==> uses[i].get("toolUse"@) is Some) ==> subject(message) == if i < uses.len() {
                uses[i].get("toolUse"@)->0.get("input"@)
            } else {
                None
            }
        }),
        subject(WireMessageView::Exited) is None,
        forall|result: Option<JsonView>, error: Option<Seq<char>>|
            #[trigger] subject(WireMessageView::Response { id, result, error }) is None,
{
    if 0 <= i <= uses.len() && (forall|j: int|
        0 <= j < i ==> (#[trigger] uses[j]).get("toolUse"@) is None) && (i < uses.len()
        ==> uses[i].get("toolUse"@) is Some) {
        lemma_first_tool_use(uses, i);
    }
}

} // verus!
