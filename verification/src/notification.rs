//! Notifications: what the process reports of a running turn.

use crate::json::{empty_object, Json, JsonView};
use crate::model::{DriverEvent, DriverEventView, Text, TextView, ToolActivity, ToolActivityView};
use crate::permission::{text_or, tool_name, Wording, WordingView};
use crate::stream::{
    one, step_of, Effect, EffectView, StateView, Step, StreamState, ToolRecord, ToolRecordView,
};
use crate::table::{lookup, put, without};
use crate::text::same_text;
use crate::views::{viewed, views};
use vstd::prelude::*;

verus! {

/// The arguments of a tool use that are shown: those that are not `null`.
pub open spec fn shown_arguments(tool_use: JsonView) -> Option<JsonView> {
    match tool_use.get("input"@) {
        Some(input) => if input is Null {
            None
        } else {
            Some(input)
        },
        None => None,
    }
}

/// The arguments of a tool use that are shown.
pub(crate) fn read_arguments(tool_use: &Json) -> (arguments: Option<Json>)
    ensures
        viewed(arguments) == shown_arguments(tool_use@),
{
    match tool_use.get("input") {
        Some(input) => if input.is_null() {
            None
        } else {
            Some(input.copy())
        },
        None => None,
    }
}

/// What is known of the tool with the identifier of a tool use.
pub open spec fn known_tool(tool_use: JsonView, state: StateView) -> Option<ToolRecordView> {
    match tool_use.get_str("id"@) {
        Some(id) => lookup(state.tools, id),
        None => None,
    }
}

/// The title of a tool at work: worded from its arguments, or the one it was shown under
/// before, or its name.
pub open spec fn activity_title(
    tool_use: JsonView,
    title: Option<Seq<char>>,
    state: StateView,
) -> Seq<char> {
    match title {
        Some(title) => title,
        None => match known_tool(tool_use, state) {
            Some(record) => record.title,
            None => tool_name(Some(tool_use)),
        },
    }
}

/// The event that reports a tool at work.
pub open spec fn activity_event(
    tool_use: JsonView,
    output: Option<JsonView>,
    complete: bool,
    failed: bool,
    title: Option<Seq<char>>,
    state: StateView,
) -> DriverEventView {
    DriverEventView::RichActivity(
        ToolActivityView {
            id: tool_use.get_str("id"@),
            tool_name: tool_name(Some(tool_use)),
            title: activity_title(tool_use, title, state),
            arguments: shown_arguments(tool_use),
            output,
            failed,
            complete,
        },
    )
}

/// The state after a tool was reported: a tool at work is remembered, one that is done
/// is forgotten.
pub open spec fn activity_state(
    tool_use: JsonView,
    complete: bool,
    title: Option<Seq<char>>,
    state: StateView,
) -> StateView {
    match tool_use.get_str("id"@) {
        Some(id) => StateView {
            tools: if complete {
                without(state.tools, id)
            } else {
                put(
                    state.tools,
                    id,
                    ToolRecordView {
                        tool_name: tool_name(Some(tool_use)),
                        title: activity_title(tool_use, title, state),
                    },
                )
            },
            ..state
        },
        None => state,
    }
}

/// Reports a tool at work. `title` is how the application words the arguments that are
/// shown, where they suggest a title.
pub fn tool_activity(
    tool_use: &Json,
    output: Option<Json>,
    complete: bool,
    failed: bool,
    title: Option<String>,
    state: &mut StreamState,
) -> (effect: Effect)
    ensures
        effect@ == EffectView::Emit(
            activity_event(
                tool_use@,
                viewed(output),
                complete,
                failed,
                viewed(title),
                old(state)@,
            ),
        ),
        final(state)@ == activity_state(tool_use@, complete, viewed(title), old(state)@),
{
    let id = tool_use.get_string("id");
    let name = match tool_use.get_string("name") {
        Some(name) => name,
        None => "Tool".to_owned(),
    };
    let arguments = read_arguments(tool_use);
    let stored = match &id {
        Some(id) => if complete {
            match state.tools.remove(id) {
                Some(record) => Some(record.title),
                None => None,
            }
        } else {
            match state.tools.get(id) {
                Some(record) => Some(record.title.clone()),
                None => None,
            }
        },
        None => None,
    };
    let title = match title {
        Some(title) => title,
        None => match stored {
            Some(title) => title,
            None => name.clone(),
        },
    };
    if !complete {
        match &id {
            Some(id) => {
                state.tools.insert(
                    id.clone(),
                    ToolRecord { tool_name: name.clone(), title: title.clone() },
                );
            },
            None => {},
        }
    }
    Effect::Emit(
        DriverEvent::RichActivity(
            ToolActivity { id, tool_name: name, title, arguments, output, failed, complete },
        ),
    )
}

/// The number of tokens in a field of a usage report: zero where there is none.
pub open spec fn token_count(usage: JsonView, field: Seq<char>) -> u64 {
    match usage.get(field) {
        Some(value) => match value.as_u64() {
            Some(count) => count,
            None => 0,
        },
        None => 0,
    }
}

/// The number of tokens in a field of a usage report.
fn read_count(usage: &Json, field: &str) -> (count: u64)
    ensures
        count == token_count(usage@, field@),
{
    match usage.get(field) {
        Some(value) => match value.as_u64() {
            Some(count) => count,
            None => 0,
        },
        None => 0,
    }
}

/// The number of tokens in a usage report.
pub open spec fn total_tokens(usage: JsonView) -> int {
    token_count(usage, "inputTokens"@) + token_count(usage, "cacheCreationTokens"@) + token_count(
        usage,
        "cacheReadTokens"@,
    ) + token_count(usage, "outputTokens"@)
}

/// A usage report, if a notification is one, counts no more tokens than a `u64` holds.
pub open spec fn usage_fits(notification: JsonView) -> bool {
    notification.get_str("type"@) == Some("session_token_usage_changed"@) ==> match notification.get(
        "tokenUsage"@,
    ) {
        Some(usage) => total_tokens(usage) <= u64::MAX,
        None => true,
    }
}

/// Whether the tokens that a notification reports can be counted.
pub fn check_usage(notification: &Json) -> (fits: bool)
    ensures
        fits == usage_fits(notification@),
{
    match notification.get_str("type") {
        Some(kind) => if same_text(kind, "session_token_usage_changed") {
            match notification.get("tokenUsage") {
                Some(usage) => {
                    let total: u128 = read_count(usage, "inputTokens") as u128 + read_count(
                        usage,
                        "cacheCreationTokens",
                    ) as u128 + read_count(usage, "cacheReadTokens") as u128 + read_count(
                        usage,
                        "outputTokens",
                    ) as u128;
                    total <= u64::MAX as u128
                },
                None => true,
            }
        } else {
            true
        },
        None => true,
    }
}

/// The event that reports a piece of text: none where it is missing or empty.
pub open spec fn delta_effects(notification: JsonView, reasoning: bool) -> Seq<EffectView> {
    match notification.get_str("textDelta"@) {
        Some(text) => if text.len() == 0 {
            Seq::empty()
        } else if reasoning {
            seq![EffectView::Emit(DriverEventView::ReasoningDelta(text))]
        } else {
            seq![EffectView::Emit(DriverEventView::TextDelta(text))]
        },
        None => Seq::empty(),
    }
}

/// The event that reports the end of a turn.
pub open spec fn turn_finished(reason: Seq<char>) -> DriverEventView {
    if reason == "completed"@ || reason == "cancelled"@ {
        DriverEventView::TurnFinished { success: true, summary: None }
    } else {
        DriverEventView::TurnFinished {
            success: false,
            summary: Some(
                TextView::Localized {
                    key: "session.agent_stopped_reason"@,
                    parameter: "reason"@,
                    value: reason,
                },
            ),
        }
    }
}

/// The event that reports how much context is used: none where nothing was counted.
pub open spec fn usage_effects(notification: JsonView) -> Seq<EffectView> {
    match notification.get("tokenUsage"@) {
        Some(usage) => if total_tokens(usage) > 0 {
            seq![
                EffectView::Emit(
                    DriverEventView::UsageUpdated {
                        context_tokens: Some(total_tokens(usage) as u64),
                        context_window: None,
                    },
                ),
            ]
        } else {
            Seq::empty()
        },
        None => Seq::empty(),
    }
}

/// A tool use of which only the identifier is known.
pub open spec fn bare_tool_use(id: Seq<char>) -> JsonView {
    empty_object().with("id"@, JsonView::Str(id))
}

/// Whether a tool result reports a failure.
pub open spec fn result_failed(notification: JsonView) -> bool {
    match notification.get("isError"@) {
        Some(error) => error.as_bool() == Some(true),
        None => false,
    }
}

/// What the driver asks for after a notification.
pub open spec fn notification_effects(
    notification: JsonView,
    wording: WordingView,
    state: StateView,
) -> Seq<EffectView> {
    match notification.get_str("type"@) {
        None => Seq::empty(),
        Some(kind) => if kind == "assistant_text_delta"@ {
            delta_effects(notification, false)
        } else if kind == "thinking_text_delta"@ {
            delta_effects(notification, true)
        } else if kind == "tool_call"@ {
            match notification.get("toolUse"@) {
                Some(tool_use) => seq![
                    EffectView::Emit(
                        activity_event(tool_use, None, false, false, wording.title, state),
                    ),
                ],
                None => Seq::empty(),
            }
        } else if kind == "tool_result"@ {
            match notification.get_str("toolUseId"@) {
                Some(id) => seq![
                    EffectView::Emit(
                        activity_event(
                            bare_tool_use(id),
                            notification.get("content"@),
                            true,
                            result_failed(notification),
                            wording.title,
                            state,
                        ),
                    ),
                ],
                None => Seq::empty(),
            }
        } else if kind == "agent_turn_completed"@ {
            seq![
                EffectView::Emit(
                    turn_finished(text_or(notification.get_str("reason"@), "completed"@)),
                ),
            ]
        } else if kind == "session_token_usage_changed"@ {
            usage_effects(notification)
        } else if kind == "session_title_updated"@ {
            seq![
                EffectView::Emit(
                    DriverEventView::AutoTitleUpdated(notification.get_str("title"@)),
                ),
            ]
        } else if kind == "error"@ {
            seq![
                EffectView::Emit(
                    DriverEventView::Error(
                        text_or(notification.get_str("message"@), "Droid reported an error"@),
                    ),
                ),
            ]
        } else {
            Seq::empty()
        },
    }
}

/// The state after a notification.
pub open spec fn notification_state(
    notification: JsonView,
    wording: WordingView,
    state: StateView,
) -> StateView {
    match notification.get_str("type"@) {
        None => state,
        Some(kind) => if kind == "tool_call"@ {
            match notification.get("toolUse"@) {
                Some(tool_use) => activity_state(tool_use, false, wording.title, state),
                None => state,
            }
        } else if kind == "tool_result"@ {
            match notification.get_str("toolUseId"@) {
                Some(id) => activity_state(bare_tool_use(id), true, wording.title, state),
                None => state,
            }
        } else if kind == "agent_turn_completed"@ {
            StateView { turn_active: false, ..state }
        } else {
            state
        },
    }
}

/// The kinds of notification differ: all but two in their length, and those two as well.
pub proof fn lemma_kinds()
    ensures
        "assistant_text_delta"@.len() == 20,
        "thinking_text_delta"@.len() == 19,
        "tool_call"@.len() == 9,
        "tool_result"@.len() == 11,
        "agent_turn_completed"@.len() == 20,
        "session_token_usage_changed"@.len() == 27,
        "session_title_updated"@.len() == 21,
        "error"@.len() == 5,
        "agent_turn_completed"@ != "assistant_text_delta"@,
{
    reveal_strlit("assistant_text_delta");
    reveal_strlit("thinking_text_delta");
    reveal_strlit("tool_call");
    reveal_strlit("tool_result");
    reveal_strlit("agent_turn_completed");
    reveal_strlit("session_token_usage_changed");
    reveal_strlit("session_title_updated");
    reveal_strlit("error");
    assert("assistant_text_delta"@.len() == 20);
    assert("thinking_text_delta"@.len() == 19);
    assert("tool_call"@.len() == 9);
    assert("tool_result"@.len() == 11);
    assert("agent_turn_completed"@.len() == 20);
    assert("session_token_usage_changed"@.len() == 27);
    assert("session_title_updated"@.len() == 21);
    assert("error"@.len() == 5);
    assert("agent_turn_completed"@[1] == 'g');
    assert("assistant_text_delta"@[1] == 's');
}

/// Reads a piece of text.
fn handle_delta(notification: &Json, reasoning: bool) -> (effects: Vec<Effect>)
    ensures
        views(effects) == delta_effects(notification@, reasoning),
{
    let nothing: Vec<Effect> = Vec::new();
    assert(views(nothing) =~= Seq::empty());
    match notification.get_string("textDelta") {
        Some(text) => if text.as_str().is_empty() {
            nothing
        } else if reasoning {
            one(Effect::Emit(DriverEvent::ReasoningDelta(text)))
        } else {
            one(Effect::Emit(DriverEvent::TextDelta(text)))
        },
        None => nothing,
    }
}

/// Reads a usage report.
fn handle_usage(notification: &Json) -> (effects: Vec<Effect>)
    requires
        match notification@.get("tokenUsage"@) {
            Some(usage) => total_tokens(usage) <= u64::MAX,
            None => true,
        },
    ensures
        views(effects) == usage_effects(notification@),
{
    let nothing: Vec<Effect> = Vec::new();
    assert(views(nothing) =~= Seq::empty());
    match notification.get("tokenUsage") {
        Some(usage) => {
            let total: u64 = read_count(usage, "inputTokens") + read_count(
                usage,
                "cacheCreationTokens",
            ) + read_count(usage, "cacheReadTokens") + read_count(usage, "outputTokens");
            if total > 0 {
                one(
                    Effect::Emit(
                        DriverEvent::UsageUpdated {
                            context_tokens: Some(total),
                            context_window: None,
                        },
                    ),
                )
            } else {
                nothing
            }
        },
        None => nothing,
    }
}

/// Reads the end of a turn.
fn handle_turn_completed(notification: &Json, state: &mut StreamState) -> (effects: Vec<Effect>)
    ensures
        views(effects) == seq![
            EffectView::Emit(
                turn_finished(text_or(notification@.get_str("reason"@), "completed"@)),
            ),
        ],
        final(state)@ == (StateView { turn_active: false, ..old(state)@ }),
{
    state.turn_active = false;
    let reason = match notification.get_string("reason") {
        Some(reason) => reason,
        None => "completed".to_owned(),
    };
    if same_text(&reason, "completed") || same_text(&reason, "cancelled") {
        one(Effect::Emit(DriverEvent::TurnFinished { success: true, summary: None }))
    } else {
        one(
            Effect::Emit(
                DriverEvent::TurnFinished {
                    success: false,
                    summary: Some(
                        Text::Localized {
                            key: "session.agent_stopped_reason".to_owned(),
                            parameter: "reason".to_owned(),
                            value: reason,
                        },
                    ),
                },
            ),
        )
    }
}

/// Reads a tool result.
fn handle_tool_result(
    notification: &Json,
    title: Option<String>,
    state: &mut StreamState,
) -> (effects: Vec<Effect>)
    ensures
        match notification@.get_str("toolUseId"@) {
            Some(id) => {
                &&& views(effects) == seq![
                    EffectView::Emit(
                        activity_event(
                            bare_tool_use(id),
                            notification@.get("content"@),
                            true,
                            result_failed(notification@),
                            viewed(title),
                            old(state)@,
                        ),
                    ),
                ]
                &&& final(state)@ == activity_state(
                    bare_tool_use(id),
                    true,
                    viewed(title),
                    old(state)@,
                )
            },
            None => views(effects) == Seq::<EffectView>::empty() && final(state)@ == old(state)@,
        },
{
    let failed = match notification.get("isError") {
        Some(error) => match error.as_bool() {
            Some(failed) => failed,
            None => false,
        },
        None => false,
    };
    match notification.get_str("toolUseId") {
        Some(id) => {
            let tool_use = Json::object().with("id", Json::text(id));
            let output = notification.get_copy("content");
            one(tool_activity(&tool_use, output, true, failed, title, state))
        },
        None => {
            let nothing: Vec<Effect> = Vec::new();
            assert(views(nothing) =~= Seq::empty());
            nothing
        },
    }
}

/// Takes in a notification. `wording` is how the application words the arguments of the
/// tool call that it reports, if it reports one.
pub fn handle_notification(
    notification: &Json,
    wording: Wording,
    state: &mut StreamState,
) -> (step: Step)
    requires
        usage_fits(notification@),
    ensures
        step@ == step_of(notification_effects(notification@, wording@, old(state)@)),
        final(state)@ == notification_state(notification@, wording@, old(state)@),
{
    proof {
        lemma_kinds();
    }
    let kind = match notification.get_str("type") {
        Some(kind) => kind,
        None => {
            return Step::nothing();
        },
    };
    if same_text(kind, "assistant_text_delta") {
        Step::of(handle_delta(notification, false))
    } else if same_text(kind, "thinking_text_delta") {
        Step::of(handle_delta(notification, true))
    } else if same_text(kind, "tool_call") {
        match notification.get("toolUse") {
            Some(tool_use) => Step::of(
                one(tool_activity(tool_use, None, false, false, wording.title, state)),
            ),
            None => Step::nothing(),
        }
    } else if same_text(kind, "tool_result") {
        Step::of(handle_tool_result(notification, wording.title, state))
    } else if same_text(kind, "agent_turn_completed") {
        Step::of(handle_turn_completed(notification, state))
    } else if same_text(kind, "session_token_usage_changed") {
        Step::of(handle_usage(notification))
    } else if same_text(kind, "session_title_updated") {
        let title = notification.get_string("title");
        Step::of(one(Effect::Emit(DriverEvent::AutoTitleUpdated(title))))
    } else if same_text(kind, "error") {
        let message = match notification.get_string("message") {
            Some(message) => message,
            None => "Droid reported an error".to_owned(),
        };
        Step::of(one(Effect::Emit(DriverEvent::Error(message))))
    } else {
        // Echoed messages, MCP lifecycle, hooks, compaction, and queue
        // bookkeeping have no transcript representation.
        Step::nothing()
    }
}

} // verus!
