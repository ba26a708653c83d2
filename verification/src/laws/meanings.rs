//! What the values of the driver mean: what is in them, each part in its place.

use crate::command::{CommandMessage, CommandView};
use crate::json::Json;
use crate::model::{
    CursorView, DriverEvent, DriverEventView, PermissionOption,
    PermissionOptionView, ProviderResumeCursor, SessionOptions, SessionOptionsView,
    Text, TextView, ToolActivity, ToolActivityView,
};
use crate::permission::{Wording, WordingView};
use crate::session::{
    outcome, Handshake, HandshakeEvent, HandshakeEventView, HandshakeView, Launch, LaunchView,
    StartError, StartErrorView, StartOptions, StartOptionsView, Started,
};
use crate::stderr::StderrTail;
use crate::stream::{
    Answer, AnswerView, Checked, Effect, EffectView, Followup, FollowupView, PendingInteraction,
    PendingView, Step, StreamState, ToolRecord, ToolRecordView,
};
use crate::table::Table;
use crate::views::{viewed, views};
use crate::wire::{WireMessage, WireMessageView};
use vstd::prelude::*;

verus! {

/// A command means what was commanded.
pub proof fn law_commands_mean_what_they_say(
    text: String,
    option_id: String,
    options: SessionOptions,
)
    ensures
        CommandMessage::Prompt(text)@ == CommandView::Prompt(text@),
        CommandMessage::Steer(text)@ == CommandView::Steer(text@),
        CommandMessage::Cancel@ == CommandView::Cancel,
        (CommandMessage::Respond { request_id: text, option_id })@ == (CommandView::Respond {
            request_id: text@,
            option_id: option_id@,
        }),
        CommandMessage::ApplyOptions(options)@ == CommandView::ApplyOptions(
            SessionOptionsView {
                mode: options.mode,
                interaction_mode: options.interaction_mode,
                model: viewed(options.model),
                reasoning_effort: viewed(options.reasoning_effort),
            },
        ),
        CommandMessage::Shutdown@ == CommandView::Shutdown,
{
}

/// A message means what it carries.
pub proof fn law_messages_mean_what_they_carry(
    id: String,
    method: String,
    params: Json,
    result: Option<Json>,
    error: Option<String>,
)
    ensures
        (WireMessage::Response { id, result, error })@ == (WireMessageView::Response {
            id: id@,
            result: viewed(result),
            error: viewed(error),
        }),
        (WireMessage::Request { id, method, params })@ == (WireMessageView::Request {
            id: id@,
            method: method@,
            params: params@,
        }),
        (WireMessage::Notification { method, params })@ == (WireMessageView::Notification {
            method: method@,
            params: params@,
        }),
        WireMessage::Exited@ == WireMessageView::Exited,
{
}

/// An event means what it tells.
pub proof fn law_events_mean_what_they_tell(
    cursor: Option<ProviderResumeCursor>,
    session_id: String,
    success: bool,
    summary: Option<Text>,
    first: String,
    second: String,
    detail: Text,
    options: Vec<PermissionOption>,
    option: PermissionOption,
    activity: ToolActivity,
    tokens: Option<u64>,
    window: Option<u64>,
    title: Option<String>,
)
    ensures
        (DriverEvent::Connected { provider_cursor: cursor })@ == (DriverEventView::Connected {
            provider_cursor: viewed(cursor),
        }),
        (ProviderResumeCursor::Droid { session_id })@ == (CursorView::Droid {
            session_id: session_id@,
        }),
        ProviderResumeCursor::Other@ == CursorView::Other,
        DriverEvent::TurnStarted@ == DriverEventView::TurnStarted,
        (DriverEvent::TurnFinished { success, summary })@ == (DriverEventView::TurnFinished {
            success,
            summary: viewed(summary),
        }),
        (DriverEvent::SteerAccepted { message: first })@ == (DriverEventView::SteerAccepted {
            message: first@,
        }),
        (DriverEvent::SteerRejected { message: first, reason: second })@ == (
        DriverEventView::SteerRejected { message: first@, reason: second@ }),
        (DriverEvent::Permission { request_id: first, title: second, detail, options })@ == (
        DriverEventView::Permission {
            request_id: first@,
            title: second@,
            detail: detail@,
            options: views(options),
        }),
        option@ == (PermissionOptionView {
            id: option.id@,
            label: option.label@,
            allow: option.allow,
        }),
        DriverEvent::TextDelta(first)@ == DriverEventView::TextDelta(first@),
        DriverEvent::ReasoningDelta(first)@ == DriverEventView::ReasoningDelta(first@),
        DriverEvent::RichActivity(activity)@ == DriverEventView::RichActivity(
            ToolActivityView {
                id: viewed(activity.id),
                tool_name: activity.tool_name@,
                title: activity.title@,
                arguments: viewed(activity.arguments),
                output: viewed(activity.output),
                failed: activity.failed,
                complete: activity.complete,
            },
        ),
        (DriverEvent::UsageUpdated { context_tokens: tokens, context_window: window })@ == (
        DriverEventView::UsageUpdated { context_tokens: tokens, context_window: window }),
        DriverEvent::AutoTitleUpdated(title)@ == DriverEventView::AutoTitleUpdated(viewed(title)),
        DriverEvent::Error(first)@ == DriverEventView::Error(first@),
        DriverEvent::ProcessExited@ == DriverEventView::ProcessExited,
{
}

/// A text means its words, or its entry in the catalogue.
pub proof fn law_texts_mean_their_words(first: String, second: String, third: String)
    ensures
        Text::Plain(first)@ == TextView::Plain(first@),
        (Text::Localized { key: first, parameter: second, value: third })@ == (TextView::Localized {
            key: first@,
            parameter: second@,
            value: third@,
        }),
{
}

/// An effect means what is to be done, and a step all of it, in order.
pub proof fn law_steps_mean_what_is_to_be_done(
    event: DriverEvent,
    message: Json,
    text: String,
    auto_approve: bool,
    effects: Vec<Effect>,
    checked: Option<Checked>,
    one: Checked,
    running: bool,
)
    ensures
        Effect::Emit(event)@ == EffectView::Emit(event@),
        Effect::Send(message)@ == EffectView::Send(message@),
        Effect::Flush@ == EffectView::Flush,
        Followup::Prompt@ == FollowupView::Prompt,
        (Followup::Steer { message: text })@ == (FollowupView::Steer { message: text@ }),
        Followup::Interrupt@ == FollowupView::Interrupt,
        (Followup::Options { auto_approve })@ == (FollowupView::Options { auto_approve }),
        (Followup::Approval { request_id: text })@ == (FollowupView::Approval { request_id: text@ }),
        (Followup::Question { request_id: text })@ == (FollowupView::Question { request_id: text@ }),
        one@.effect == one.effect@,
        one@.followup == one.followup@,
        (Step { effects, checked, running })@.effects == views(effects),
        (Step { effects, checked, running })@.checked == viewed(checked),
        (Step { effects, checked, running })@.running == running,
{
}

/// The state of a session means what is in it.
pub proof fn law_states_mean_what_is_in_them(
    state: StreamState,
    answer: Answer,
    record: ToolRecord,
    rpc_id: String,
    answers: Table<Answer>,
)
    ensures
        state@.turn_active == state.turn_active,
        state@.auto_approve == state.auto_approve,
        state@.tools == state.tools@,
        state@.pending == state.pending@,
        answer@ == (AnswerView {
            index: answer.index,
            question: answer.question@,
            answer: answer.answer@,
        }),
        record@ == (ToolRecordView { tool_name: record.tool_name@, title: record.title@ }),
        (PendingInteraction::Approval { rpc_id })@ == (PendingView::Approval { rpc_id: rpc_id@ }),
        (PendingInteraction::Question { rpc_id, answers })@ == (PendingView::Question {
            rpc_id: rpc_id@,
            answers: answers@,
        }),
{
}

/// What starts a session means what is in it.
pub proof fn law_starts_mean_what_is_in_them(
    options: StartOptions,
    launch: Launch,
    handshake: Handshake,
    message: WireMessage,
    started: Started,
    first: String,
    second: String,
)
    ensures
        options@ == (StartOptionsView {
            cwd: options.cwd@,
            mode: options.mode,
            interaction_mode: options.interaction_mode,
            model: viewed(options.model),
            reasoning_effort: viewed(options.reasoning_effort),
            provider_cursor: viewed(options.provider_cursor),
            cursor_provider: options.cursor_provider@,
        }),
        launch@ == (LaunchView {
            arguments: views(launch.arguments),
            method: launch.method@,
            params: launch.params@,
            resumed: viewed(launch.resumed),
            auto_approve: launch.auto_approve,
        }),
        handshake@ == (HandshakeView {
            request_id: handshake.request_id@,
            method: handshake.method@,
        }),
        HandshakeEvent::Message(message)@ == HandshakeEventView::Message(message@),
        HandshakeEvent::DeadlinePassed@ == HandshakeEventView::DeadlinePassed,
        HandshakeEvent::ReceiveFailed@ == HandshakeEventView::ReceiveFailed,
        started@.effects == views(started.effects),
        started@.state == started.state@,
        (StartError::ForeignCursor { provider: first })@ == (StartErrorView::ForeignCursor {
            provider: first@,
        }),
        (StartError::RequestFailed { method: first, error: second })@ == (
        StartErrorView::RequestFailed { method: first@, error: second@ }),
        (StartError::TimedOut { method: first })@ == (StartErrorView::TimedOut { method: first@ }),
        StartError::ProcessExited@ == StartErrorView::ProcessExited,
        StartError::NoSessionId@ == StartErrorView::NoSessionId,
{
}

/// The outcome of a fallible step means its value or its error.
pub proof fn law_outcomes_mean_what_came_out(launch: Launch, error: StartError)
    ensures
        outcome(Ok::<Launch, StartError>(launch)) == Ok::<LaunchView, StartErrorView>(launch@),
        outcome(Err::<Launch, StartError>(error)) == Err::<LaunchView, StartErrorView>(error@),
{
}

/// Words mean themselves, and kept lines are meant in their order.
pub proof fn law_words_and_lines_mean_themselves(wording: Wording, tail: StderrTail)
    ensures
        wording@ == (WordingView { title: viewed(wording.title), detail: viewed(wording.detail) }),
        tail@ == views(tail.lines),
{
}

} // verus!
