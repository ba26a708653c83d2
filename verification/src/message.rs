//! What the driver does with the messages of the process.

use crate::json::{Json, JsonView};
use crate::model::{DriverEvent, DriverEventView};
use crate::notification::{
    check_usage, handle_notification, notification_effects, notification_state, read_arguments,
    shown_arguments, usage_fits,
};
use crate::permission::{
    first_tool_use, handle_permission_request, permission_state, permission_step, read_tool_use,
    tool_input, Wording, WordingView,
};
use crate::question::{handle_ask_user, question_state, question_step};
use crate::reply::{reject, rejection};
use crate::stderr::{exit_message, StderrTail};
use crate::stream::{one, step_of, two, Effect, EffectView, StateView, Step, StepView, StreamState};
use crate::text::{joined, same_text};
use crate::views::viewed;
use crate::wire::{respond, response_envelope, WireMessage, WireMessageView};
use vstd::prelude::*;

verus! {

/// What a session notification reports.
pub open spec fn reported(message: WireMessageView) -> Option<JsonView> {
    match message {
        WireMessageView::Notification { method, params } => if method
            == "droid.session_notification"@ {
            params.get("notification"@)
        } else {
            None
        },
        _ => None,
    }
}

/// The arguments of a tool that a message speaks of: those for which the application is
/// asked to find words.
pub open spec fn subject(message: WireMessageView) -> Option<JsonView> {
    match message {
        WireMessageView::Request { id: _, method, params } => if method
            == "droid.request_permission"@ {
            tool_input(first_tool_use(params.get_items("toolUses"@)))
        } else {
            None
        },
        _ => match reported(message) {
            Some(notification) => if notification.get_str("type"@) == Some("tool_call"@) {
                match notification.get("toolUse"@) {
                    Some(tool_use) => shown_arguments(tool_use),
                    None => None,
                }
            } else {
                None
            },
            None => None,
        },
    }
}

/// The tokens that a message reports, if it reports any, can be counted.
pub open spec fn countable(message: WireMessageView) -> bool {
    match reported(message) {
        Some(notification) => usage_fits(notification),
        None => true,
    }
}

/// What a session notification reports.
fn read_report(message: &WireMessage) -> (notification: Option<&Json>)
    ensures
        match notification {
            Some(notification) => reported(message@) == Some(notification@),
            None => reported(message@) is None,
        },
{
    match message {
        WireMessage::Notification { method, params } => if same_text(
            method,
            "droid.session_notification",
        ) {
            params.get("notification")
        } else {
            None
        },
        _ => None,
    }
}

/// The arguments of a tool that a message speaks of. The application finds words for
/// them, and hands those to [`handle_message`] along with the message.
pub fn read_subject(message: &WireMessage) -> (arguments: Option<Json>)
    ensures
        viewed(arguments) == subject(message@),
{
    match message {
        WireMessage::Request { id: _, method, params } => if same_text(
            method,
            "droid.request_permission",
        ) {
            match read_tool_use(params) {
                Some(tool_use) => tool_use.get_copy("input"),
                None => None,
            }
        } else {
            None
        },
        _ => match read_report(message) {
            Some(notification) => match notification.get_str("type") {
                Some(kind) => if same_text(kind, "tool_call") {
                    match notification.get("toolUse") {
                        Some(tool_use) => read_arguments(tool_use),
                        None => None,
                    }
                } else {
                    None
                },
                None => None,
            },
            None => None,
        },
    }
}

/// Whether the tokens that a message reports can be counted.
pub fn check_countable(message: &WireMessage) -> (fits: bool)
    ensures
        fits == countable(message@),
{
    match read_report(message) {
        Some(notification) => check_usage(notification),
        None => true,
    }
}

/// What the driver asks for after a message, where `stderr` are the last lines of the
/// standard error.
pub open spec fn message_step(
    message: WireMessageView,
    wording: WordingView,
    state: StateView,
    stderr: Seq<Seq<char>>,
) -> StepView {
    match message {
        WireMessageView::Response { id: _, result: _, error } => match error {
            Some(error) => step_of(
                seq![EffectView::Emit(DriverEventView::Error("Droid: "@ + error))],
            ),
            None => step_of(Seq::empty()),
        },
        WireMessageView::Request { id, method, params } => if method
            == "droid.request_permission"@ {
            permission_step(id, params, wording, state)
        } else if method == "droid.ask_user"@ {
            question_step(id, params)
        } else {
            step_of(
                seq![
                    EffectView::Send(response_envelope(id, rejection())),
                    EffectView::Emit(
                        DriverEventView::Error("Droid sent an unsupported request: "@ + method),
                    ),
                ],
            )
        },
        WireMessageView::Notification { method: _, params: _ } => match reported(message) {
            Some(notification) => step_of(notification_effects(notification, wording, state)),
            None => step_of(Seq::empty()),
        },
        WireMessageView::Exited => StepView {
            effects: seq![
                EffectView::Emit(DriverEventView::Error(exit_message(stderr))),
                EffectView::Emit(DriverEventView::ProcessExited),
            ],
            checked: None,
            running: false,
        },
    }
}

/// The state after a message.
pub open spec fn message_state(
    message: WireMessageView,
    wording: WordingView,
    state: StateView,
) -> StateView {
    match message {
        WireMessageView::Request { id, method, params } => if method
            == "droid.request_permission"@ {
            permission_state(id, state)
        } else if method == "droid.ask_user"@ {
            question_state(id, params, state)
        } else {
            state
        },
        WireMessageView::Notification { method: _, params: _ } => match reported(message) {
            Some(notification) => notification_state(notification, wording, state),
            None => state,
        },
        _ => state,
    }
}

/// Takes in a message of the process. `wording` is how the application words the
/// arguments that [`read_subject`] finds in it.
pub fn handle_message(
    message: WireMessage,
    wording: Wording,
    state: &mut StreamState,
    stderr: &StderrTail,
) -> (step: Step)
    requires
        countable(message@),
    ensures
        step@ == message_step(message@, wording@, old(state)@, stderr@),
        final(state)@ == message_state(message@, wording@, old(state)@),
{
    match message {
        WireMessage::Response { id: _, result: _, error } => match error {
            Some(error) => Step::of(
                one(Effect::Emit(DriverEvent::Error(joined("Droid: ", &error)))),
            ),
            None => Step::nothing(),
        },
        WireMessage::Request { id, method, params } => {
            if same_text(&method, "droid.request_permission") {
                handle_permission_request(&id, &params, wording, state)
            } else if same_text(&method, "droid.ask_user") {
                handle_ask_user(&id, &params, state)
            } else {
                // Unknown server requests are answered with a rejection so the
                // agent never hangs on our silence.
                Step::of(
                    two(
                        Effect::Send(respond(&id, reject())),
                        Effect::Emit(
                            DriverEvent::Error(
                                joined("Droid sent an unsupported request: ", &method),
                            ),
                        ),
                    ),
                )
            }
        },
        WireMessage::Notification { method, params } => {
            if !same_text(&method, "droid.session_notification") {
                return Step::nothing();
            }
            match params.get("notification") {
                Some(notification) => handle_notification(notification, wording, state),
                None => Step::nothing(),
            }
        },
        WireMessage::Exited => {
            Step {
                effects: two(
                    Effect::Emit(DriverEvent::Error(stderr.exit_text())),
                    Effect::Emit(DriverEvent::ProcessExited),
                ),
                checked: None,
                running: false,
            }
        },
    }
}

} // verus!
