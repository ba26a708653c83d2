//! What holds of turns.

use crate::command::{command_state, command_step, settled_effects, settled_state, CommandView};
use crate::json::JsonView;
use crate::message::{message_state, message_step, reported};
use crate::model::DriverEventView;
use crate::notification::{lemma_kinds, notification_effects, notification_state, turn_finished};
use crate::permission::{text_or, WordingView};
use crate::stream::{EffectView, StateView};
use crate::wire::WireMessageView;
use vstd::prelude::*;

verus! {

/// An effect that reports the end of a turn.
pub open spec fn ends_turn(effect: EffectView) -> bool {
    effect matches EffectView::Emit(DriverEventView::TurnFinished { .. })
}

/// A prompt starts a turn and reports it, unless one runs already: then it is reported
/// no second time.
pub proof fn law_turns_start_once(
    first: Seq<char>,
    second: Seq<char>,
    state: StateView,
    m: u64,
    n: u64,
)
    ensures
        ({
            let after = command_state(CommandView::Prompt(first), state);
            &&& after == (StateView { turn_active: true, ..state })
            &&& command_step(CommandView::Prompt(first), state, m).effects == if state.turn_active {
                Seq::<EffectView>::empty()
            } else {
                seq![EffectView::Emit(DriverEventView::TurnStarted)]
            }
            &&& command_step(CommandView::Prompt(second), after, n).effects.len() == 0
        }),
{
}

/// A prompt that cannot be sent ends the turn as a failure and says so; a prompt that is
/// sent changes nothing more.
pub proof fn law_unsent_prompts_end_the_turn(
    text: Seq<char>,
    state: StateView,
    sequence: u64,
    error: Seq<char>,
)
    ensures
        ({
            let after = command_state(CommandView::Prompt(text), state);
            &&& command_step(CommandView::Prompt(text), state, sequence).checked matches Some(
                checked,
            )
            &&& settled_state(checked.followup, true, after) == (StateView {
                turn_active: false,
                ..state
            })
            &&& settled_effects(checked.followup, Some(error)).len() == 2
            &&& settled_effects(checked.followup, Some(error))[0] == EffectView::Emit(
                DriverEventView::Error("Droid rejected the prompt: "@ + error),
            )
            &&& settled_effects(checked.followup, Some(error))[1] matches EffectView::Emit(
                DriverEventView::TurnFinished { success: false, summary: Some(_) },
            )
            &&& settled_state(checked.followup, false, after) == after
            &&& settled_effects(checked.followup, None).len() == 0
        }),
{
}

/// When the process reports that the turn is over, no turn runs any more and the end is
/// reported once, as a success exactly where the reason is completion or cancellation,
/// and as completion where no reason is given.
pub proof fn law_completed_turns_end(
    notification: JsonView,
    wording: WordingView,
    state: StateView,
)
    requires
        notification.get_str("type"@) == Some("agent_turn_completed"@),
    ensures
        notification_state(notification, wording, state) == (StateView {
            turn_active: false,
            ..state
        }),
        notification_effects(notification, wording, state) == seq![
            EffectView::Emit(
                turn_finished(text_or(notification.get_str("reason"@), "completed"@)),
            ),
        ],
        notification.get_str("reason"@) is None ==> turn_finished(
            text_or(notification.get_str("reason"@), "completed"@),
        ) == (DriverEventView::TurnFinished { success: true, summary: None }),
{
    lemma_kinds();
}

/// A message of the process ends a turn exactly where the step reports its end, and no
/// message starts one.
pub proof fn law_messages_end_turns_openly(
    message: WireMessageView,
    wording: WordingView,
    state: StateView,
    stderr: Seq<Seq<char>>,
)
    ensures
        ({
            let step = message_step(message, wording, state, stderr);
            let after = message_state(message, wording, state);
            let told = exists|i: int|
                0 <= i < step.effects.len() && ends_turn(#[trigger] step.effects[i]);
            &&& told ==> !after.turn_active
            &&& !told ==> after.turn_active == state.turn_active
            &&& after.turn_active ==> state.turn_active
        }),
{
    lemma_kinds();
    let step = message_step(message, wording, state, stderr);
    match reported(message) {
        Some(notification) => {
            if notification.get_str("type"@) == Some("agent_turn_completed"@) {
                assert(ends_turn(step.effects[0]));
            }
        },
        None => {},
    }
}

/// Notifications leave alone what waits for the user; requests leave alone the turn and
/// the tools at work.
pub proof fn law_messages_keep_apart(
    message: WireMessageView,
    wording: WordingView,
    state: StateView,
)
    ensures
        message is Notification ==> message_state(message, wording, state).pending
            == state.pending,
        message is Request ==> message_state(message, wording, state).tools == state.tools
            && message_state(message, wording, state).turn_active == state.turn_active,
        message is Response || message is Exited ==> message_state(message, wording, state)
            == state,
{
}

/// A kind of notification that the driver reads.
pub open spec fn read_kind(kind: Seq<char>) -> bool {
    ||| kind == "assistant_text_delta"@
    ||| kind == "thinking_text_delta"@
    ||| kind == "tool_call"@
    ||| kind == "tool_result"@
    ||| kind == "agent_turn_completed"@
    ||| kind == "session_token_usage_changed"@
    ||| kind == "session_title_updated"@
    ||| kind == "error"@
}

/// Notifications of any other kind, or of none, have no effect.
pub proof fn law_other_notifications_are_silent(
    notification: JsonView,
    wording: WordingView,
    state: StateView,
)
    requires
        notification.get_str("type"@) matches Some(kind) ==> !read_kind(kind),
    ensures
        notification_effects(notification, wording, state).len() == 0,
        notification_state(notification, wording, state) == state,
{
}

} // verus!
