//! What the driver does with the commands of the application.

use crate::json::{empty_object, Json, JsonView};
use crate::model::{
    DriverEvent, DriverEventView, InteractionMode, RuntimeMode, SessionOptions, SessionOptionsView,
    Text, TextView,
};
use crate::reply::{
    answered, cancel_pending, cancellation, decline, give_answer, no_answer, reject, rejection,
    select_option, selection,
};
use crate::stream::{
    one, step_checking, step_of, two, CheckedView, Effect, EffectView, Followup, FollowupView,
    PendingInteraction, PendingView, StateView, Step, StepView, StreamState,
};
use crate::table::{lemma_without_absent, lookup, without};
use crate::text::joined;
use crate::views::{viewed, views};
use crate::wire::{following, request, request_envelope, request_id, respond, response_envelope};
use vstd::prelude::*;

verus! {

/// The autonomy level for an access mode.
pub open spec fn autonomy(mode: RuntimeMode, interaction_mode: InteractionMode) -> Seq<char> {
    if interaction_mode == InteractionMode::Plan {
        "low"@
    } else {
        match mode {
            RuntimeMode::Ask => "off"@,
            RuntimeMode::AutoAcceptEdits => "low"@,
            RuntimeMode::Auto => "medium"@,
            RuntimeMode::FullAccess => "high"@,
            RuntimeMode::Plan => "low"@,
        }
    }
}

/// Map Waku's access model onto Droid's autonomy levels and interaction modes.
/// `off` asks before every operation (Waku's Supervised mode), `low` covers
/// ordinary file edits, and the higher levels relax progressively, mirroring
/// the `--auto` ladder Droid documents for exec.
pub fn autonomy_level(mode: RuntimeMode, interaction_mode: InteractionMode) -> (level: &'static str)
    ensures
        level@ == autonomy(mode, interaction_mode),
{
    if interaction_mode == InteractionMode::Plan || mode == RuntimeMode::Plan {
        "low"
    } else {
        match mode {
            RuntimeMode::Ask => "off",
            RuntimeMode::AutoAcceptEdits => "low",
            RuntimeMode::Auto => "medium",
            RuntimeMode::FullAccess => "high",
            RuntimeMode::Plan => "low",
        }
    }
}

/// What the application tells the driver to do.
#[derive(Debug, PartialEq, Eq)]
pub enum CommandMessage {
    Prompt(String),
    Steer(String),
    Cancel,
    Respond { request_id: String, option_id: String },
    ApplyOptions(SessionOptions),
    Shutdown,
}

/// What a [`CommandMessage`] means.
pub enum CommandView {
    Prompt(Seq<char>),
    Steer(Seq<char>),
    Cancel,
    Respond { request_id: Seq<char>, option_id: Seq<char> },
    ApplyOptions(SessionOptionsView),
    Shutdown,
}

impl View for CommandMessage {
    type V = CommandView;

    open spec fn view(&self) -> CommandView {
        match self {
            CommandMessage::Prompt(text) => CommandView::Prompt(text@),
            CommandMessage::Steer(text) => CommandView::Steer(text@),
            CommandMessage::Cancel => CommandView::Cancel,
            CommandMessage::Respond { request_id, option_id } => CommandView::Respond {
                request_id: request_id@,
                option_id: option_id@,
            },
            CommandMessage::ApplyOptions(options) => CommandView::ApplyOptions(options@),
            CommandMessage::Shutdown => CommandView::Shutdown,
        }
    }
}

/// `base` with the field `key` set to a text, where there is one.
pub open spec fn with_optional(base: JsonView, key: Seq<char>, text: Option<Seq<char>>) -> JsonView {
    match text {
        Some(text) => base.with(key, JsonView::Str(text)),
        None => base,
    }
}

/// Sets the field `key` to a text, where there is one.
pub fn set_optional(base: Json, key: &str, text: &Option<String>) -> (json: Json)
    ensures
        json@ == with_optional(base@, key@, viewed(*text)),
{
    match text {
        Some(text) => base.with(key, Json::text(text)),
        None => base,
    }
}

/// The parameters that change the settings of a session.
pub open spec fn settings_params(options: SessionOptionsView) -> JsonView {
    with_optional(
        with_optional(empty_object(), "modelId"@, options.model),
        "reasoningEffort"@,
        options.reasoning_effort,
    ).with("autonomyLevel"@, JsonView::Str(autonomy(options.mode, options.interaction_mode)))
}

/// The parameters of a prompt.
pub open spec fn prompt_params(text: Seq<char>) -> JsonView {
    empty_object().with("text"@, JsonView::Str(text))
}

/// The parameters of a message for the running turn, which is read when the turn ends.
pub open spec fn steer_params(text: Seq<char>) -> JsonView {
    prompt_params(text).with("queuePlacement"@, JsonView::Str("end_of_turn"@))
}

/// The parameters that end a session.
pub open spec fn close_params() -> JsonView {
    empty_object().with("reason"@, JsonView::Str("other"@))
}

/// The messages that call off the requests that wait for the user, in their order.
pub open spec fn cancellations(pending: Seq<(Seq<char>, PendingView)>) -> Seq<EffectView> {
    pending.map_values(|entry: (Seq<char>, PendingView)| EffectView::Send(cancellation(entry.1)))
}

/// What the driver says when the user picked an answer that the question does not have.
pub open spec fn unavailable_answer() -> DriverEventView {
    DriverEventView::Error(
        "Droid rejected the interaction response: the selected answer is unavailable"@,
    )
}

/// The effect of the user's choice on a request that waits for it.
pub open spec fn choice_effect(pending: PendingView, option_id: Seq<char>) -> EffectView {
    match pending {
        PendingView::Approval { rpc_id } => EffectView::Send(
            response_envelope(rpc_id, selection(option_id)),
        ),
        PendingView::Question { rpc_id, answers } => match lookup(answers, option_id) {
            Some(answer) => EffectView::Send(response_envelope(rpc_id, answered(answer))),
            None => EffectView::Emit(unavailable_answer()),
        },
    }
}

/// What the driver asks for after a command, where the next request has the number
/// `sequence`.
pub open spec fn command_step(message: CommandView, state: StateView, sequence: u64) -> StepView {
    let id = request_id(sequence);
    match message {
        CommandView::Prompt(text) => step_checking(
            if state.turn_active {
                Seq::empty()
            } else {
                seq![EffectView::Emit(DriverEventView::TurnStarted)]
            },
            CheckedView {
                effect: EffectView::Send(
                    request_envelope(id, "droid.add_user_message"@, prompt_params(text)),
                ),
                followup: FollowupView::Prompt,
            },
        ),
        CommandView::Steer(text) => step_checking(
            Seq::empty(),
            CheckedView {
                effect: EffectView::Send(
                    request_envelope(id, "droid.add_user_message"@, steer_params(text)),
                ),
                followup: FollowupView::Steer { message: text },
            },
        ),
        CommandView::Cancel => step_checking(
            cancellations(state.pending),
            CheckedView {
                effect: EffectView::Send(
                    request_envelope(id, "droid.interrupt_session"@, empty_object()),
                ),
                followup: FollowupView::Interrupt,
            },
        ),
        CommandView::Respond { request_id, option_id } => match lookup(state.pending, request_id) {
            Some(pending) => step_of(seq![choice_effect(pending, option_id)]),
            None => step_of(Seq::empty()),
        },
        CommandView::ApplyOptions(options) => step_checking(
            Seq::empty(),
            CheckedView {
                effect: EffectView::Send(
                    request_envelope(id, "droid.update_session_settings"@, settings_params(options)),
                ),
                followup: FollowupView::Options { auto_approve: options.mode != RuntimeMode::Ask },
            },
        ),
        CommandView::Shutdown => StepView {
            effects: seq![
                EffectView::Send(request_envelope(id, "droid.close_session"@, close_params())),
                EffectView::Flush,
            ],
            checked: None,
            running: false,
        },
    }
}

/// The state after a command.
pub open spec fn command_state(message: CommandView, state: StateView) -> StateView {
    match message {
        CommandView::Prompt(_) => StateView { turn_active: true, ..state },
        CommandView::Cancel => StateView { pending: Seq::empty(), ..state },
        CommandView::Respond { request_id, option_id: _ } => StateView {
            pending: without(state.pending, request_id),
            ..state
        },
        _ => state,
    }
}

/// The number of the next request after a command.
pub open spec fn command_sequence(message: CommandView, sequence: u64) -> u64 {
    if message is Respond {
        sequence
    } else {
        following(sequence)
    }
}

/// Carries out a command.
pub fn handle_command(
    message: CommandMessage,
    state: &mut StreamState,
    sequence: &mut u64,
) -> (step: Step)
    ensures
        step@ == command_step(message@, old(state)@, *old(sequence)),
        final(state)@ == command_state(message@, old(state)@),
        *final(sequence) == command_sequence(message@, *old(sequence)),
{
    match message {
        CommandMessage::Prompt(text) => {
            let mut effects: Vec<Effect> = Vec::new();
            assert(views(effects) =~= Seq::empty());
            if !state.turn_active {
                state.turn_active = true;
                effects = one(Effect::Emit(DriverEvent::TurnStarted));
            }
            let params = Json::object().with("text", Json::text(&text));
            let message = request("droid.add_user_message", params, sequence);
            Step::checking(effects, Effect::Send(message), Followup::Prompt)
        },
        CommandMessage::Steer(text) => {
            let effects: Vec<Effect> = Vec::new();
            assert(views(effects) =~= Seq::empty());
            let params = Json::object().with("text", Json::text(&text)).with(
                "queuePlacement",
                Json::text("end_of_turn"),
            );
            let message = request("droid.add_user_message", params, sequence);
            Step::checking(effects, Effect::Send(message), Followup::Steer { message: text })
        },
        CommandMessage::Cancel => {
            let effects = cancel_all(state);
            state.pending.clear();
            let message = request("droid.interrupt_session", Json::object(), sequence);
            Step::checking(effects, Effect::Send(message), Followup::Interrupt)
        },
        CommandMessage::Respond { request_id, option_id } => {
            match state.pending.remove(&request_id) {
                Some(pending) => Step::of(one(apply_choice(&pending, &option_id))),
                None => {
                    proof {
                        lemma_without_absent(old(state).pending@, request_id@);
                    }
                    Step::nothing()
                },
            }
        },
        CommandMessage::ApplyOptions(options) => {
            let effects: Vec<Effect> = Vec::new();
            assert(views(effects) =~= Seq::empty());
            let params = set_optional(
                set_optional(Json::object(), "modelId", &options.model),
                "reasoningEffort",
                &options.reasoning_effort,
            ).with(
                "autonomyLevel",
                Json::text(autonomy_level(options.mode, options.interaction_mode)),
            );
            let message = request("droid.update_session_settings", params, sequence);
            let auto_approve = options.mode != RuntimeMode::Ask;
            Step::checking(effects, Effect::Send(message), Followup::Options { auto_approve })
        },
        CommandMessage::Shutdown => {
            let params = Json::object().with("reason", Json::text("other"));
            let message = request("droid.close_session", params, sequence);
            Step {
                effects: two(Effect::Send(message), Effect::Flush),
                checked: None,
                running: false,
            }
        },
    }
}

/// Calls off the requests that wait for the user.
fn cancel_all(state: &StreamState) -> (effects: Vec<Effect>)
    ensures
        views(effects) == cancellations(state@.pending),
{
    let mut effects: Vec<Effect> = Vec::new();
    let count: usize = state.pending.len();
    let mut i: usize = 0;
    while i < count
        invariant
            i <= count,
            count == state@.pending.len(),
            effects.len() == i,
            forall|j: int|
                0 <= j < i ==> (#[trigger] effects@[j])@ == EffectView::Send(
                    cancellation(state@.pending[j].1),
                ),
        decreases count - i,
    {
        effects.push(Effect::Send(cancel_pending(state.pending.value_at(i))));
        i = i + 1;
    }
    assert(views(effects) =~= cancellations(state@.pending));
    effects
}

/// The effect of the user's choice on a request that waits for it.
fn apply_choice(pending: &PendingInteraction, option_id: &str) -> (effect: Effect)
    ensures
        effect@ == choice_effect(pending@, option_id@),
{
    match pending {
        PendingInteraction::Approval { rpc_id } => Effect::Send(
            respond(rpc_id, select_option(option_id)),
        ),
        PendingInteraction::Question { rpc_id, answers } => match answers.get(option_id) {
            Some(answer) => Effect::Send(respond(rpc_id, give_answer(answer))),
            None => Effect::Emit(
                DriverEvent::Error(
                    "Droid rejected the interaction response: the selected answer is unavailable".to_owned(),
                ),
            ),
        },
    }
}

/// What the driver asks for once it knows whether a checked effect failed, and how.
pub open spec fn settled_effects(followup: FollowupView, failure: Option<Seq<char>>) -> Seq<
    EffectView,
> {
    match (followup, failure) {
        (FollowupView::Prompt, Some(error)) => seq![
            EffectView::Emit(DriverEventView::Error("Droid rejected the prompt: "@ + error)),
            EffectView::Emit(
                DriverEventView::TurnFinished {
                    success: false,
                    summary: Some(TextView::Plain("Droid could not start the turn"@)),
                },
            ),
        ],
        (FollowupView::Steer { message }, None) => seq![
            EffectView::Emit(DriverEventView::SteerAccepted { message }),
        ],
        (FollowupView::Steer { message }, Some(error)) => seq![
            EffectView::Emit(DriverEventView::SteerRejected { message, reason: error }),
        ],
        (FollowupView::Interrupt, Some(error)) => seq![
            EffectView::Emit(
                DriverEventView::Error("Droid could not cancel the turn: "@ + error),
            ),
        ],
        (FollowupView::Options { auto_approve: _ }, Some(error)) => seq![
            EffectView::Emit(
                DriverEventView::Error("Droid could not apply the session options: "@ + error),
            ),
        ],
        (FollowupView::Approval { request_id }, Some(_)) => seq![
            EffectView::Send(response_envelope(request_id, rejection())),
        ],
        (FollowupView::Question { request_id }, Some(_)) => seq![
            EffectView::Send(response_envelope(request_id, no_answer())),
        ],
        _ => Seq::empty(),
    }
}

/// The state once the driver knows whether a checked effect failed.
pub open spec fn settled_state(followup: FollowupView, failed: bool, state: StateView) -> StateView {
    match followup {
        FollowupView::Prompt => if failed {
            StateView { turn_active: false, ..state }
        } else {
            state
        },
        FollowupView::Options { auto_approve } => if failed {
            state
        } else {
            StateView { auto_approve, ..state }
        },
        FollowupView::Approval { request_id } => if failed {
            StateView { pending: without(state.pending, request_id), ..state }
        } else {
            state
        },
        FollowupView::Question { request_id } => if failed {
            StateView { pending: without(state.pending, request_id), ..state }
        } else {
            state
        },
        _ => state,
    }
}

/// Hears of the outcome of a checked effect: `failure` says why it failed.
pub fn settle(followup: Followup, failure: Option<String>, state: &mut StreamState) -> (effects: Vec<
    Effect,
>)
    ensures
        views(effects) == settled_effects(followup@, viewed(failure)),
        final(state)@ == settled_state(followup@, failure is Some, old(state)@),
{
    let nothing: Vec<Effect> = Vec::new();
    assert(views(nothing) =~= Seq::empty());
    match failure {
        None => match followup {
            Followup::Steer { message } => one(
                Effect::Emit(DriverEvent::SteerAccepted { message }),
            ),
            Followup::Options { auto_approve } => {
                state.auto_approve = auto_approve;
                nothing
            },
            _ => nothing,
        },
        Some(error) => match followup {
            Followup::Prompt => {
                state.turn_active = false;
                two(
                    Effect::Emit(
                        DriverEvent::Error(joined("Droid rejected the prompt: ", &error)),
                    ),
                    Effect::Emit(
                        DriverEvent::TurnFinished {
                            success: false,
                            summary: Some(
                                Text::Plain("Droid could not start the turn".to_owned()),
                            ),
                        },
                    ),
                )
            },
            Followup::Steer { message } => one(
                Effect::Emit(DriverEvent::SteerRejected { message, reason: error }),
            ),
            Followup::Interrupt => one(
                Effect::Emit(
                    DriverEvent::Error(joined("Droid could not cancel the turn: ", &error)),
                ),
            ),
            Followup::Options { auto_approve: _ } => one(
                Effect::Emit(
                    DriverEvent::Error(
                        joined("Droid could not apply the session options: ", &error),
                    ),
                ),
            ),
            Followup::Approval { request_id } => {
                let _ = state.pending.remove(&request_id);
                one(Effect::Send(respond(&request_id, reject())))
            },
            Followup::Question { request_id } => {
                let _ = state.pending.remove(&request_id);
                one(Effect::Send(respond(&request_id, decline())))
            },
        },
    }
}

} // verus!
