//! What each command of the application comes to: what is sent, what the user is told,
//! and what changes, whether or not the message can be sent.

use crate::command::{
    command_sequence, command_state, command_step, settings_params, settled_effects,
    settled_state, CommandView,
};
use crate::json::{JsonNumber, JsonView};
use crate::laws::envelopes::law_request_reads_back;
use crate::model::{
    DriverEventView, InteractionMode, RuntimeMode, SessionOptionsView, TextView,
};
use crate::stream::{EffectView, PendingView, StateView, StepView};
use crate::table::{lemma_lookup_without, lemma_without_absent, lookup};
use crate::wire::{
    classified, following, request_envelope, request_id, response_envelope, WireMessageView,
};
use vstd::prelude::*;

verus! {

/// A request is written as an envelope with exactly these fields.
pub proof fn law_requests_are_written_out(id: Seq<char>, method: Seq<char>, params: JsonView)
    ensures
        request_envelope(id, method, params) == JsonView::Object(
            map![
                "jsonrpc"@ => JsonView::Str("2.0"@),
                "factoryApiVersion"@ => JsonView::Str("1.0.0"@),
                "type"@ => JsonView::Str("request"@),
                "id"@ => JsonView::Str(id),
                "method"@ => JsonView::Str(method),
                "params"@ => params
            ],
        ),
{
}

/// A response is written as an envelope with exactly these fields.
pub proof fn law_responses_are_written_out(id: Seq<char>, result: JsonView)
    ensures
        response_envelope(id, result) == JsonView::Object(
            map![
                "jsonrpc"@ => JsonView::Str("2.0"@),
                "factoryApiVersion"@ => JsonView::Str("1.0.0"@),
                "type"@ => JsonView::Str("response"@),
                "id"@ => JsonView::Str(id),
                "result"@ => result
            ],
        ),
{
}

/// A prompt is sent as the text it is, after the start of the turn was told if none ran.
/// From then on a turn runs, unless the prompt cannot be sent: then the user hears why,
/// and that the turn failed.
pub proof fn law_prompts_are_sent(text: Seq<char>, state: StateView, sequence: u64, error: Seq<char>)
    ensures
        ({
            let step = command_step(CommandView::Prompt(text), state, sequence);
            let after = command_state(CommandView::Prompt(text), state);
            &&& state.turn_active ==> step.effects.len() == 0
            &&& !state.turn_active ==> step.effects == seq![
                EffectView::Emit(DriverEventView::TurnStarted),
            ]
            &&& step.running
            &&& command_sequence(CommandView::Prompt(text), sequence) == following(sequence)
            &&& after == (StateView { turn_active: true, ..state })
            &&& step.checked matches Some(checked)
            &&& checked.effect == EffectView::Send(
                request_envelope(
                    request_id(sequence),
                    "droid.add_user_message"@,
                    JsonView::Object(map!["text"@ => JsonView::Str(text)]),
                ),
            )
            &&& settled_effects(checked.followup, None).len() == 0
            &&& settled_state(checked.followup, false, after) == after
            &&& settled_effects(checked.followup, Some(error)) == seq![
                EffectView::Emit(DriverEventView::Error("Droid rejected the prompt: "@ + error)),
                EffectView::Emit(
                    DriverEventView::TurnFinished {
                        success: false,
                        summary: Some(TextView::Plain("Droid could not start the turn"@)),
                    },
                ),
            ]
            &&& settled_state(checked.followup, true, after) == (StateView {
                turn_active: false,
                ..state
            })
        }),
{
}

/// A message for the running turn is sent as the text it is, to be read at the end of the
/// turn. The user hears that it was taken, or why not, and nothing else changes.
pub proof fn law_steering_is_sent(text: Seq<char>, state: StateView, sequence: u64, error: Seq<char>)
    ensures
        ({
            let step = command_step(CommandView::Steer(text), state, sequence);
            &&& step.effects.len() == 0
            &&& step.running
            &&& command_sequence(CommandView::Steer(text), sequence) == following(sequence)
            &&& command_state(CommandView::Steer(text), state) == state
            &&& step.checked matches Some(checked)
            &&& checked.effect == EffectView::Send(
                request_envelope(
                    request_id(sequence),
                    "droid.add_user_message"@,
                    JsonView::Object(
                        map![
                            "text"@ => JsonView::Str(text),
                            "queuePlacement"@ => JsonView::Str("end_of_turn"@)
                        ],
                    ),
                ),
            )
            &&& settled_effects(checked.followup, None) == seq![
                EffectView::Emit(DriverEventView::SteerAccepted { message: text }),
            ]
            &&& settled_effects(checked.followup, Some(error)) == seq![
                EffectView::Emit(DriverEventView::SteerRejected { message: text, reason: error }),
            ]
            &&& settled_state(checked.followup, false, state) == state
            &&& settled_state(checked.followup, true, state) == state
        }),
{
}

/// Cancelling answers each request that waits for the user, a permission request with
/// `cancel` and a question without an answer, then interrupts the turn. Nothing waits
/// afterwards, and nothing else changes; if the interruption cannot be sent the user
/// hears why.
pub proof fn law_cancelling_interrupts(state: StateView, sequence: u64, error: Seq<char>)
    ensures
        ({
            let step = command_step(CommandView::Cancel, state, sequence);
            let after = command_state(CommandView::Cancel, state);
            &&& step.effects.len() == state.pending.len()
            &&& forall|i: int|
                0 <= i < state.pending.len() ==> (#[trigger] step.effects[i]) == EffectView::Send(
                    match state.pending[i].1 {
                        PendingView::Approval { rpc_id } => response_envelope(
                            rpc_id,
                            JsonView::Object(map!["selectedOption"@ => JsonView::Str("cancel"@)]),
                        ),
                        PendingView::Question { rpc_id, answers: _ } => response_envelope(
                            rpc_id,
                            JsonView::Object(
                                map![
                                    "cancelled"@ => JsonView::Bool(true),
                                    "answers"@ => JsonView::Array(Seq::empty())
                                ],
                            ),
                        ),
                    },
                )
            &&& step.running
            &&& command_sequence(CommandView::Cancel, sequence) == following(sequence)
            &&& after == (StateView { pending: Seq::empty(), ..state })
            &&& step.checked matches Some(checked)
            &&& checked.effect == EffectView::Send(
                request_envelope(
                    request_id(sequence),
                    "droid.interrupt_session"@,
                    JsonView::Object(Map::empty()),
                ),
            )
            &&& settled_effects(checked.followup, None).len() == 0
            &&& settled_effects(checked.followup, Some(error)) == seq![
                EffectView::Emit(
                    DriverEventView::Error("Droid could not cancel the turn: "@ + error),
                ),
            ]
            &&& settled_state(checked.followup, false, after) == after
            &&& settled_state(checked.followup, true, after) == after
        }),
{
}

/// The user's choice goes to the request it is for, and only that request stops waiting:
/// the option itself for a permission request, and for a question the answer that stands
/// under the option, with its position and the question. A question that has no such
/// answer gets none, and the user hears so. A choice for nothing that waits does nothing.
pub proof fn law_choices_are_sent(
    state: StateView,
    request_id: Seq<char>,
    option_id: Seq<char>,
    other: Seq<char>,
    sequence: u64,
)
    ensures
        ({
            let choice = CommandView::Respond { request_id, option_id };
            let step = command_step(choice, state, sequence);
            let after = command_state(choice, state);
            &&& step.checked is None && step.running
            &&& command_sequence(choice, sequence) == sequence
            &&& after == (StateView { pending: after.pending, ..state })
            &&& lookup(after.pending, request_id) is None
            &&& other != request_id ==> lookup(after.pending, other) == lookup(
                state.pending,
                other,
            )
            &&& match lookup(state.pending, request_id) {
                None => step.effects.len() == 0 && after == state,
                Some(PendingView::Approval { rpc_id }) => step.effects == seq![
                    EffectView::Send(
                        response_envelope(
                            rpc_id,
                            JsonView::Object(map!["selectedOption"@ => JsonView::Str(option_id)]),
                        ),
                    ),
                ],
                Some(PendingView::Question { rpc_id, answers }) => match lookup(
                    answers,
                    option_id,
                ) {
                    Some(answer) => step.effects == seq![
                        EffectView::Send(
                            response_envelope(
                                rpc_id,
                                JsonView::Object(
                                    map![
                                        "cancelled"@ => JsonView::Bool(false),
                                        "answers"@ => JsonView::Array(seq![JsonView::Object(map![
                                            "index"@ => JsonView::Number(
                                                JsonNumber::Unsigned(answer.index as u64),
                                            ),
                                            "question"@ => JsonView::Str(answer.question),
                                            "answer"@ => JsonView::Str(answer.answer)
                                        ])])
                                    ],
                                ),
                            ),
                        ),
                    ],
                    None => step.effects == seq![
                        EffectView::Emit(
                            DriverEventView::Error(
                                "Droid rejected the interaction response: the selected answer is unavailable"@,
                            ),
                        ),
                    ],
                },
            }
        }),
{
    lemma_lookup_without(state.pending, request_id, request_id);
    lemma_lookup_without(state.pending, request_id, other);
    if lookup(state.pending, request_id) is None {
        lemma_without_absent(state.pending, request_id);
    }
}

/// The names of the settings differ.
proof fn lemma_setting_names()
    ensures
        "autonomyLevel"@ != "modelId"@,
        "autonomyLevel"@ != "reasoningEffort"@,
        "modelId"@ != "reasoningEffort"@,
{
    reveal_strlit("autonomyLevel");
    reveal_strlit("modelId");
    reveal_strlit("reasoningEffort");
    assert("autonomyLevel"@.len() == 13);
    assert("modelId"@.len() == 7);
    assert("reasoningEffort"@.len() == 15);
}

/// Changed settings are sent as they are: the level of exactly the chosen modes on the
/// access ladder, the model and the effort where they are given, and no other field. The
/// session approves by itself from then on exactly outside the supervised mode; if the
/// settings cannot be sent, nothing changes and the user hears why.
pub proof fn law_settings_are_sent(
    options: SessionOptionsView,
    state: StateView,
    sequence: u64,
    key: Seq<char>,
    error: Seq<char>,
)
    ensures
        ({
            let command = CommandView::ApplyOptions(options);
            let step = command_step(command, state, sequence);
            &&& step.effects.len() == 0
            &&& step.running
            &&& command_sequence(command, sequence) == following(sequence)
            &&& command_state(command, state) == state
            &&& step.checked matches Some(checked)
            &&& checked.effect matches EffectView::Send(sent)
            &&& classified(sent) matches Some(WireMessageView::Request { id, method, params })
            &&& sent == request_envelope(id, method, params)
            &&& id == request_id(sequence)
            &&& method == "droid.update_session_settings"@
            &&& params is Object
            &&& options.interaction_mode == InteractionMode::Plan ==> params.get("autonomyLevel"@)
                == Some(JsonView::Str("low"@))
            &&& options.interaction_mode == InteractionMode::Build ==> params.get("autonomyLevel"@)
                == Some(
                JsonView::Str(
                    match options.mode {
                        RuntimeMode::Ask => "off"@,
                        RuntimeMode::AutoAcceptEdits => "low"@,
                        RuntimeMode::Plan => "low"@,
                        RuntimeMode::Auto => "medium"@,
                        RuntimeMode::FullAccess => "high"@,
                    },
                ),
            )
            &&& params.get("modelId"@) == match options.model {
                Some(model) => Some(JsonView::Str(model)),
                None => None,
            }
            &&& params.get("reasoningEffort"@) == match options.reasoning_effort {
                Some(effort) => Some(JsonView::Str(effort)),
                None => None,
            }
            &&& params.get(key) is Some ==> key == "autonomyLevel"@ || key == "modelId"@ || key
                == "reasoningEffort"@
            &&& settled_effects(checked.followup, None).len() == 0
            &&& settled_state(checked.followup, false, state) == (StateView {
                auto_approve: options.mode != RuntimeMode::Ask,
                ..state
            })
            &&& settled_effects(checked.followup, Some(error)) == seq![
                EffectView::Emit(
                    DriverEventView::Error("Droid could not apply the session options: "@ + error),
                ),
            ]
            &&& settled_state(checked.followup, true, state) == state
        }),
{
    lemma_setting_names();
    let step = command_step(CommandView::ApplyOptions(options), state, sequence);
    let params = settings_params(options);
    law_request_reads_back(request_id(sequence), "droid.update_session_settings"@, params);
    assert(step.checked->0.effect->Send_0 == request_envelope(
        request_id(sequence),
        "droid.update_session_settings"@,
        params,
    ));
}

/// Shutting down closes the session, flushes what was written, and ends it.
pub proof fn law_shutting_down_closes(state: StateView, sequence: u64)
    ensures
        command_step(CommandView::Shutdown, state, sequence) == (StepView {
            effects: seq![
                EffectView::Send(
                    request_envelope(
                        request_id(sequence),
                        "droid.close_session"@,
                        JsonView::Object(map!["reason"@ => JsonView::Str("other"@)]),
                    ),
                ),
                EffectView::Flush,
            ],
            checked: None,
            running: false,
        }),
        command_state(CommandView::Shutdown, state) == state,
        command_sequence(CommandView::Shutdown, sequence) == following(sequence),
{
}

} // verus!
