//! What holds of the requests of the agent.

use crate::command::{command_state, command_step, settled_effects, settled_state, CommandView};
use crate::json::JsonView;
use crate::message::{message_state, message_step};
use crate::model::DriverEventView;
use crate::permission::{
    automatic_choice, permission_options, permission_state, text_or, WordingView,
};
use crate::question::{
    answer_id, question_answers, question_options, question_state, supported_question,
};
use crate::reply::{answered, cancellation, no_answer, rejection, selection};
use crate::stream::{step_of, AnswerView, EffectView, PendingView, StateView, StepView};
use crate::table::{lemma_lookup_put, lemma_lookup_without, lemma_without_put, lookup};
use crate::text::{decimal, lemma_decimal_injective};
use crate::wire::{response_envelope, WireMessageView};
use vstd::prelude::*;

verus! {

/// An effect that answers the request `id`.
pub open spec fn answers(effect: EffectView, id: Seq<char>) -> bool {
    exists|result: JsonView| effect == EffectView::Send(#[trigger] response_envelope(id, result))
}

/// A step that shows the user the request `id`.
pub open spec fn shows(step: StepView, id: Seq<char>) -> bool {
    step.checked matches Some(checked) && checked.effect matches EffectView::Emit(
        DriverEventView::Permission { request_id, .. },
    ) && request_id == id
}

/// No request of the agent is met with silence: it is answered at once, or it is shown
/// to the user and waits under its identifier.
pub proof fn law_requests_are_not_ignored(
    id: Seq<char>,
    method: Seq<char>,
    params: JsonView,
    wording: WordingView,
    state: StateView,
    stderr: Seq<Seq<char>>,
)
    ensures
        ({
            let message = WireMessageView::Request { id, method, params };
            let step = message_step(message, wording, state, stderr);
            let after = message_state(message, wording, state);
            ||| step.effects.len() > 0 && answers(step.effects[0], id) && step.checked is None
                && after == state
            ||| step.effects.len() == 0 && shows(step, id) && lookup(after.pending, id) is Some
        }),
{
    let message = WireMessageView::Request { id, method, params };
    let step = message_step(message, wording, state, stderr);
    if method == "droid.request_permission"@ {
        lemma_lookup_put(state.pending, id, PendingView::Approval { rpc_id: id }, id);
        if state.auto_approve {
            let choice = automatic_choice(
                permission_options(params.get_items("options"@)),
            );
            assert(step.effects[0] == EffectView::Send(response_envelope(id, selection(choice))));
        }
    } else if method == "droid.ask_user"@ {
        match supported_question(params) {
            Some(question) => {
                let pending = PendingView::Question {
                    rpc_id: id,
                    answers: question_answers(
                        question.get_items("options"@),
                        text_or(question.get_str("question"@), Seq::empty()),
                    ),
                };
                lemma_lookup_put(state.pending, id, pending, id);
            },
            None => {
                assert(step.effects[0] == EffectView::Send(response_envelope(id, no_answer())));
            },
        }
    } else {
        assert(step.effects[0] == EffectView::Send(response_envelope(id, rejection())));
    }
}

/// A request that cannot be shown to the user is called off: the agent gets an answer,
/// and nothing waits under its identifier. If nothing waited there before, the state is
/// as it was.
pub proof fn law_unshown_requests_are_called_off(
    id: Seq<char>,
    method: Seq<char>,
    params: JsonView,
    wording: WordingView,
    state: StateView,
    stderr: Seq<Seq<char>>,
    error: Seq<char>,
)
    ensures
        ({
            let message = WireMessageView::Request { id, method, params };
            let after = message_state(message, wording, state);
            message_step(message, wording, state, stderr).checked matches Some(checked) ==> {
                let effects = settled_effects(checked.followup, Some(error));
                let settled = settled_state(checked.followup, true, after);
                &&& effects.len() == 1
                &&& answers(effects[0], id)
                &&& lookup(settled.pending, id) is None
                &&& lookup(state.pending, id) is None ==> settled == state
            }
        }),
{
    let message = WireMessageView::Request { id, method, params };
    let after = message_state(message, wording, state);
    match message_step(message, wording, state, stderr).checked {
        Some(checked) => {
            let effects = settled_effects(checked.followup, Some(error));
            lemma_lookup_without(after.pending, id, id);
            if method == "droid.request_permission"@ {
                assert(effects[0] == EffectView::Send(response_envelope(id, rejection())));
                if lookup(state.pending, id) is None {
                    lemma_without_put(state.pending, id, PendingView::Approval { rpc_id: id });
                }
            } else {
                assert(effects[0] == EffectView::Send(response_envelope(id, no_answer())));
                if lookup(state.pending, id) is None {
                    let question = supported_question(params)->0;
                    let pending = PendingView::Question {
                        rpc_id: id,
                        answers: question_answers(
                            question.get_items("options"@),
                            text_or(question.get_str("question"@), Seq::empty()),
                        ),
                    };
                    lemma_without_put(state.pending, id, pending);
                }
            }
        },
        None => {},
    }
}

/// Cancelling calls off everything that waits for the user, each request once, and
/// leaves nothing waiting; what the user then chooses has no effect.
pub proof fn law_cancel_calls_everything_off(
    state: StateView,
    sequence: u64,
    later: u64,
    request_id: Seq<char>,
    option_id: Seq<char>,
)
    ensures
        command_step(CommandView::Cancel, state, sequence).effects.len() == state.pending.len(),
        forall|i: int|
            0 <= i < state.pending.len() ==> (#[trigger] command_step(
                CommandView::Cancel,
                state,
                sequence,
            ).effects[i]) == EffectView::Send(cancellation(state.pending[i].1)),
        command_state(CommandView::Cancel, state).pending.len() == 0,
        command_step(
            CommandView::Respond { request_id, option_id },
            command_state(CommandView::Cancel, state),
            later,
        ) == step_of(Seq::empty()),
{
}

/// A request takes one choice: a second one for the same request has no effect, and a
/// choice leaves the other requests waiting.
pub proof fn law_requests_take_one_choice(
    state: StateView,
    request_id: Seq<char>,
    first: Seq<char>,
    second: Seq<char>,
    other: Seq<char>,
    sequence: u64,
)
    ensures
        ({
            let after = command_state(
                CommandView::Respond { request_id, option_id: first },
                state,
            );
            &&& command_step(
                CommandView::Respond { request_id, option_id: second },
                after,
                sequence,
            ) == step_of(Seq::empty())
            &&& other != request_id ==> lookup(after.pending, other) == lookup(
                state.pending,
                other,
            )
        }),
{
    lemma_lookup_without(state.pending, request_id, request_id);
    lemma_lookup_without(state.pending, request_id, other);
}

/// Once the user was shown a permission request, whatever option they choose is what the
/// agent hears.
pub proof fn law_permission_choice_is_sent(
    id: Seq<char>,
    state: StateView,
    option_id: Seq<char>,
    sequence: u64,
)
    requires
        !state.auto_approve,
    ensures
        command_step(
            CommandView::Respond { request_id: id, option_id },
            permission_state(id, state),
            sequence,
        ) == step_of(
            seq![EffectView::Send(response_envelope(id, selection(option_id)))],
        ),
{
    lemma_lookup_put(state.pending, id, PendingView::Approval { rpc_id: id }, id);
}

/// Different answers have different identifiers.
proof fn lemma_answer_ids_differ(i: nat, j: nat)
    requires
        i != j,
    ensures
        answer_id(i) != answer_id(j),
{
    if answer_id(i) == answer_id(j) {
        let prefix = "answer-"@.len() as int;
        assert(answer_id(i).skip(prefix) =~= decimal(i));
        assert(answer_id(j).skip(prefix) =~= decimal(j));
        lemma_decimal_injective(i, j);
    }
}

/// Under the identifier of each text that a question offers stands the answer with that
/// text.
pub proof fn lemma_question_answers(entries: Seq<JsonView>, question: Seq<char>, i: int)
    requires
        0 <= i < entries.len(),
    ensures
        lookup(question_answers(entries, question), answer_id(i as nat)) == match entries[i].as_str() {
            Some(label) => Some(AnswerView { index: i as usize, question, answer: label }),
            None => None,
        },
    decreases entries.len(),
{
    let shorter = entries.drop_last();
    let last = (entries.len() - 1) as nat;
    let before = question_answers(shorter, question);
    if i < last {
        lemma_question_answers(shorter, question, i);
        lemma_answer_ids_differ(i as nat, last);
    } else {
        lemma_no_later_answers(shorter, question, last);
    }
    match entries.last().as_str() {
        Some(label) => {
            let answer = AnswerView { index: last as usize, question, answer: label };
            lemma_lookup_put(before, answer_id(last), answer, answer_id(i as nat));
        },
        None => {},
    }
}

/// There are no answers past the end of a question.
proof fn lemma_no_later_answers(entries: Seq<JsonView>, question: Seq<char>, n: nat)
    requires
        entries.len() <= n,
    ensures
        lookup(question_answers(entries, question), answer_id(n)) is None,
    decreases entries.len(),
{
    if entries.len() > 0 {
        let shorter = entries.drop_last();
        let last = (entries.len() - 1) as nat;
        lemma_no_later_answers(shorter, question, n);
        lemma_answer_ids_differ(n, last);
        match entries.last().as_str() {
            Some(label) => {
                let answer = AnswerView { index: last as usize, question, answer: label };
                lemma_lookup_put(
                    question_answers(shorter, question),
                    answer_id(last),
                    answer,
                    answer_id(n),
                );
            },
            None => {},
        }
    }
}

/// Each choice that a question shows stands for one of the texts it offers.
pub proof fn law_question_options_are_offered(entries: Seq<JsonView>, k: int)
    requires
        0 <= k < question_options(entries).len(),
    ensures
        exists|i: int|
            0 <= i < entries.len() && question_options(entries)[k].id == answer_id(i as nat)
                && (#[trigger] entries[i]).as_str() == Some(question_options(entries)[k].label),
    decreases entries.len(),
{
    let shorter = entries.drop_last();
    let before = question_options(shorter);
    if k < before.len() {
        law_question_options_are_offered(shorter, k);
        let i = choose|i: int|
            0 <= i < shorter.len() && before[k].id == answer_id(i as nat) && (
            #[trigger] shorter[i]).as_str() == Some(before[k].label);
        assert(entries[i] == shorter[i]);
    } else {
        assert(entries[entries.len() - 1] == entries.last());
    }
}

/// Once the user was shown a question, every choice shown can be made, and the agent
/// hears the position and the text of the answer together with the question.
pub proof fn law_question_choice_is_sent(
    id: Seq<char>,
    params: JsonView,
    state: StateView,
    k: int,
    sequence: u64,
)
    requires
        supported_question(params) is Some,
        0 <= k < question_options(supported_question(params)->0.get_items("options"@)).len(),
    ensures
        ({
            let question = supported_question(params)->0;
            let entries = question.get_items("options"@);
            let option = question_options(entries)[k];
            exists|i: int|
                #![trigger entries[i]]
                {
                    &&& 0 <= i < entries.len()
                    &&& entries[i].as_str() == Some(option.label)
                    &&& command_step(
                        CommandView::Respond { request_id: id, option_id: option.id },
                        question_state(id, params, state),
                        sequence,
                    ) == step_of(
                        seq![
                            EffectView::Send(
                                response_envelope(
                                    id,
                                    answered(
                                        AnswerView {
                                            index: i as usize,
                                            question: text_or(
                                                question.get_str("question"@),
                                                Seq::empty(),
                                            ),
                                            answer: option.label,
                                        },
                                    ),
                                ),
                            ),
                        ],
                    )
                }
        }),
{
    let question = supported_question(params)->0;
    let entries = question.get_items("options"@);
    let text = text_or(question.get_str("question"@), Seq::empty());
    let option = question_options(entries)[k];
    law_question_options_are_offered(entries, k);
    let i = choose|i: int|
        0 <= i < entries.len() && option.id == answer_id(i as nat) && (
        #[trigger] entries[i]).as_str() == Some(option.label);
    lemma_question_answers(entries, text, i);
    let pending = PendingView::Question { rpc_id: id, answers: question_answers(entries, text) };
    lemma_lookup_put(state.pending, id, pending, id);
    assert(entries[i].as_str() == Some(option.label));
}

} // verus!
