//! Questions of the agent.

use crate::json::{Json, JsonView};
use crate::model::{
    DriverEvent, DriverEventView, PermissionOption, PermissionOptionView, Text, TextView,
};
use crate::permission::text_or;
use crate::reply::{decline, no_answer};
use crate::stream::{
    step_checking, step_of, two, Answer, AnswerView, CheckedView, Effect, EffectView, Followup,
    FollowupView, PendingInteraction, PendingView, StateView, Step, StepView, StreamState,
};
use crate::table::{put, Table};
use crate::text::{decimal, decimal_text, joined, trim, trimmed};
use crate::views::{lemma_views_push, views};
use crate::wire::{respond, response_envelope};
use vstd::prelude::*;

verus! {

/// The one question that a request asks, where the driver can put it to the user: it is
/// the only one, takes one answer, and offers some.
pub open spec fn supported_question(params: JsonView) -> Option<JsonView> {
    match params.get("questions"@) {
        Some(JsonView::Array(questions)) => if questions.len() == 1 && !several_answers(
            questions[0],
        ) && questions[0].get_items("options"@).len() > 0 {
            Some(questions[0])
        } else {
            None
        },
        _ => None,
    }
}

/// Whether a question takes several answers.
pub open spec fn several_answers(question: JsonView) -> bool {
    match question.get("multiSelect"@) {
        Some(several) => several.as_bool() == Some(true),
        None => false,
    }
}

/// The one question that a request asks, where the driver can put it to the user.
fn read_question(params: &Json) -> (question: Option<&Json>)
    ensures
        match question {
            Some(question) => supported_question(params@) == Some(question@),
            None => supported_question(params@) is None,
        },
{
    let questions = match params.get("questions") {
        Some(value) => match value.as_array() {
            Some(questions) => questions,
            None => {
                return None;
            },
        },
        None => {
            return None;
        },
    };
    if questions.len() != 1 {
        return None;
    }
    let question = &questions[0];
    assert(question@ == views(*questions)[0]);
    match question.get("multiSelect") {
        Some(several) => match several.as_bool() {
            Some(true) => {
                return None;
            },
            _ => {},
        },
        None => {},
    }
    match question.get("options") {
        Some(value) => match value.as_array() {
            Some(options) => {
                if options.len() > 0 {
                    Some(question)
                } else {
                    None
                }
            },
            None => None,
        },
        None => None,
    }
}

/// The identifier of the answer at a position.
pub open spec fn answer_id(index: nat) -> Seq<char> {
    "answer-"@ + decimal(index)
}

/// The choices that a question offers. What is not a text is no choice, and still counts
/// in the numbering.
pub open spec fn question_options(entries: Seq<JsonView>) -> Seq<PermissionOptionView>
    decreases entries.len(),
{
    if entries.len() == 0 {
        Seq::empty()
    } else {
        let before = question_options(entries.drop_last());
        match entries.last().as_str() {
            Some(label) => before.push(
                PermissionOptionView {
                    id: answer_id((entries.len() - 1) as nat),
                    label,
                    allow: false,
                },
            ),
            None => before,
        }
    }
}

/// The answers that go with the choices of a question.
pub open spec fn question_answers(entries: Seq<JsonView>, question: Seq<char>) -> Seq<
    (Seq<char>, AnswerView),
>
    decreases entries.len(),
{
    if entries.len() == 0 {
        Seq::empty()
    } else {
        let before = question_answers(entries.drop_last(), question);
        match entries.last().as_str() {
            Some(label) => put(
                before,
                answer_id((entries.len() - 1) as nat),
                AnswerView { index: (entries.len() - 1) as usize, question, answer: label },
            ),
            None => before,
        }
    }
}

/// The choices that a question offers, with the answers that go with them.
fn read_choices(question: &Json, text: &str) -> (choices: (Vec<PermissionOption>, Table<Answer>))
    ensures
        views(choices.0) == question_options(question@.get_items("options"@)),
        choices.1@ == question_answers(question@.get_items("options"@), text@),
{
    let mut options: Vec<PermissionOption> = Vec::new();
    let mut answers: Table<Answer> = Table::new();
    assert(views(options) =~= Seq::empty());
    let entries = match question.get("options") {
        Some(value) => match value.as_array() {
            Some(entries) => entries,
            None => {
                return (options, answers);
            },
        },
        None => {
            return (options, answers);
        },
    };
    let ghost all = question@.get_items("options"@);
    assert(all == views(*entries));
    let mut i: usize = 0;
    assert(all.take(0) =~= Seq::empty());
    while i < entries.len()
        invariant
            i <= entries.len(),
            all == views(*entries),
            views(options) == question_options(all.take(i as int)),
            answers@ == question_answers(all.take(i as int), text@),
        decreases entries.len() - i,
    {
        assert(all.take(i + 1).drop_last() =~= all.take(i as int));
        assert(all.take(i + 1).last() == entries@[i as int]@);
        match entries[i].as_str() {
            Some(label) => {
                let option_id = joined("answer-", &decimal_text(i as u64));
                let answer = Answer {
                    index: i,
                    question: text.to_owned(),
                    answer: label.to_owned(),
                };
                answers.insert(option_id.clone(), answer);
                let option = PermissionOption {
                    id: option_id,
                    label: label.to_owned(),
                    allow: false,
                };
                let ghost before = options;
                options.push(option);
                proof {
                    lemma_views_push(before, options, option);
                }
            },
            None => {},
        }
        i = i + 1;
    }
    assert(all.take(i as int) =~= all);
    (options, answers)
}

/// The title under which a question is shown.
pub open spec fn question_title(question: JsonView) -> Seq<char> {
    match question.get_str("topic"@) {
        Some(topic) => if trimmed(topic).len() > 0 {
            topic
        } else {
            "Droid question"@
        },
        None => "Droid question"@,
    }
}

/// What the driver says of questions that it cannot put to the user.
pub open spec fn unsupported_questions() -> DriverEventView {
    DriverEventView::Error("Waku currently supports one single-select Droid question at a time"@)
}

/// What the driver asks for after a request that asks questions.
pub open spec fn question_step(id: Seq<char>, params: JsonView) -> StepView {
    match supported_question(params) {
        Some(question) => step_checking(
            Seq::empty(),
            CheckedView {
                effect: EffectView::Emit(
                    DriverEventView::Permission {
                        request_id: id,
                        title: question_title(question),
                        detail: TextView::Plain(
                            text_or(question.get_str("question"@), Seq::empty()),
                        ),
                        options: question_options(question.get_items("options"@)),
                    },
                ),
                followup: FollowupView::Question { request_id: id },
            },
        ),
        None => step_of(
            seq![
                EffectView::Send(response_envelope(id, no_answer())),
                EffectView::Emit(unsupported_questions()),
            ],
        ),
    }
}

/// The state after a request that asks questions.
pub open spec fn question_state(id: Seq<char>, params: JsonView, state: StateView) -> StateView {
    match supported_question(params) {
        Some(question) => StateView {
            pending: put(
                state.pending,
                id,
                PendingView::Question {
                    rpc_id: id,
                    answers: question_answers(
                        question.get_items("options"@),
                        text_or(question.get_str("question"@), Seq::empty()),
                    ),
                },
            ),
            ..state
        },
        None => state,
    }
}

/// Takes in a request that asks questions. They are answered from the same surface as
/// permission requests: one single-select question at a time.
pub fn handle_ask_user(id: &str, params: &Json, state: &mut StreamState) -> (step: Step)
    ensures
        step@ == question_step(id@, params@),
        final(state)@ == question_state(id@, params@, old(state)@),
{
    let question = match read_question(params) {
        Some(question) => question,
        None => {
            return Step::of(
                two(
                    Effect::Send(respond(id, decline())),
                    Effect::Emit(
                        DriverEvent::Error(
                            "Waku currently supports one single-select Droid question at a time".to_owned(),
                        ),
                    ),
                ),
            );
        },
    };
    let text = match question.get_string("question") {
        Some(text) => text,
        None => String::new(),
    };
    let (options, answers) = read_choices(question, &text);
    state.pending.insert(
        id.to_owned(),
        PendingInteraction::Question { rpc_id: id.to_owned(), answers },
    );
    let title = match question.get_string("topic") {
        Some(topic) => if trim(&topic).is_empty() {
            "Droid question".to_owned()
        } else {
            topic
        },
        None => "Droid question".to_owned(),
    };
    let effects: Vec<Effect> = Vec::new();
    assert(views(effects) =~= Seq::empty());
    Step::checking(
        effects,
        Effect::Emit(
            DriverEvent::Permission {
                request_id: id.to_owned(),
                title,
                detail: Text::Plain(text),
                options,
            },
        ),
        Followup::Question { request_id: id.to_owned() },
    )
}

} // verus!
