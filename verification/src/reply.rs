//! The results with which the driver answers requests of the agent.

use crate::json::{empty_object, Json, JsonNumber, JsonView};
use crate::stream::{Answer, AnswerView, PendingInteraction, PendingView};
use crate::wire::{respond, response_envelope};
use vstd::prelude::*;

verus! {

/// The result that picks an option of a permission request.
pub open spec fn selection(option_id: Seq<char>) -> JsonView {
    empty_object().with("selectedOption"@, JsonView::Str(option_id))
}

/// The result that rejects a permission request.
pub open spec fn rejection() -> JsonView {
    selection("cancel"@)
}

/// The result that declines to answer a question.
pub open spec fn no_answer() -> JsonView {
    empty_object().with("cancelled"@, JsonView::Bool(true)).with(
        "answers"@,
        JsonView::Array(Seq::empty()),
    )
}

/// An answer as the agent reads it.
pub open spec fn answer_entry(answer: AnswerView) -> JsonView {
    empty_object().with("index"@, JsonView::Number(JsonNumber::Unsigned(answer.index as u64))).with(
        "question"@,
        JsonView::Str(answer.question),
    ).with("answer"@, JsonView::Str(answer.answer))
}

/// The result that answers a question.
pub open spec fn answered(answer: AnswerView) -> JsonView {
    empty_object().with("cancelled"@, JsonView::Bool(false)).with(
        "answers"@,
        JsonView::Array(seq![answer_entry(answer)]),
    )
}

/// The message that calls off a request that waits for the user.
pub open spec fn cancellation(pending: PendingView) -> JsonView {
    match pending {
        PendingView::Approval { rpc_id } => response_envelope(rpc_id, rejection()),
        PendingView::Question { rpc_id, answers: _ } => response_envelope(rpc_id, no_answer()),
    }
}

/// Picks an option of a permission request.
pub fn select_option(option_id: &str) -> (result: Json)
    ensures
        result@ == selection(option_id@),
{
    Json::object().with("selectedOption", Json::text(option_id))
}

/// Rejects a permission request.
pub fn reject() -> (result: Json)
    ensures
        result@ == rejection(),
{
    select_option("cancel")
}

/// Declines to answer a question.
pub fn decline() -> (result: Json)
    ensures
        result@ == no_answer(),
{
    let answers: Vec<Json> = Vec::new();
    let answers = Json::Array(answers);
    assert(answers@->Array_0 =~= Seq::empty());
    Json::object().with("cancelled", Json::Bool(true)).with("answers", answers)
}

/// Answers a question.
pub fn give_answer(answer: &Answer) -> (result: Json)
    ensures
        result@ == answered(answer@),
{
    let entry = Json::object().with(
        "index",
        Json::Number(JsonNumber::Unsigned(answer.index as u64)),
    ).with("question", Json::text(&answer.question)).with("answer", Json::text(&answer.answer));
    let ghost meaning = entry@;
    let mut answers: Vec<Json> = Vec::new();
    answers.push(entry);
    let answers = Json::Array(answers);
    assert(answers@->Array_0 =~= seq![meaning]);
    Json::object().with("cancelled", Json::Bool(false)).with("answers", answers)
}

/// Calls off a request that waits for the user.
pub fn cancel_pending(pending: &PendingInteraction) -> (message: Json)
    ensures
        message@ == cancellation(pending@),
{
    match pending {
        PendingInteraction::Approval { rpc_id } => respond(rpc_id, reject()),
        PendingInteraction::Question { rpc_id, answers: _ } => respond(rpc_id, decline()),
    }
}

} // verus!
