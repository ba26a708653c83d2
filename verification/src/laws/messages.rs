//! What the lines of the process hold, and what responses and its exit come to.

use crate::json::JsonView;
use crate::message::{message_state, message_step};
use crate::model::DriverEventView;
use crate::permission::WordingView;
use crate::stderr::exit_message;
use crate::stream::{EffectView, StateView, StepView};
use crate::wire::{classified, WireMessageView};
use vstd::prelude::*;

verus! {

/// The types of envelope differ.
proof fn lemma_types()
    ensures
        "response"@ != "request"@,
        "response"@ != "notification"@,
        "request"@ != "notification"@,
{
    reveal_strlit("response");
    reveal_strlit("request");
    reveal_strlit("notification");
    assert("response"@.len() == 8);
    assert("request"@.len() == 7);
    assert("notification"@.len() == 12);
}

/// A response is what has that type and a text as its identifier. It carries its result
/// as it stands, and of its error the message.
pub proof fn law_responses_are_recognised(value: JsonView, id: Seq<char>)
    requires
        value.get("type"@) == Some(JsonView::Str("response"@)),
    ensures
        value.get("id"@) == Some(JsonView::Str(id)) ==> {
            &&& classified(value) matches Some(WireMessageView::Response { id: read, result, error })
            &&& read == id
            &&& result == value.get("result"@)
            &&& forall|message: Seq<char>|
                error == Some(message) <==> (value.get("error"@) matches Some(carried)
                    && carried.get("message"@) == Some(JsonView::Str(message)))
        },
        !(value.get("id"@) matches Some(JsonView::Str(_))) ==> classified(value) is None,
{
    lemma_types();
}

/// A request is what has that type and texts as its identifier and its method. Its
/// parameters are as they stand, and `null` where there are none.
pub proof fn law_requests_are_recognised(value: JsonView, id: Seq<char>, method: Seq<char>)
    requires
        value.get("type"@) == Some(JsonView::Str("request"@)),
    ensures
        value.get("id"@) == Some(JsonView::Str(id)) && value.get("method"@) == Some(
            JsonView::Str(method),
        ) ==> {
            &&& classified(value) matches Some(
                WireMessageView::Request { id: read, method: named, params },
            )
            &&& read == id
            &&& named == method
            &&& value.get("params"@) is Some ==> value.get("params"@) == Some(params)
            &&& value.get("params"@) is None ==> params == JsonView::Null
        },
        !(value.get("id"@) matches Some(JsonView::Str(_))) ==> classified(value) is None,
        !(value.get("method"@) matches Some(JsonView::Str(_))) ==> classified(value) is None,
{
    lemma_types();
}

/// A notification is what has that type and a text as its method. Its parameters are as
/// they stand, and `null` where there are none.
pub proof fn law_notifications_are_recognised(value: JsonView, method: Seq<char>)
    requires
        value.get("type"@) == Some(JsonView::Str("notification"@)),
    ensures
        value.get("method"@) == Some(JsonView::Str(method)) ==> {
            &&& classified(value) matches Some(
                WireMessageView::Notification { method: named, params },
            )
            &&& named == method
            &&& value.get("params"@) is Some ==> value.get("params"@) == Some(params)
            &&& value.get("params"@) is None ==> params == JsonView::Null
        },
        !(value.get("method"@) matches Some(JsonView::Str(_))) ==> classified(value) is None,
{
    lemma_types();
}

/// What has another type, or none, is no message.
pub proof fn law_nothing_else_is_a_message(value: JsonView)
    requires
        value.get("type"@) != Some(JsonView::Str("response"@)),
        value.get("type"@) != Some(JsonView::Str("request"@)),
        value.get("type"@) != Some(JsonView::Str("notification"@)),
    ensures
        classified(value) is None,
{
}

/// A response tells the user of its error where it has one, and does nothing more.
pub proof fn law_failed_requests_are_told(
    id: Seq<char>,
    result: Option<JsonView>,
    error: Option<Seq<char>>,
    wording: WordingView,
    state: StateView,
    stderr: Seq<Seq<char>>,
)
    ensures
        ({
            let message = WireMessageView::Response { id, result, error };
            &&& message_state(message, wording, state) == state
            &&& message_step(message, wording, state, stderr) == (StepView {
                effects: match error {
                    Some(error) => seq![
                        EffectView::Emit(DriverEventView::Error("Droid: "@ + error)),
                    ],
                    None => Seq::empty(),
                },
                checked: None,
                running: true,
            })
        }),
{
}

/// The exit of the process is told with the end of what it wrote, and ends the session.
pub proof fn law_the_exit_is_told(
    wording: WordingView,
    state: StateView,
    stderr: Seq<Seq<char>>,
)
    ensures
        message_state(WireMessageView::Exited, wording, state) == state,
        message_step(WireMessageView::Exited, wording, state, stderr) == (StepView {
            effects: seq![
                EffectView::Emit(DriverEventView::Error(exit_message(stderr))),
                EffectView::Emit(DriverEventView::ProcessExited),
            ],
            checked: None,
            running: false,
        }),
{
}

} // verus!
