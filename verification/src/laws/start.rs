//! What holds of the start of a session.

use crate::json::JsonView;
use crate::model::CursorView;
use crate::reply::{no_answer, rejection};
use crate::session::{
    begun, connected, leftover_answers, leftovers, load_params, planned, progressed,
    HandshakeEventView, HandshakeView, LaunchView, StartErrorView, StartOptionsView,
};
use crate::stream::{initial_state, EffectView};
use crate::wire::{response_envelope, WireMessageView};
use vstd::prelude::*;

verus! {

/// Resuming reconnects to the same session: with a cursor that names a session, that
/// session is loaded, and whatever the process answers it is the one reported.
pub proof fn law_resuming_keeps_the_session(options: StartOptionsView, response: JsonView)
    requires
        options.provider_cursor matches Some(CursorView::Droid { session_id })
            && session_id.len() > 0,
    ensures
        ({
            let session_id = options.provider_cursor->0->session_id;
            &&& planned(options) matches Ok(launch)
            &&& launch.method == "droid.load_session"@
            &&& launch.params == load_params(session_id)
            &&& begun(launch, response) matches Ok(started)
            &&& started.effects.last() == connected(session_id)
            &&& started.state == initial_state(launch.auto_approve)
        }),
{
}

/// The cursor that a new session reports resumes that very session, as long as the
/// process does not name it by an empty text.
pub proof fn law_reported_cursors_resume(
    options: StartOptionsView,
    response: JsonView,
    session_id: Seq<char>,
    again: StartOptionsView,
)
    requires
        options.provider_cursor is None,
        response.get_str("sessionId"@) == Some(session_id),
        session_id.len() > 0,
        again.provider_cursor == Some(CursorView::Droid { session_id }),
    ensures
        planned(options) matches Ok(launch) && begun(launch, response) matches Ok(started)
            && started.effects == seq![connected(session_id)],
        planned(again) matches Ok(launch) && launch.params == load_params(session_id),
{
}

/// A cursor that does not name a Factory session starts nothing.
pub proof fn law_foreign_cursors_are_refused(options: StartOptionsView)
    requires
        options.provider_cursor matches Some(cursor) && (cursor is Droid
            ==> cursor->session_id.len() == 0),
    ensures
        planned(options) == Err::<LaunchView, StartErrorView>(
            StartErrorView::ForeignCursor { provider: options.cursor_provider },
        ),
{
}

/// Each request in a list that has an identifier is answered.
proof fn lemma_leftover_answered(entries: Seq<JsonView>, result: JsonView, i: int)
    requires
        0 <= i < entries.len(),
        entries[i].get_str("requestId"@) is Some,
    ensures
        leftover_answers(entries, result).contains(
            EffectView::Send(response_envelope(entries[i].get_str("requestId"@)->0, result)),
        ),
    decreases entries.len(),
{
    let before = leftover_answers(entries.drop_last(), result);
    let all = leftover_answers(entries, result);
    let answer = EffectView::Send(
        response_envelope(entries[i].get_str("requestId"@)->0, result),
    );
    if i < entries.len() - 1 {
        lemma_leftover_answered(entries.drop_last(), result, i);
        let k = choose|k: int| 0 <= k < before.len() && before[k] == answer;
        assert(all[k] == answer);
    } else {
        assert(all[before.len() as int] == answer);
    }
}

/// Nothing that an earlier client left open keeps a resumed session waiting: every
/// permission request is rejected, and every question is declined.
pub proof fn law_leftovers_are_answered(response: JsonView, i: int, j: int)
    ensures
        ({
            let permissions = response.get_items("pendingPermissions"@);
            0 <= i < permissions.len() && permissions[i].get_str("requestId"@) is Some
                ==> leftovers(response).contains(
                EffectView::Send(
                    response_envelope(permissions[i].get_str("requestId"@)->0, rejection()),
                ),
            )
        }),
        ({
            let questions = response.get_items("pendingAskUserRequests"@);
            0 <= j < questions.len() && questions[j].get_str("requestId"@) is Some ==> leftovers(
                response,
            ).contains(
                EffectView::Send(
                    response_envelope(questions[j].get_str("requestId"@)->0, no_answer()),
                ),
            )
        }),
{
    let permissions = response.get_items("pendingPermissions"@);
    let questions = response.get_items("pendingAskUserRequests"@);
    let rejected = leftover_answers(permissions, rejection());
    let declined = leftover_answers(questions, no_answer());
    if 0 <= i < permissions.len() && permissions[i].get_str("requestId"@) is Some {
        lemma_leftover_answered(permissions, rejection(), i);
        let answer = EffectView::Send(
            response_envelope(permissions[i].get_str("requestId"@)->0, rejection()),
        );
        let k = choose|k: int| 0 <= k < rejected.len() && rejected[k] == answer;
        assert(leftovers(response)[k] == answer);
    }
    if 0 <= j < questions.len() && questions[j].get_str("requestId"@) is Some {
        lemma_leftover_answered(questions, no_answer(), j);
        let answer = EffectView::Send(
            response_envelope(questions[j].get_str("requestId"@)->0, no_answer()),
        );
        let k = choose|k: int| 0 <= k < declined.len() && declined[k] == answer;
        assert(leftovers(response)[rejected.len() + k] == answer);
    }
}

/// What comes of waiting for a response, given what happens in order: nothing while the
/// wait goes on.
pub open spec fn awaited(handshake: HandshakeView, events: Seq<HandshakeEventView>) -> Option<
    Result<JsonView, StartErrorView>,
>
    decreases events.len(),
{
    if events.len() == 0 {
        None
    } else {
        match progressed(handshake, events[0]) {
            Ok(None) => awaited(handshake, events.drop_first()),
            Ok(Some(result)) => Some(Ok(result)),
            Err(error) => Some(Err(error)),
        }
    }
}

/// An event that the wait for a response passes over.
pub open spec fn passed_over(handshake: HandshakeView, event: HandshakeEventView) -> bool {
    event matches HandshakeEventView::Message(message) && (message matches WireMessageView::Response {
        id,
        ..
    } ==> id != handshake.request_id)
}

/// Notifications, requests and responses to other requests do not matter to the wait for
/// a response: after any number of them, the first other event decides.
pub proof fn law_only_the_response_ends_the_handshake(
    handshake: HandshakeView,
    skipped: Seq<HandshakeEventView>,
    event: HandshakeEventView,
    rest: Seq<HandshakeEventView>,
)
    requires
        forall|i: int| 0 <= i < skipped.len() ==> passed_over(handshake, #[trigger] skipped[i]),
        !passed_over(handshake, event),
    ensures
        awaited(handshake, skipped) is None,
        awaited(handshake, skipped + seq![event] + rest) == match progressed(handshake, event) {
            Ok(Some(result)) => Some(Ok::<JsonView, StartErrorView>(result)),
            Ok(None) => None,
            Err(error) => Some(Err::<JsonView, StartErrorView>(error)),
        },
        progressed(handshake, event) != Ok::<Option<JsonView>, StartErrorView>(None),
    decreases skipped.len(),
{
    let events = skipped + seq![event] + rest;
    if skipped.len() == 0 {
        assert(events[0] == event);
    } else {
        let shorter = skipped.drop_first();
        assert(events[0] == skipped[0]);
        assert(events.drop_first() =~= shorter + seq![event] + rest);
        assert forall|i: int| 0 <= i < shorter.len() implies passed_over(
            handshake,
            #[trigger] shorter[i],
        ) by {
            assert(shorter[i] == skipped[i + 1]);
        }
        law_only_the_response_ends_the_handshake(handshake, shorter, event, rest);
    }
}

} // verus!
