//! What holds of a session from its start, whatever happens in it.

use crate::command::{
    command_state, command_step, settled_effects, settled_state, unavailable_answer, CommandView,
};
use crate::json::JsonView;
use crate::laws::envelopes::law_response_reads_back;
use crate::laws::requests::answers;
use crate::laws::tables::{
    law_answers_have_distinct_keys, law_put_keeps_keys_distinct, law_without_keeps_keys_distinct,
    lemma_put_entries, lemma_without_entries,
};
use crate::laws::turns::{ends_turn, law_messages_end_turns_openly};
use crate::message::{message_state, message_step, reported};
use crate::model::DriverEventView;
use crate::notification::{
    activity_state, activity_title, bare_tool_use, lemma_kinds, notification_effects,
    notification_state,
};
use crate::permission::{text_or, tool_name, WordingView};
use crate::question::{question_answers, supported_question};
use crate::reply::{answered, cancellation, no_answer, rejection, selection};
use crate::stream::{
    initial_state, step_of, EffectView, FollowupView, PendingView, StateView, ToolRecordView,
};
use crate::table::{
    keys_differ, lemma_lookup_put, lemma_lookup_without, lemma_without_absent, lookup, put,
    without,
};
use crate::wire::{response_envelope, WireMessageView};
use vstd::prelude::*;

verus! {

/// Something that happens in a session.
pub enum Happening {
    /// The application gives a command, where the next request has a certain number.
    Command { command: CommandView, sequence: u64 },
    /// The driver hears of the outcome of an effect.
    Outcome { followup: FollowupView, failure: Option<Seq<char>> },
    /// A message comes from the process.
    Message { message: WireMessageView, wording: WordingView, stderr: Seq<Seq<char>> },
}

/// The state after something happened.
pub open spec fn state_after(state: StateView, happening: Happening) -> StateView {
    match happening {
        Happening::Command { command, sequence: _ } => command_state(command, state),
        Happening::Outcome { followup, failure } => settled_state(
            followup,
            failure is Some,
            state,
        ),
        Happening::Message { message, wording, stderr: _ } => message_state(
            message,
            wording,
            state,
        ),
    }
}

/// What the driver asks for when something happens.
pub open spec fn effects_of(state: StateView, happening: Happening) -> Seq<EffectView> {
    match happening {
        Happening::Command { command, sequence } => command_step(command, state, sequence).effects,
        Happening::Outcome { followup, failure } => settled_effects(followup, failure),
        Happening::Message { message, wording, stderr } => message_step(
            message,
            wording,
            state,
            stderr,
        ).effects,
    }
}

/// The state after everything in `run` happened, from the state `start` on.
pub open spec fn after_all(start: StateView, run: Seq<Happening>) -> StateView
    decreases run.len(),
{
    if run.len() == 0 {
        start
    } else {
        state_after(after_all(start, run.drop_last()), run.last())
    }
}

/// The state of a session after everything in `run` happened to it.
pub open spec fn session_after(auto_approve: bool, run: Seq<Happening>) -> StateView {
    after_all(initial_state(auto_approve), run)
}

/// The request that waits for the user.
pub open spec fn waiting_request(pending: PendingView) -> Seq<char> {
    match pending {
        PendingView::Approval { rpc_id } => rpc_id,
        PendingView::Question { rpc_id, answers: _ } => rpc_id,
    }
}

/// A request waits under its own identifier, and the answers it takes have different
/// ones.
pub open spec fn waits_orderly(key: Seq<char>, pending: PendingView) -> bool {
    &&& waiting_request(pending) == key
    &&& pending matches PendingView::Question { rpc_id: _, answers } ==> keys_differ(answers)
}

/// Every request waits under its own identifier, and no two under the same one.
pub open spec fn orderly(pending: Seq<(Seq<char>, PendingView)>) -> bool {
    &&& keys_differ(pending)
    &&& forall|i: int|
        0 <= i < pending.len() ==> waits_orderly((#[trigger] pending[i]).0, pending[i].1)
}

/// Putting a request under its own identifier keeps order.
proof fn lemma_put_orderly(
    pending: Seq<(Seq<char>, PendingView)>,
    key: Seq<char>,
    value: PendingView,
)
    requires
        orderly(pending),
        waits_orderly(key, value),
    ensures
        orderly(put(pending, key, value)),
{
    let after = put(pending, key, value);
    law_put_keeps_keys_distinct(pending, key, value);
    assert forall|i: int| 0 <= i < after.len() implies waits_orderly(
        (#[trigger] after[i]).0,
        after[i].1,
    ) by {
        lemma_put_entries(pending, key, value, i);
    }
}

/// Removing an identifier keeps order.
proof fn lemma_without_orderly(pending: Seq<(Seq<char>, PendingView)>, key: Seq<char>)
    requires
        orderly(pending),
    ensures
        orderly(without(pending, key)),
{
    let after = without(pending, key);
    law_without_keeps_keys_distinct(pending, key);
    assert forall|i: int| 0 <= i < after.len() implies waits_orderly(
        (#[trigger] after[i]).0,
        after[i].1,
    ) by {
        lemma_without_entries(pending, key, i);
    }
}

/// Whatever happens, requests keep waiting in order.
proof fn lemma_happenings_keep_order(state: StateView, happening: Happening)
    requires
        orderly(state.pending),
    ensures
        orderly(state_after(state, happening).pending),
{
    match happening {
        Happening::Command { command, sequence: _ } => match command {
            CommandView::Respond { request_id, option_id: _ } => lemma_without_orderly(
                state.pending,
                request_id,
            ),
            _ => {},
        },
        Happening::Outcome { followup, failure: _ } => match followup {
            FollowupView::Approval { request_id } => lemma_without_orderly(
                state.pending,
                request_id,
            ),
            FollowupView::Question { request_id } => lemma_without_orderly(
                state.pending,
                request_id,
            ),
            _ => {},
        },
        Happening::Message { message, wording: _, stderr: _ } => match message {
            WireMessageView::Request { id, method: _, params } => {
                lemma_put_orderly(state.pending, id, PendingView::Approval { rpc_id: id });
                match supported_question(params) {
                    Some(question) => {
                        let entries = question.get_items("options"@);
                        let text = text_or(question.get_str("question"@), Seq::empty());
                        law_answers_have_distinct_keys(entries, text);
                        lemma_put_orderly(
                            state.pending,
                            id,
                            PendingView::Question {
                                rpc_id: id,
                                answers: question_answers(entries, text),
                            },
                        );
                    },
                    None => {},
                }
            },
            _ => {},
        },
    }
}

/// At every point of a session each request that waits for the user waits once, under
/// its own identifier, and if it is a question, no answer stands twice under one
/// identifier.
pub proof fn law_requests_wait_once(auto_approve: bool, run: Seq<Happening>)
    ensures
        orderly(session_after(auto_approve, run).pending),
    decreases run.len(),
{
    if run.len() > 0 {
        law_requests_wait_once(auto_approve, run.drop_last());
        lemma_happenings_keep_order(session_after(auto_approve, run.drop_last()), run.last());
    }
}

/// The tool use that a message reports: that of a call, or the one that a result belongs
/// to. The flag says whether the tool is done.
pub open spec fn tool_report(message: WireMessageView) -> Option<(JsonView, bool)> {
    match reported(message) {
        Some(notification) => if notification.get_str("type"@) == Some("tool_call"@) {
            match notification.get("toolUse"@) {
                Some(tool_use) => Some((tool_use, false)),
                None => None,
            }
        } else if notification.get_str("type"@) == Some("tool_result"@) {
            match notification.get_str("toolUseId"@) {
                Some(id) => Some((bare_tool_use(id), true)),
                None => None,
            }
        } else {
            None
        },
        None => None,
    }
}

/// A message reports of the tool `id`.
pub open spec fn concerns_tool(happening: Happening, id: Seq<char>) -> bool {
    happening matches Happening::Message { message, wording: _, stderr: _ } && tool_report(
        message,
    ) matches Some(report) && report.0.get_str("id"@) == Some(id)
}

/// The tools at work change only with what is reported of them.
proof fn lemma_tools_after(state: StateView, happening: Happening)
    ensures
        match happening {
            Happening::Message { message, wording, stderr: _ } => match tool_report(message) {
                Some(report) => state_after(state, happening) == activity_state(
                    report.0,
                    report.1,
                    wording.title,
                    state,
                ),
                None => state_after(state, happening).tools == state.tools,
            },
            _ => state_after(state, happening).tools == state.tools,
        },
{
    lemma_kinds();
}

/// At every point of a session each tool at work is remembered once.
pub proof fn law_tools_are_remembered_once(auto_approve: bool, run: Seq<Happening>)
    ensures
        keys_differ(session_after(auto_approve, run).tools),
    decreases run.len(),
{
    if run.len() > 0 {
        law_tools_are_remembered_once(auto_approve, run.drop_last());
        let before = session_after(auto_approve, run.drop_last());
        lemma_tools_after(before, run.last());
        match run.last() {
            Happening::Message { message, wording, stderr: _ } => match tool_report(message) {
                Some((tool_use, _)) => match tool_use.get_str("id"@) {
                    Some(id) => {
                        let record = ToolRecordView {
                            tool_name: tool_name(Some(tool_use)),
                            title: activity_title(tool_use, wording.title, before),
                        };
                        law_put_keeps_keys_distinct(before.tools, id, record);
                        law_without_keeps_keys_distinct(before.tools, id);
                    },
                    None => {},
                },
                None => {},
            },
            _ => {},
        }
    }
}

/// What is remembered of a tool does not change while nothing concerns it.
proof fn lemma_tool_untouched(state: StateView, run: Seq<Happening>, id: Seq<char>)
    requires
        forall|k: int| 0 <= k < run.len() ==> !concerns_tool(#[trigger] run[k], id),
    ensures
        lookup(after_all(state, run).tools, id) == lookup(state.tools, id),
    decreases run.len(),
{
    if run.len() > 0 {
        let shorter = run.drop_last();
        let happening = run.last();
        assert(happening == run[run.len() - 1]);
        assert forall|k: int| 0 <= k < shorter.len() implies !concerns_tool(
            #[trigger] shorter[k],
            id,
        ) by {
            assert(shorter[k] == run[k]);
        }
        lemma_tool_untouched(state, shorter, id);
        let before = after_all(state, shorter);
        lemma_tools_after(before, happening);
        match happening {
            Happening::Message { message, wording, stderr: _ } => match tool_report(message) {
                Some((tool_use, _)) => match tool_use.get_str("id"@) {
                    Some(other) => {
                        let record = ToolRecordView {
                            tool_name: tool_name(Some(tool_use)),
                            title: activity_title(tool_use, wording.title, before),
                        };
                        lemma_lookup_put(before.tools, other, record, id);
                        lemma_lookup_without(before.tools, other, id);
                    },
                    None => {},
                },
                None => {},
            },
            _ => {},
        }
    }
}

/// A tool keeps its title: whatever happens between a tool call and its result that does
/// not concern that tool, the result is shown under the title of the call, unless the
/// application words a new one, and the tool is then forgotten.
pub proof fn law_tool_results_keep_the_title(
    call: JsonView,
    between: Seq<Happening>,
    result: JsonView,
    tool_use: JsonView,
    id: Seq<char>,
    wording: WordingView,
    later: WordingView,
    state: StateView,
)
    requires
        call.get_str("type"@) == Some("tool_call"@),
        call.get("toolUse"@) == Some(tool_use),
        tool_use.get_str("id"@) == Some(id),
        forall|k: int| 0 <= k < between.len() ==> !concerns_tool(#[trigger] between[k], id),
        result.get_str("type"@) == Some("tool_result"@),
        result.get_str("toolUseId"@) == Some(id),
        later.title is None,
    ensures
        ({
            let title = activity_title(tool_use, wording.title, state);
            let during = after_all(notification_state(call, wording, state), between);
            let after = notification_state(result, later, during);
            let shown = notification_effects(call, wording, state);
            let done = notification_effects(result, later, during);
            &&& shown.len() == 1
            &&& shown[0] matches EffectView::Emit(DriverEventView::RichActivity(started))
            &&& started.id == Some(id)
            &&& started.title == title
            &&& !started.complete
            &&& done.len() == 1
            &&& done[0] matches EffectView::Emit(DriverEventView::RichActivity(finished))
            &&& finished.id == Some(id)
            &&& finished.title == title
            &&& finished.output == result.get("content"@)
            &&& finished.complete
            &&& lookup(after.tools, id) is None
        }),
{
    lemma_kinds();
    let record = ToolRecordView {
        tool_name: tool_name(Some(tool_use)),
        title: activity_title(tool_use, wording.title, state),
    };
    let called = notification_state(call, wording, state);
    let during = after_all(called, between);
    lemma_lookup_put(state.tools, id, record, id);
    lemma_tool_untouched(called, between, id);
    assert(bare_tool_use(id).get_str("id"@) == Some(id));
    lemma_lookup_without(during.tools, id, id);
}

/// The agent makes the request `id`.
pub open spec fn asks(happening: Happening, id: Seq<char>) -> bool {
    happening matches Happening::Message { message, wording: _, stderr: _ }
        && message matches WireMessageView::Request { id: asked, method: _, params: _ } && asked
        == id
}

/// The request `id` waits no longer: the user chose, everything was called off, or it
/// could not be shown.
pub open spec fn ends_wait(happening: Happening, id: Seq<char>) -> bool {
    match happening {
        Happening::Command { command, sequence: _ } => match command {
            CommandView::Respond { request_id, option_id: _ } => request_id == id,
            CommandView::Cancel => true,
            _ => false,
        },
        Happening::Outcome { followup, failure } => match followup {
            FollowupView::Approval { request_id } => request_id == id && failure is Some,
            FollowupView::Question { request_id } => request_id == id && failure is Some,
            _ => false,
        },
        Happening::Message { .. } => false,
    }
}

/// A request that does not wait does not wait until it is made.
proof fn lemma_stays_settled(state: StateView, run: Seq<Happening>, id: Seq<char>)
    requires
        lookup(state.pending, id) is None,
        forall|k: int| 0 <= k < run.len() ==> !asks(#[trigger] run[k], id),
    ensures
        lookup(after_all(state, run).pending, id) is None,
    decreases run.len(),
{
    if run.len() > 0 {
        let shorter = run.drop_last();
        let happening = run.last();
        assert(happening == run[run.len() - 1]);
        assert forall|k: int| 0 <= k < shorter.len() implies !asks(#[trigger] shorter[k], id) by {
            assert(shorter[k] == run[k]);
        }
        lemma_stays_settled(state, shorter, id);
        let pending = after_all(state, shorter).pending;
        match happening {
            Happening::Command { command, sequence: _ } => match command {
                CommandView::Respond { request_id, option_id: _ } => lemma_lookup_without(
                    pending,
                    request_id,
                    id,
                ),
                _ => {},
            },
            Happening::Outcome { followup, failure: _ } => match followup {
                FollowupView::Approval { request_id } => lemma_lookup_without(
                    pending,
                    request_id,
                    id,
                ),
                FollowupView::Question { request_id } => lemma_lookup_without(
                    pending,
                    request_id,
                    id,
                ),
                _ => {},
            },
            Happening::Message { message, wording: _, stderr: _ } => match message {
                WireMessageView::Request { id: asked, method: _, params } => {
                    lemma_lookup_put(pending, asked, PendingView::Approval { rpc_id: asked }, id);
                    match supported_question(params) {
                        Some(question) => {
                            let answers = question_answers(
                                question.get_items("options"@),
                                text_or(question.get_str("question"@), Seq::empty()),
                            );
                            let value = PendingView::Question { rpc_id: asked, answers };
                            lemma_lookup_put(pending, asked, value, id);
                        },
                        None => {},
                    }
                },
                _ => {},
            },
        }
    }
}

/// A choice for the request `id` has no effect: nothing is asked for, and the state stays
/// as it is.
pub open spec fn choice_has_no_effect(
    state: StateView,
    id: Seq<char>,
    option_id: Seq<char>,
    sequence: u64,
) -> bool {
    let choice = CommandView::Respond { request_id: id, option_id };
    &&& command_step(choice, state, sequence) == step_of(Seq::empty())
    &&& command_state(choice, state) == state
}

/// Once a request was answered or called off, choices for it have no effect until the
/// agent makes it again, whatever else happens.
pub proof fn law_settled_requests_take_no_choice(
    state: StateView,
    end: Happening,
    between: Seq<Happening>,
    id: Seq<char>,
    option_id: Seq<char>,
    sequence: u64,
)
    requires
        ends_wait(end, id),
        forall|k: int| 0 <= k < between.len() ==> !asks(#[trigger] between[k], id),
    ensures
        choice_has_no_effect(
            after_all(state_after(state, end), between),
            id,
            option_id,
            sequence,
        ),
{
    lemma_lookup_without(state.pending, id, id);
    lemma_stays_settled(state_after(state, end), between, id);
    lemma_without_absent(after_all(state_after(state, end), between).pending, id);
}

/// Choices for a request that the agent has not made in a session have no effect.
pub proof fn law_unknown_requests_take_no_choice(
    auto_approve: bool,
    run: Seq<Happening>,
    id: Seq<char>,
    option_id: Seq<char>,
    sequence: u64,
)
    requires
        forall|k: int| 0 <= k < run.len() ==> !asks(#[trigger] run[k], id),
    ensures
        choice_has_no_effect(session_after(auto_approve, run), id, option_id, sequence),
{
    lemma_stays_settled(initial_state(auto_approve), run, id);
    lemma_without_absent(session_after(auto_approve, run).pending, id);
}

/// A response names the request that it answers.
proof fn lemma_answers_one(id: Seq<char>, other: Seq<char>, result: JsonView)
    requires
        answers(EffectView::Send(response_envelope(id, result)), other),
    ensures
        id == other,
{
    let meant = choose|meant: JsonView|
        EffectView::Send(response_envelope(id, result)) == EffectView::Send(
            #[trigger] response_envelope(other, meant),
        );
    law_response_reads_back(id, result);
    law_response_reads_back(other, meant);
}

/// Cancelling answers each request that waits for the user exactly once, at any point of
/// a session.
pub proof fn law_cancel_answers_each_once(
    auto_approve: bool,
    run: Seq<Happening>,
    sequence: u64,
    i: int,
    j: int,
)
    requires
        0 <= i < session_after(auto_approve, run).pending.len(),
        0 <= j < session_after(auto_approve, run).pending.len(),
    ensures
        ({
            let state = session_after(auto_approve, run);
            let effects = command_step(CommandView::Cancel, state, sequence).effects;
            answers(effects[j], state.pending[i].0) <==> i == j
        }),
{
    law_requests_wait_once(auto_approve, run);
    let state = session_after(auto_approve, run);
    let effects = command_step(CommandView::Cancel, state, sequence).effects;
    let id = state.pending[j].0;
    assert(effects[j] == EffectView::Send(cancellation(state.pending[j].1)));
    let result = match state.pending[j].1 {
        PendingView::Approval { .. } => rejection(),
        PendingView::Question { .. } => no_answer(),
    };
    assert(effects[j] == EffectView::Send(response_envelope(id, result)));
    if answers(effects[j], state.pending[i].0) {
        lemma_answers_one(id, state.pending[i].0, result);
    }
    if i < j {
        assert(state.pending[i].0 != state.pending[j].0);
    } else if j < i {
        assert(state.pending[j].0 != state.pending[i].0);
    }
}

/// What waits under an identifier is found there, at some place.
proof fn lemma_lookup_place(pending: Seq<(Seq<char>, PendingView)>, key: Seq<char>)
    requires
        lookup(pending, key) is Some,
    ensures
        exists|i: int|
            0 <= i < pending.len() && (#[trigger] pending[i]).0 == key && pending[i].1 == lookup(
                pending,
                key,
            )->0,
    decreases pending.len(),
{
    if pending[0].0 != key {
        let rest = pending.drop_first();
        lemma_lookup_place(rest, key);
        let i = choose|i: int|
            0 <= i < rest.len() && (#[trigger] rest[i]).0 == key && rest[i].1 == lookup(
                rest,
                key,
            )->0;
        assert(pending[i + 1] == rest[i]);
    }
}

/// The user's choice answers the request it is for, at any point of a session, unless
/// the request is a question that does not have that answer: then the user is told so.
pub proof fn law_choices_answer(
    auto_approve: bool,
    run: Seq<Happening>,
    request_id: Seq<char>,
    option_id: Seq<char>,
    sequence: u64,
)
    requires
        lookup(session_after(auto_approve, run).pending, request_id) is Some,
    ensures
        ({
            let state = session_after(auto_approve, run);
            let step = command_step(
                CommandView::Respond { request_id, option_id },
                state,
                sequence,
            );
            &&& step.effects.len() == 1
            &&& step.checked is None
            &&& match lookup(state.pending, request_id)->0 {
                PendingView::Question { rpc_id: _, answers: known } => if lookup(
                    known,
                    option_id,
                ) is Some {
                    answers(step.effects[0], request_id)
                } else {
                    step.effects[0] == EffectView::Emit(unavailable_answer())
                },
                PendingView::Approval { rpc_id: _ } => answers(step.effects[0], request_id),
            }
        }),
{
    law_requests_wait_once(auto_approve, run);
    let state = session_after(auto_approve, run);
    lemma_lookup_place(state.pending, request_id);
    let step = command_step(CommandView::Respond { request_id, option_id }, state, sequence);
    match lookup(state.pending, request_id)->0 {
        PendingView::Approval { rpc_id } => {
            assert(step.effects[0] == EffectView::Send(
                response_envelope(rpc_id, selection(option_id)),
            ));
        },
        PendingView::Question { rpc_id, answers: known } => {
            match lookup(known, option_id) {
                Some(answer) => {
                    assert(step.effects[0] == EffectView::Send(
                        response_envelope(rpc_id, answered(answer)),
                    ));
                },
                None => {},
            }
        },
    }
}

/// An effect that reports the start of a turn.
pub open spec fn starts_turn(effect: EffectView) -> bool {
    effect == EffectView::Emit(DriverEventView::TurnStarted)
}

/// Something happens at which the start of a turn is reported.
pub open spec fn tells_start(state: StateView, happening: Happening) -> bool {
    exists|i: int|
        0 <= i < effects_of(state, happening).len() && starts_turn(
            #[trigger] effects_of(state, happening)[i],
        )
}

/// Something happens at which the end of a turn is reported.
pub open spec fn tells_end(state: StateView, happening: Happening) -> bool {
    exists|i: int|
        0 <= i < effects_of(state, happening).len() && ends_turn(
            #[trigger] effects_of(state, happening)[i],
        )
}

/// What is reported of turns is how things stand: a start is reported only where no turn
/// ran and one runs now, after an end is reported none runs, and as long as neither is
/// reported a turn runs exactly if one ran before.
pub proof fn law_turn_reports_are_true(state: StateView, happening: Happening)
    ensures
        tells_start(state, happening) ==> !state.turn_active && state_after(
            state,
            happening,
        ).turn_active,
        tells_end(state, happening) ==> !state_after(state, happening).turn_active,
        !tells_start(state, happening) && !tells_end(state, happening) ==> state_after(
            state,
            happening,
        ).turn_active == state.turn_active,
{
    let effects = effects_of(state, happening);
    match happening {
        Happening::Command { command, sequence: _ } => {
            match command {
                CommandView::Prompt(_) => {
                    if !state.turn_active {
                        assert(starts_turn(effects[0]));
                    }
                },
                CommandView::Cancel => {
                    assert forall|i: int| 0 <= i < effects.len() implies !starts_turn(
                        #[trigger] effects[i],
                    ) && !ends_turn(effects[i]) by {
                        assert(effects[i] == EffectView::Send(cancellation(state.pending[i].1)));
                    }
                },
                _ => {},
            }
        },
        Happening::Outcome { followup, failure } => {
            if followup is Prompt && failure is Some {
                assert(ends_turn(effects[1]));
            }
        },
        Happening::Message { message, wording, stderr } => {
            law_messages_end_turns_openly(message, wording, state, stderr);
        },
    }
}

/// While no end of a turn is reported, a turn that runs keeps running.
proof fn lemma_turn_lasts(auto_approve: bool, run: Seq<Happening>, i: int, j: int)
    requires
        0 <= i <= j <= run.len(),
        session_after(auto_approve, run.take(i)).turn_active,
        forall|k: int|
            i <= k < j ==> !tells_end(session_after(auto_approve, run.take(k)), #[trigger] run[k]),
    ensures
        session_after(auto_approve, run.take(j)).turn_active,
    decreases j - i,
{
    if i < j {
        lemma_turn_lasts(auto_approve, run, i, j - 1);
        let before = session_after(auto_approve, run.take(j - 1));
        assert(run.take(j).drop_last() =~= run.take(j - 1));
        assert(run.take(j).last() == run[j - 1]);
        law_turn_reports_are_true(before, run[j - 1]);
    }
}

/// Turns do not overlap: between two reports that a turn started there is a report that
/// one ended.
pub proof fn law_turns_do_not_overlap(auto_approve: bool, run: Seq<Happening>, i: int, j: int)
    requires
        0 <= i < j < run.len(),
        tells_start(session_after(auto_approve, run.take(i)), run[i]),
        tells_start(session_after(auto_approve, run.take(j)), run[j]),
    ensures
        exists|k: int|
            i < k < j && tells_end(session_after(auto_approve, run.take(k)), #[trigger] run[k]),
{
    let before = session_after(auto_approve, run.take(i));
    law_turn_reports_are_true(before, run[i]);
    assert(run.take(i + 1).drop_last() =~= run.take(i));
    assert(run.take(i + 1).last() == run[i]);
    law_turn_reports_are_true(session_after(auto_approve, run.take(j)), run[j]);
    if forall|k: int|
        i + 1 <= k < j ==> !tells_end(
            session_after(auto_approve, run.take(k)),
            #[trigger] run[k],
        ) {
        lemma_turn_lasts(auto_approve, run, i + 1, j);
    }
}

/// A session ends where it is shut down, and where the process exits, which is then the
/// last thing reported; nothing else ends it.
pub proof fn law_sessions_end(
    command: CommandView,
    message: WireMessageView,
    wording: WordingView,
    state: StateView,
    sequence: u64,
    stderr: Seq<Seq<char>>,
)
    ensures
        command_step(command, state, sequence).running == !(command is Shutdown),
        message_step(message, wording, state, stderr).running == !(message is Exited),
        message is Exited ==> {
            let step = message_step(message, wording, state, stderr);
            &&& step.effects.len() > 0
            &&& step.effects.last() == EffectView::Emit(DriverEventView::ProcessExited)
            &&& step.checked is None
        },
{
}

} // verus!
