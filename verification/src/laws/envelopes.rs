//! What holds of the messages that the driver sends.

use crate::codec::{parsed_json, plain, plain_within, NESTING_LIMIT};
use crate::command::{
    autonomy, cancellations, choice_effect, close_params, command_step, prompt_params,
    settings_params, settled_effects, steer_params, with_optional, CommandView,
};
use crate::json::{empty_object, JsonNumber, JsonView};
use crate::message::message_step;
use crate::model::InteractionMode;
use crate::permission::{automatic_choice, permission_options, WordingView};
use crate::reply::{answer_entry, answered, cancellation, no_answer, rejection, selection};
use crate::session::{begun, leftover_answers, planned, LaunchView, StartOptionsView};
use crate::stream::{AnswerView, EffectView, FollowupView, PendingView, StateView, StepView};
use crate::table::lookup;
use crate::text::{decimal, lemma_decimal_injective};
use crate::wire::{
    classified, envelope, message_in, request_envelope, request_id, response_envelope,
    WireMessageView, FACTORY_API_VERSION,
};
use vstd::prelude::*;

verus! {

/// The names of the fields of an envelope differ.
proof fn lemma_field_names()
    ensures
        "jsonrpc"@ != "factoryApiVersion"@,
        "jsonrpc"@ != "type"@,
        "jsonrpc"@ != "id"@,
        "jsonrpc"@ != "method"@,
        "jsonrpc"@ != "params"@,
        "jsonrpc"@ != "result"@,
        "factoryApiVersion"@ != "type"@,
        "factoryApiVersion"@ != "id"@,
        "factoryApiVersion"@ != "method"@,
        "factoryApiVersion"@ != "params"@,
        "factoryApiVersion"@ != "result"@,
        "type"@ != "id"@,
        "type"@ != "method"@,
        "type"@ != "params"@,
        "type"@ != "result"@,
        "id"@ != "method"@,
        "id"@ != "params"@,
        "id"@ != "result"@,
        "method"@ != "params"@,
        "error"@ != "jsonrpc"@,
        "error"@ != "factoryApiVersion"@,
        "error"@ != "type"@,
        "error"@ != "id"@,
        "error"@ != "result"@,
        "response"@ != "request"@,
        "method"@ != "result"@,
        "params"@ != "result"@,
{
    reveal_strlit("jsonrpc");
    reveal_strlit("factoryApiVersion");
    reveal_strlit("type");
    reveal_strlit("id");
    reveal_strlit("method");
    reveal_strlit("params");
    reveal_strlit("result");
    reveal_strlit("error");
    reveal_strlit("response");
    reveal_strlit("request");
    assert("jsonrpc"@.len() == 7);
    assert("factoryApiVersion"@.len() == 17);
    assert("type"@.len() == 4);
    assert("id"@.len() == 2);
    assert("method"@.len() == 6);
    assert("params"@.len() == 6);
    assert("result"@.len() == 6);
    assert("error"@.len() == 5);
    assert("response"@.len() == 8);
    assert("request"@.len() == 7);
    assert("method"@[0] == 'm');
    assert("params"@[0] == 'p');
    assert("result"@[0] == 'r');
}

/// A message as the process accepts it: of the right protocol and version, with an
/// identifier, and either a request for a method or a response with a result.
pub open spec fn is_envelope(message: JsonView) -> bool {
    &&& message.get_str("jsonrpc"@) == Some("2.0"@)
    &&& message.get_str("factoryApiVersion"@) == Some(FACTORY_API_VERSION@)
    &&& message.get_str("id"@) is Some
    &&& {
        ||| message.get_str("type"@) == Some("request"@) && message.get_str("method"@) is Some
            && message.get("params"@) is Some
        ||| message.get_str("type"@) == Some("response"@) && message.get("result"@) is Some
    }
}

/// Every request that the driver builds is an envelope, and reads as the request that
/// was meant.
pub proof fn law_request_reads_back(id: Seq<char>, method: Seq<char>, params: JsonView)
    ensures
        is_envelope(request_envelope(id, method, params)),
        classified(request_envelope(id, method, params)) == Some(
            WireMessageView::Request { id, method, params },
        ),
{
    lemma_field_names();
}

/// Every response that the driver builds is an envelope, and reads as the response that
/// was meant.
pub proof fn law_response_reads_back(id: Seq<char>, result: JsonView)
    ensures
        is_envelope(response_envelope(id, result)),
        classified(response_envelope(id, result)) == Some(
            WireMessageView::Response { id, result: Some(result), error: None },
        ),
{
    lemma_field_names();
}

/// No two requests have the same identifier until the numbers are used up.
pub proof fn law_request_ids_differ(m: u64, n: u64)
    requires
        m != n,
    ensures
        request_id(m) != request_id(n),
{
    if request_id(m) == request_id(n) {
        let prefix = "waku-"@.len() as int;
        assert(request_id(m).skip(prefix) =~= decimal(m as nat));
        assert(request_id(n).skip(prefix) =~= decimal(n as nat));
        lemma_decimal_injective(m as nat, n as nat);
    }
}

/// Setting a field of an object adds one level to the value at most.
proof fn lemma_with_plain(base: JsonView, key: Seq<char>, value: JsonView, levels: nat)
    requires
        base is Object,
        plain_within(base, levels + 1),
        plain_within(value, levels),
    ensures
        base.with(key, value) is Object,
        plain_within(base.with(key, value), levels + 1),
{
    let fields = base->Object_0;
    let after = fields.insert(key, value);
    assert forall|k: Seq<char>| after.contains_key(k) implies plain_within(
        #[trigger] after[k],
        levels,
    ) by {
        if k != key {
            assert(fields.contains_key(k));
            assert(after[k] == fields[k]);
        }
    }
}

/// The object without fields is plain.
proof fn lemma_empty_plain(levels: nat)
    ensures
        empty_object() is Object,
        plain_within(empty_object(), levels + 1),
{
}

/// A value that is nested at most so deep is also nested at most deeper.
proof fn lemma_plain_deeper(value: JsonView, levels: nat, more: nat)
    requires
        plain_within(value, levels),
        levels <= more,
    ensures
        plain_within(value, more),
    decreases levels,
{
    match value {
        JsonView::Array(items) => {
            assert forall|i: int| 0 <= i < items.len() implies plain_within(
                #[trigger] items[i],
                (more - 1) as nat,
            ) by {
                lemma_plain_deeper(items[i], (levels - 1) as nat, (more - 1) as nat);
            }
        },
        JsonView::Object(fields) => {
            assert forall|k: Seq<char>| fields.contains_key(k) implies plain_within(
                #[trigger] fields[k],
                (more - 1) as nat,
            ) by {
                lemma_plain_deeper(fields[k], (levels - 1) as nat, (more - 1) as nat);
            }
        },
        _ => {},
    }
}

/// The fields that every envelope begins with are plain.
proof fn lemma_envelope_plain(kind: Seq<char>, id: Seq<char>, levels: nat)
    ensures
        envelope(kind, id) is Object,
        plain_within(envelope(kind, id), levels + 1),
{
    let start = empty_object();
    lemma_empty_plain(levels);
    lemma_with_plain(start, "jsonrpc"@, JsonView::Str("2.0"@), levels);
    let start = start.with("jsonrpc"@, JsonView::Str("2.0"@));
    lemma_with_plain(start, "factoryApiVersion"@, JsonView::Str(FACTORY_API_VERSION@), levels);
    let start = start.with("factoryApiVersion"@, JsonView::Str(FACTORY_API_VERSION@));
    lemma_with_plain(start, "type"@, JsonView::Str(kind), levels);
    let start = start.with("type"@, JsonView::Str(kind));
    lemma_with_plain(start, "id"@, JsonView::Str(id), levels);
}

/// A request nests one level deeper than its parameters.
pub proof fn law_request_plain(id: Seq<char>, method: Seq<char>, params: JsonView, levels: nat)
    requires
        plain_within(params, levels),
    ensures
        plain_within(request_envelope(id, method, params), levels + 1),
{
    let start = envelope("request"@, id);
    lemma_envelope_plain("request"@, id, levels);
    lemma_with_plain(start, "method"@, JsonView::Str(method), levels);
    lemma_with_plain(start.with("method"@, JsonView::Str(method)), "params"@, params, levels);
}

/// A response nests one level deeper than its result.
pub proof fn law_response_plain(id: Seq<char>, result: JsonView, levels: nat)
    requires
        plain_within(result, levels),
    ensures
        plain_within(response_envelope(id, result), levels + 1),
{
    lemma_envelope_plain("response"@, id, levels);
    lemma_with_plain(envelope("response"@, id), "result"@, result, levels);
}

/// A message that the process accepts, and that reads back from its text.
pub open spec fn acceptable(message: JsonView) -> bool {
    is_envelope(message) && plain(message)
}

/// Whatever an effect sends is acceptable.
pub open spec fn sends_acceptable(effect: EffectView) -> bool {
    effect matches EffectView::Send(message) ==> acceptable(message)
}

/// Whatever the effects send is acceptable.
pub open spec fn all_acceptable(effects: Seq<EffectView>) -> bool {
    forall|i: int| 0 <= i < effects.len() ==> sends_acceptable(#[trigger] effects[i])
}

/// Whatever a step sends is acceptable.
pub open spec fn step_acceptable(step: StepView) -> bool {
    &&& all_acceptable(step.effects)
    &&& step.checked matches Some(checked) ==> sends_acceptable(checked.effect)
}

/// A request is acceptable where its parameters are plain and not too deep.
proof fn lemma_request_acceptable(id: Seq<char>, method: Seq<char>, params: JsonView, levels: nat)
    requires
        plain_within(params, levels),
        levels < NESTING_LIMIT,
    ensures
        acceptable(request_envelope(id, method, params)),
{
    law_request_reads_back(id, method, params);
    law_request_plain(id, method, params, levels);
    lemma_plain_deeper(request_envelope(id, method, params), levels + 1, NESTING_LIMIT as nat);
}

/// A response is acceptable where its result is plain and not too deep.
proof fn lemma_response_acceptable(id: Seq<char>, result: JsonView, levels: nat)
    requires
        plain_within(result, levels),
        levels < NESTING_LIMIT,
    ensures
        acceptable(response_envelope(id, result)),
{
    law_response_reads_back(id, result);
    law_response_plain(id, result, levels);
    lemma_plain_deeper(response_envelope(id, result), levels + 1, NESTING_LIMIT as nat);
}

/// The results with which the driver answers are plain.
proof fn lemma_results_plain(option_id: Seq<char>, answer: AnswerView)
    ensures
        plain_within(selection(option_id), 1),
        plain_within(no_answer(), 2),
        plain_within(answered(answer), 3),
{
    lemma_empty_plain(0);
    lemma_empty_plain(1);
    lemma_empty_plain(2);
    lemma_with_plain(empty_object(), "selectedOption"@, JsonView::Str(option_id), 0);
    lemma_with_plain(empty_object(), "cancelled"@, JsonView::Bool(true), 1);
    lemma_with_plain(
        empty_object().with("cancelled"@, JsonView::Bool(true)),
        "answers"@,
        JsonView::Array(Seq::empty()),
        1,
    );
    let index = JsonView::Number(JsonNumber::Unsigned(answer.index as u64));
    let entry = empty_object();
    lemma_with_plain(entry, "index"@, index, 0);
    let entry = entry.with("index"@, index);
    lemma_with_plain(entry, "question"@, JsonView::Str(answer.question), 0);
    let entry = entry.with("question"@, JsonView::Str(answer.question));
    lemma_with_plain(entry, "answer"@, JsonView::Str(answer.answer), 0);
    lemma_with_plain(empty_object(), "cancelled"@, JsonView::Bool(false), 2);
    lemma_with_plain(
        empty_object().with("cancelled"@, JsonView::Bool(false)),
        "answers"@,
        JsonView::Array(seq![answer_entry(answer)]),
        2,
    );
}

/// The message that calls off a request is acceptable.
proof fn lemma_cancellation_acceptable(pending: PendingView)
    ensures
        acceptable(cancellation(pending)),
{
    lemma_results_plain("cancel"@, arbitrary());
    match pending {
        PendingView::Approval { rpc_id } => lemma_response_acceptable(rpc_id, rejection(), 1),
        PendingView::Question { rpc_id, answers: _ } => lemma_response_acceptable(
            rpc_id,
            no_answer(),
            2,
        ),
    }
}

/// Setting an optional field keeps an object plain.
proof fn lemma_optional_plain(base: JsonView, key: Seq<char>, text: Option<Seq<char>>)
    requires
        base is Object,
        plain_within(base, 1),
    ensures
        with_optional(base, key, text) is Object,
        plain_within(with_optional(base, key, text), 1),
{
    match text {
        Some(text) => lemma_with_plain(base, key, JsonView::Str(text), 0),
        None => {},
    }
}

/// Whatever a command makes the driver send is a message that the process accepts, and
/// that reads back from its text.
pub proof fn law_commands_send_envelopes(message: CommandView, state: StateView, sequence: u64)
    ensures
        step_acceptable(command_step(message, state, sequence)),
{
    let id = request_id(sequence);
    lemma_empty_plain(0);
    match message {
        CommandView::Prompt(text) => {
            lemma_with_plain(empty_object(), "text"@, JsonView::Str(text), 0);
            lemma_request_acceptable(id, "droid.add_user_message"@, prompt_params(text), 1);
        },
        CommandView::Steer(text) => {
            lemma_with_plain(empty_object(), "text"@, JsonView::Str(text), 0);
            lemma_with_plain(
                prompt_params(text),
                "queuePlacement"@,
                JsonView::Str("end_of_turn"@),
                0,
            );
            lemma_request_acceptable(id, "droid.add_user_message"@, steer_params(text), 1);
        },
        CommandView::Cancel => {
            lemma_request_acceptable(id, "droid.interrupt_session"@, empty_object(), 1);
            let effects = cancellations(state.pending);
            assert forall|i: int| 0 <= i < effects.len() implies sends_acceptable(
                #[trigger] effects[i],
            ) by {
                lemma_cancellation_acceptable(state.pending[i].1);
            }
        },
        CommandView::Respond { request_id: _, option_id } => {
            assert forall|pending: PendingView|
                sends_acceptable(#[trigger] choice_effect(pending, option_id)) by {
                match pending {
                    PendingView::Approval { rpc_id } => {
                        lemma_results_plain(option_id, arbitrary());
                        lemma_response_acceptable(rpc_id, selection(option_id), 1);
                    },
                    PendingView::Question { rpc_id, answers } => {
                        match lookup(answers, option_id) {
                            Some(answer) => {
                                lemma_results_plain(option_id, answer);
                                lemma_response_acceptable(rpc_id, answered(answer), 3);
                            },
                            None => {},
                        }
                    },
                }
            }
        },
        CommandView::ApplyOptions(options) => {
            lemma_optional_plain(empty_object(), "modelId"@, options.model);
            let params = with_optional(empty_object(), "modelId"@, options.model);
            lemma_optional_plain(params, "reasoningEffort"@, options.reasoning_effort);
            let params = with_optional(params, "reasoningEffort"@, options.reasoning_effort);
            let level = autonomy(options.mode, options.interaction_mode);
            lemma_with_plain(params, "autonomyLevel"@, JsonView::Str(level), 0);
            lemma_request_acceptable(
                id,
                "droid.update_session_settings"@,
                settings_params(options),
                1,
            );
        },
        CommandView::Shutdown => {
            lemma_with_plain(empty_object(), "reason"@, JsonView::Str("other"@), 0);
            lemma_request_acceptable(id, "droid.close_session"@, close_params(), 1);
        },
    }
}

/// Whatever the driver sends once it knows the outcome of an effect is a message that
/// the process accepts, and that reads back from its text.
pub proof fn law_settling_sends_envelopes(followup: FollowupView, failure: Option<Seq<char>>)
    ensures
        all_acceptable(settled_effects(followup, failure)),
{
    lemma_results_plain("cancel"@, arbitrary());
    match followup {
        FollowupView::Approval { request_id } => lemma_response_acceptable(
            request_id,
            rejection(),
            1,
        ),
        FollowupView::Question { request_id } => lemma_response_acceptable(
            request_id,
            no_answer(),
            2,
        ),
        _ => {},
    }
}

/// Whatever a message of the process makes the driver send is a message that the process
/// accepts, and that reads back from its text.
pub proof fn law_messages_send_envelopes(
    message: WireMessageView,
    wording: WordingView,
    state: StateView,
    stderr: Seq<Seq<char>>,
)
    ensures
        step_acceptable(message_step(message, wording, state, stderr)),
{
    match message {
        WireMessageView::Request { id, method: _, params } => {
            let options = permission_options(params.get_items("options"@));
            let choice = automatic_choice(options);
            lemma_results_plain(choice, arbitrary());
            lemma_response_acceptable(id, selection(choice), 1);
            lemma_results_plain("cancel"@, arbitrary());
            lemma_response_acceptable(id, rejection(), 1);
            lemma_response_acceptable(id, no_answer(), 2);
        },
        _ => {},
    }
}

/// The answers to what was left open are acceptable.
proof fn lemma_leftovers_acceptable(entries: Seq<JsonView>, result: JsonView)
    requires
        plain_within(result, 2),
    ensures
        all_acceptable(leftover_answers(entries, result)),
    decreases entries.len(),
{
    if entries.len() > 0 {
        lemma_leftovers_acceptable(entries.drop_last(), result);
        match entries.last().get_str("requestId"@) {
            Some(id) => lemma_response_acceptable(id, result, 2),
            None => {},
        }
    }
}

/// Whatever the driver sends to start a session is a message that the process accepts,
/// and that reads back from its text.
pub proof fn law_start_sends_envelopes(
    options: StartOptionsView,
    sequence: u64,
    launch: LaunchView,
    response: JsonView,
)
    ensures
        planned(options) matches Ok(launch) ==> acceptable(
            request_envelope(request_id(sequence), launch.method, launch.params),
        ),
        begun(launch, response) matches Ok(started) ==> all_acceptable(started.effects),
{
    lemma_empty_plain(0);
    match planned(options) {
        Ok(launch) => {
            match launch.resumed {
                Some(session_id) => {
                    let params = empty_object();
                    lemma_with_plain(params, "sessionId"@, JsonView::Str(session_id), 0);
                    let params = params.with("sessionId"@, JsonView::Str(session_id));
                    lemma_with_plain(params, "loadAllMessages"@, JsonView::Bool(false), 0);
                },
                None => {
                    let level = autonomy(options.mode, options.interaction_mode);
                    let interaction = if options.interaction_mode
                        == InteractionMode::Plan {
                        "spec"@
                    } else {
                        "auto"@
                    };
                    let params = empty_object();
                    lemma_with_plain(params, "machineId"@, JsonView::Str("waku"@), 0);
                    let params = params.with("machineId"@, JsonView::Str("waku"@));
                    lemma_with_plain(params, "cwd"@, JsonView::Str(options.cwd), 0);
                    let params = params.with("cwd"@, JsonView::Str(options.cwd));
                    lemma_with_plain(params, "interactionMode"@, JsonView::Str(interaction), 0);
                    let params = params.with("interactionMode"@, JsonView::Str(interaction));
                    lemma_with_plain(params, "autonomyLevel"@, JsonView::Str(level), 0);
                    let params = params.with("autonomyLevel"@, JsonView::Str(level));
                    lemma_optional_plain(params, "modelId"@, options.model);
                    let params = with_optional(params, "modelId"@, options.model);
                    lemma_optional_plain(params, "reasoningEffort"@, options.reasoning_effort);
                },
            }
            lemma_request_acceptable(request_id(sequence), launch.method, launch.params, 1);
        },
        Err(_) => {},
    }
    lemma_results_plain("cancel"@, arbitrary());
    lemma_plain_deeper(rejection(), 1, 2);
    lemma_leftovers_acceptable(response.get_items("pendingPermissions"@), rejection());
    lemma_leftovers_acceptable(response.get_items("pendingAskUserRequests"@), no_answer());
}

/// The texts one after the other, each with a line break behind it.
pub open spec fn framed(texts: Seq<Seq<char>>) -> Seq<char>
    decreases texts.len(),
{
    if texts.len() == 0 {
        Seq::empty()
    } else {
        texts[0].push('\n') + framed(texts.drop_first())
    }
}

/// The lines in a stream, up to its last line break; `line` is what was read of the
/// first one.
pub open spec fn lines_in(line: Seq<char>, stream: Seq<char>) -> Seq<Seq<char>>
    decreases stream.len(),
{
    if stream.len() == 0 {
        Seq::empty()
    } else if stream[0] == '\n' {
        seq![line] + lines_in(Seq::empty(), stream.drop_first())
    } else {
        lines_in(line.push(stream[0]), stream.drop_first())
    }
}

/// Reading a line takes in its text and goes on behind its line break.
proof fn lemma_line(line: Seq<char>, text: Seq<char>, rest: Seq<char>)
    requires
        !text.contains('\n'),
    ensures
        lines_in(line, text.push('\n') + rest) == seq![line + text] + lines_in(
            Seq::empty(),
            rest,
        ),
    decreases text.len(),
{
    let stream = text.push('\n') + rest;
    if text.len() == 0 {
        assert(stream.drop_first() =~= rest);
        assert(line + text =~= line);
    } else {
        assert(text.contains(text[0]));
        assert(stream.drop_first() =~= text.drop_first().push('\n') + rest);
        assert forall|c: char| text.drop_first().contains(c) implies text.contains(c) by {
            let i = choose|i: int| 0 <= i < text.drop_first().len() && text.drop_first()[i] == c;
            assert(text[i + 1] == c);
        }
        lemma_line(line.push(text[0]), text.drop_first(), rest);
        assert(line.push(text[0]) + text.drop_first() =~= line + text);
    }
}

/// A stream of messages without line breaks in them, each with a line break behind it,
/// falls into those messages again.
pub proof fn law_lines_are_messages(texts: Seq<Seq<char>>)
    requires
        forall|i: int| 0 <= i < texts.len() ==> !(#[trigger] texts[i]).contains('\n'),
    ensures
        lines_in(Seq::empty(), framed(texts)) == texts,
    decreases texts.len(),
{
    if texts.len() == 0 {
        assert(lines_in(Seq::empty(), framed(texts)) =~= texts);
    } else {
        let rest = texts.drop_first();
        assert forall|i: int| 0 <= i < rest.len() implies !(#[trigger] rest[i]).contains('\n') by {
            assert(rest[i] == texts[i + 1]);
        }
        law_lines_are_messages(rest);
        lemma_line(Seq::empty(), texts[0], framed(rest));
        assert(Seq::<char>::empty() + texts[0] =~= texts[0]);
        assert(seq![texts[0]] + rest =~= texts);
    }
}

/// The text of a value carries it over a line: no line break stands in it, and it reads
/// back as that value. [`crate::wire::write_envelope`] promises that of each text that it
/// writes for a plain value.
pub open spec fn carries(text: Seq<char>, value: JsonView) -> bool {
    !text.contains('\n') && parsed_json(text) == Some(value)
}

/// A stream of values, written one to a line, reads back as those values in their order.
pub proof fn law_streams_read_back(texts: Seq<Seq<char>>, values: Seq<JsonView>)
    requires
        texts.len() == values.len(),
    ensures
        (forall|i: int| 0 <= i < texts.len() ==> carries(#[trigger] texts[i], values[i])) ==> {
            let lines = lines_in(Seq::empty(), framed(texts));
            &&& lines.map_values(|line: Seq<char>| parsed_json(line)) == values.map_values(
                |value: JsonView| Some(value),
            )
            &&& lines.map_values(|line: Seq<char>| message_in(line)) == values.map_values(
                |value: JsonView| classified(value),
            )
        },
{
    if forall|i: int| 0 <= i < texts.len() ==> carries(#[trigger] texts[i], values[i]) {
        law_lines_are_messages(texts);
        assert(texts.map_values(|line: Seq<char>| parsed_json(line)) =~= values.map_values(
            |value: JsonView| Some(value),
        ));
        assert(texts.map_values(|line: Seq<char>| message_in(line)) =~= values.map_values(
            |value: JsonView| classified(value),
        ));
    }
}

} // verus!
