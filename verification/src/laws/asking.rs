//! What the requests of the agent come to: what is shown to the user of them, what waits,
//! and what is answered without the user.

use crate::command::{settled_effects, settled_state};
use crate::json::JsonView;
use crate::laws::requests::lemma_question_answers;
use crate::laws::texts::{blank, law_trimming_takes_white_space};
use crate::message::{message_state, message_step};
use crate::model::{DriverEventView, PermissionOptionView, TextView};
use crate::permission::{
    first_preferred, first_tool_use, permission_option, permission_options, permission_state,
    permission_step, preferred, Preference, WordingView,
};
use crate::question::{
    answer_id, question_answers, question_options, question_state, question_step,
};
use crate::stream::{AnswerView, EffectView, PendingView, StateView, StepView};
use crate::table::{lemma_lookup_put, lemma_lookup_without, lookup};
use crate::text::{decimal, has_prefix};
use crate::wire::{response_envelope, WireMessageView};
use vstd::prelude::*;

verus! {

/// The options of a request, where each entry is known to offer one or none.
proof fn lemma_options_filtered(
    entries: Seq<JsonView>,
    offers: spec_fn(JsonView) -> bool,
    option: spec_fn(JsonView) -> PermissionOptionView,
)
    requires
        forall|entry: JsonView|
            #[trigger] permission_option(entry) == if offers(entry) {
                Some(option(entry))
            } else {
                None
            },
    ensures
        permission_options(entries) == entries.filter(offers).map_values(option),
    decreases entries.len(),
{
    reveal(Seq::filter);
    if entries.len() == 0 {
        assert(permission_options(entries) =~= entries.filter(offers).map_values(option));
    } else {
        lemma_options_filtered(entries.drop_last(), offers, option);
        let last = permission_option(entries.last());
        assert(permission_options(entries) =~= entries.filter(offers).map_values(option));
    }
}

/// In the supervised mode the user is shown every option that the agent offers: in order,
/// one for each entry with a text as its value, under that value, labelled by the label of
/// the entry or else by the value, and allowing where the value begins with `proceed_`.
/// The request waits, and nothing else changes. If it cannot be shown it is rejected and
/// waits no longer.
pub proof fn law_every_option_is_shown(
    id: Seq<char>,
    params: JsonView,
    entries: Seq<JsonView>,
    wording: WordingView,
    state: StateView,
    other: Seq<char>,
    error: Seq<char>,
)
    requires
        !state.auto_approve,
        params.get("options"@) == Some(JsonView::Array(entries)) || (entries.len() == 0 && !(
        params.get("options"@) matches Some(JsonView::Array(_)))),
    ensures
        ({
            let step = permission_step(id, params, wording, state);
            let after = permission_state(id, state);
            &&& step.effects.len() == 0
            &&& step.running
            &&& step.checked matches Some(checked)
            &&& checked.effect matches EffectView::Emit(
                DriverEventView::Permission { request_id, title: _, detail: _, options },
            )
            &&& request_id == id
            &&& options == entries.filter(
                |entry: JsonView| entry.get("value"@) matches Some(JsonView::Str(_)),
            ).map_values(
                |entry: JsonView|
                    PermissionOptionView {
                        id: entry.get("value"@)->0->Str_0,
                        label: match entry.get("label"@) {
                            Some(JsonView::Str(label)) => label,
                            _ => entry.get("value"@)->0->Str_0,
                        },
                        allow: entry.get("value"@)->0->Str_0.len() >= 8
                            && entry.get("value"@)->0->Str_0.take(8) == "proceed_"@,
                    },
            )
            &&& after == (StateView { pending: after.pending, ..state })
            &&& lookup(after.pending, id) == Some(PendingView::Approval { rpc_id: id })
            &&& other != id ==> lookup(after.pending, other) == lookup(state.pending, other)
            &&& settled_effects(checked.followup, None).len() == 0
            &&& settled_state(checked.followup, false, after) == after
            &&& settled_effects(checked.followup, Some(error)) == seq![
                EffectView::Send(
                    response_envelope(
                        id,
                        JsonView::Object(map!["selectedOption"@ => JsonView::Str("cancel"@)]),
                    ),
                ),
            ]
            &&& settled_state(checked.followup, true, after) == (StateView {
                pending: settled_state(checked.followup, true, after).pending,
                ..state
            })
            &&& lookup(settled_state(checked.followup, true, after).pending, id) is None
            &&& other != id ==> lookup(
                settled_state(checked.followup, true, after).pending,
                other,
            ) == lookup(state.pending, other)
        }),
{
    let offers = |entry: JsonView| entry.get("value"@) matches Some(JsonView::Str(_));
    let option = |entry: JsonView|
        PermissionOptionView {
            id: entry.get("value"@)->0->Str_0,
            label: match entry.get("label"@) {
                Some(JsonView::Str(label)) => label,
                _ => entry.get("value"@)->0->Str_0,
            },
            allow: entry.get("value"@)->0->Str_0.len() >= 8
                && entry.get("value"@)->0->Str_0.take(8) == "proceed_"@,
        };
    reveal_strlit("proceed_");
    assert("proceed_"@.len() == 8);
    assert(params.get_items("options"@) =~= entries);
    lemma_options_filtered(entries, offers, option);
    let pending = PendingView::Approval { rpc_id: id };
    lemma_lookup_put(state.pending, id, pending, id);
    lemma_lookup_put(state.pending, id, pending, other);
    let after = permission_state(id, state);
    lemma_lookup_without(after.pending, id, id);
    lemma_lookup_without(after.pending, id, other);
}

/// The first tool use of a request.
pub proof fn lemma_first_tool_use(uses: Seq<JsonView>, i: int)
    requires
        0 <= i <= uses.len(),
        forall|j: int| 0 <= j < i ==> (#[trigger] uses[j]).get("toolUse"@) is None,
        i < uses.len() ==> uses[i].get("toolUse"@) is Some,
    ensures
        first_tool_use(uses) == if i < uses.len() {
            uses[i].get("toolUse"@)
        } else {
            None
        },
    decreases uses.len(),
{
    if i > 0 {
        let rest = uses.drop_first();
        assert(uses[0].get("toolUse"@) is None);
        assert forall|j: int| 0 <= j < i - 1 implies (#[trigger] rest[j]).get(
            "toolUse"@,
        ) is None by {
            assert(rest[j] == uses[j + 1]);
        }
        lemma_first_tool_use(rest, i - 1);
    }
}

/// A permission request is shown under the words that the application finds for its first
/// tool use, or under the name of the tool, which is `Tool` where it has none. It is
/// explained by the arguments written out, or by saying that the agent wants to use the
/// tool.
pub proof fn law_permission_requests_are_worded(
    id: Seq<char>,
    params: JsonView,
    uses: Seq<JsonView>,
    i: int,
    wording: WordingView,
    state: StateView,
)
    requires
        !state.auto_approve,
        params.get("toolUses"@) == Some(JsonView::Array(uses)) || (uses.len() == 0 && !(params.get(
            "toolUses"@,
        ) matches Some(JsonView::Array(_)))),
        0 <= i <= uses.len(),
        forall|j: int| 0 <= j < i ==> (#[trigger] uses[j]).get("toolUse"@) is None,
        i < uses.len() ==> uses[i].get("toolUse"@) is Some,
    ensures
        ({
            let tool_use = uses[i].get("toolUse"@)->0;
            let name = match tool_use.get("name"@) {
                Some(JsonView::Str(name)) => name,
                _ => "Tool"@,
            };
            let said = |action: Seq<char>|
                TextView::Localized {
                    key: "permission.agent_wants_to"@,
                    parameter: "action"@,
                    value: action,
                };
            &&& permission_step(id, params, wording, state).checked matches Some(checked)
            &&& checked.effect matches EffectView::Emit(
                DriverEventView::Permission { request_id: _, title, detail, options: _ },
            )
            &&& i == uses.len() ==> title == "Tool"@ && detail == said("Tool"@)
            &&& i < uses.len() ==> title == match wording.title {
                Some(words) => words,
                None => name,
            }
            &&& i < uses.len() ==> detail == match (tool_use.get("input"@), wording.detail) {
                (Some(_), Some(words)) => TextView::Plain(words),
                _ => said(name),
            }
        }),
{
    assert(params.get_items("toolUses"@) =~= uses);
    lemma_first_tool_use(uses, i);
}

/// The option that is found first in a class, where `i` is the first entry whose value
/// belongs to it.
proof fn lemma_first_in_class(
    entries: Seq<JsonView>,
    preference: Preference,
    i: int,
)
    requires
        0 <= i <= entries.len(),
        forall|j: int|
            0 <= j < i ==> !(permission_option(#[trigger] entries[j]) matches Some(option)
                && preferred(preference, option)),
        i < entries.len() ==> (permission_option(entries[i]) matches Some(option) && preferred(
            preference,
            option,
        )),
    ensures
        first_preferred(permission_options(entries), preference) == if i < entries.len() {
            permission_option(entries[i])
        } else {
            None
        },
    decreases entries.len(),
{
    if entries.len() > 0 {
        let shorter = entries.drop_last();
        let before = permission_options(shorter);
        assert forall|j: int| 0 <= j < i && j < shorter.len() implies !(permission_option(
            #[trigger] shorter[j],
        ) matches Some(option) && preferred(preference, option)) by {
            assert(shorter[j] == entries[j]);
        }
        let k = if i <= shorter.len() {
            i
        } else {
            shorter.len() as int
        };
        lemma_first_in_class(shorter, preference, k);
        match permission_option(entries.last()) {
            Some(option) => lemma_first_preferred_push(before, option, preference),
            None => {},
        }
        assert(entries.last() == entries[entries.len() - 1]);
    }
}

/// One option more matters only where none before it belongs to the class.
proof fn lemma_first_preferred_push(
    options: Seq<PermissionOptionView>,
    option: PermissionOptionView,
    preference: Preference,
)
    ensures
        first_preferred(options.push(option), preference) == match first_preferred(
            options,
            preference,
        ) {
            Some(first) => Some(first),
            None => if preferred(preference, option) {
                Some(option)
            } else {
                None
            },
        },
    decreases options.len(),
{
    if options.len() == 0 {
        assert(options.push(option).drop_first() =~= Seq::empty());
    } else {
        assert(options.push(option).drop_first() =~= options.drop_first().push(option));
        lemma_first_preferred_push(options.drop_first(), option, preference);
    }
}

/// Outside the supervised mode a permission request is answered at once with the most
/// permissive value that it offers, and nothing changes: the first that approves always
/// (`proceed_always`, `proceed_always_` and more, or `proceed_auto_run`); where there is
/// none, `proceed_once`; where that is not offered either, the first that begins with
/// `proceed_` and not with `proceed_edit`; and `cancel` where there is none of these.
pub proof fn law_the_most_permissive_value_is_sent(
    id: Seq<char>,
    params: JsonView,
    entries: Seq<JsonView>,
    i: int,
    wording: WordingView,
    state: StateView,
)
    requires
        state.auto_approve,
        params.get("options"@) == Some(JsonView::Array(entries)) || (entries.len() == 0 && !(
        params.get("options"@) matches Some(JsonView::Array(_)))),
        0 <= i <= entries.len(),
    ensures
        permission_state(id, state) == state,
        ({
            let always = |entry: JsonView|
                entry.get("value"@) matches Some(JsonView::Str(value)) && (value
                    == "proceed_always"@ || has_prefix(value, "proceed_always_"@) || value
                    == "proceed_auto_run"@);
            let once = |entry: JsonView|
                entry.get("value"@) == Some(JsonView::Str("proceed_once"@));
            let otherwise = |entry: JsonView|
                entry.get("value"@) matches Some(JsonView::Str(value)) && has_prefix(
                    value,
                    "proceed_"@,
                ) && !has_prefix(value, "proceed_edit"@);
            let sends = |value: JsonView|
                permission_step(id, params, wording, state) == (StepView {
                    effects: seq![
                        EffectView::Send(
                            response_envelope(
                                id,
                                JsonView::Object(map!["selectedOption"@ => value]),
                            ),
                        ),
                    ],
                    checked: None,
                    running: true,
                });
            let no_always = forall|j: int| 0 <= j < entries.len() ==> !always(#[trigger] entries[j]);
            let no_once = forall|j: int| 0 <= j < entries.len() ==> !once(#[trigger] entries[j]);
            let none_otherwise = forall|j: int|
                0 <= j < entries.len() ==> !otherwise(#[trigger] entries[j]);
            &&& i < entries.len() && always(entries[i]) && (forall|j: int|
                0 <= j < i ==> !always(#[trigger] entries[j])) ==> sends(
                entries[i].get("value"@)->0,
            )
            &&& no_always && !no_once ==> sends(JsonView::Str("proceed_once"@))
            &&& no_always && no_once && i < entries.len() && otherwise(entries[i]) && (forall|j: int|
                0 <= j < i ==> !otherwise(#[trigger] entries[j])) ==> sends(
                entries[i].get("value"@)->0,
            )
            &&& no_always && no_once && none_otherwise ==> sends(JsonView::Str("cancel"@))
        }),
{
    assert(params.get_items("options"@) =~= entries);
    let n = entries.len() as int;
    let always = |entry: JsonView|
        permission_option(entry) matches Some(option) && preferred(Preference::Always, option);
    let once = |entry: JsonView|
        permission_option(entry) matches Some(option) && preferred(Preference::Once, option);
    let otherwise = |entry: JsonView|
        permission_option(entry) matches Some(option) && preferred(Preference::Otherwise, option);
    let a = first_place(entries, always);
    let b = first_place(entries, once);
    let c = first_place(entries, otherwise);
    lemma_first_place(entries, always);
    lemma_first_place(entries, once);
    lemma_first_place(entries, otherwise);
    lemma_first_in_class(entries, Preference::Always, a);
    lemma_first_in_class(entries, Preference::Once, b);
    lemma_first_in_class(entries, Preference::Otherwise, c);
    if a < n {
        assert(always(entries[a]));
    }
    if b < n {
        assert(once(entries[b]));
    }
    if c < n {
        assert(otherwise(entries[c]));
    }
    if i < n {
        assert(i < a ==> !always(entries[i]));
        assert(i < c ==> !otherwise(entries[i]));
    }
}

/// The place of the first entry of a kind, or the number of entries.
spec fn first_place(entries: Seq<JsonView>, kind: spec_fn(JsonView) -> bool) -> int
    decreases entries.len(),
{
    if entries.len() == 0 || kind(entries[0]) {
        0
    } else {
        1 + first_place(entries.drop_first(), kind)
    }
}

/// What [`first_place`] finds.
proof fn lemma_first_place(entries: Seq<JsonView>, kind: spec_fn(JsonView) -> bool)
    ensures
        0 <= first_place(entries, kind) <= entries.len(),
        first_place(entries, kind) < entries.len() ==> kind(entries[first_place(entries, kind)]),
        forall|j: int|
            0 <= j < first_place(entries, kind) ==> !kind(#[trigger] entries[j]),
    decreases entries.len(),
{
    if entries.len() > 0 && !kind(entries[0]) {
        let rest = entries.drop_first();
        lemma_first_place(rest, kind);
        assert forall|j: int| 0 <= j < first_place(entries, kind) implies !kind(
            #[trigger] entries[j],
        ) by {
            if j > 0 {
                assert(entries[j] == rest[j - 1]);
            }
        }
    }
}

/// A request to ask the user is put to the user exactly where it asks one question that
/// does not take several answers and offers at least one. Whether it takes several is
/// said by `multiSelect` being `true`, and by nothing else. It then waits; any other
/// request is declined at once, with word to the user, and nothing changes.
pub proof fn law_single_questions_are_put_to_the_user(
    id: Seq<char>,
    params: JsonView,
    state: StateView,
)
    ensures
        ({
            let step = question_step(id, params);
            let after = question_state(id, params, state);
            let single = {
                &&& params.get("questions"@) matches Some(JsonView::Array(questions))
                &&& questions.len() == 1
                &&& questions[0].get("multiSelect"@) != Some(JsonView::Bool(true))
                &&& questions[0].get("options"@) matches Some(JsonView::Array(entries))
                &&& entries.len() > 0
            };
            &&& step.running
            &&& single ==> {
                &&& step.effects.len() == 0
                &&& step.checked matches Some(checked)
                &&& checked.effect matches EffectView::Emit(
                    DriverEventView::Permission { request_id, title: _, detail: _, options: _ },
                )
                &&& request_id == id
                &&& lookup(after.pending, id) matches Some(
                    PendingView::Question { rpc_id, answers: _ },
                )
                &&& rpc_id == id
            }
            &&& !single ==> {
                &&& step.checked is None
                &&& step.effects == seq![
                    EffectView::Send(
                        response_envelope(
                            id,
                            JsonView::Object(
                                map![
                                    "cancelled"@ => JsonView::Bool(true),
                                    "answers"@ => JsonView::Array(Seq::empty())
                                ],
                            ),
                        ),
                    ),
                    EffectView::Emit(
                        DriverEventView::Error(
                            "Waku currently supports one single-select Droid question at a time"@,
                        ),
                    ),
                ]
                &&& after == state
            }
        }),
{
    match params.get("questions"@) {
        Some(JsonView::Array(questions)) => {
            let text = match questions[0].get("question"@) {
                Some(JsonView::Str(text)) => text,
                _ => Seq::empty(),
            };
            let pending = PendingView::Question {
                rpc_id: id,
                answers: question_answers(questions[0].get_items("options"@), text),
            };
            lemma_lookup_put(state.pending, id, pending, id);
        },
        _ => {},
    }
}

/// The choices of a question, by the places of the texts that it offers.
proof fn lemma_choices_filtered(
    entries: Seq<JsonView>,
    n: int,
    offers: spec_fn(int) -> bool,
    option: spec_fn(int) -> PermissionOptionView,
)
    requires
        0 <= n <= entries.len(),
        forall|i: int|
            0 <= i < entries.len() ==> #[trigger] offers(i) == (entries[i] is Str),
        forall|i: int|
            0 <= i < entries.len() && entries[i] is Str ==> #[trigger] option(i) == (
            PermissionOptionView {
                id: answer_id(i as nat),
                label: entries[i]->Str_0,
                allow: false,
            }),
    ensures
        question_options(entries.take(n)) == Seq::new(n as nat, |i: int| i).filter(
            offers,
        ).map_values(option),
    decreases n,
{
    reveal(Seq::filter);
    let places = Seq::new(n as nat, |i: int| i);
    if n == 0 {
        assert(question_options(entries.take(n)) =~= places.filter(offers).map_values(option));
    } else {
        lemma_choices_filtered(entries, n - 1, offers, option);
        let fewer = Seq::new((n - 1) as nat, |i: int| i);
        assert(places.drop_last() =~= fewer);
        assert(places.last() == n - 1);
        assert(entries.take(n).drop_last() =~= entries.take(n - 1));
        assert(entries.take(n).last() == entries[n - 1]);
        assert(offers(n - 1) == (entries[n - 1] is Str));
        if entries[n - 1] is Str {
            assert(option(n - 1).label == entries[n - 1]->Str_0);
        }
        assert(question_options(entries.take(n)) =~= places.filter(offers).map_values(option));
    }
}

/// Only the texts that a question offers can be answered with.
proof fn lemma_only_offered_answers(entries: Seq<JsonView>, question: Seq<char>, key: Seq<char>)
    ensures
        lookup(question_answers(entries, question), key) is Some ==> exists|i: int|
            0 <= i < entries.len() && (#[trigger] entries[i]) is Str && key == answer_id(i as nat),
    decreases entries.len(),
{
    if entries.len() > 0 {
        let shorter = entries.drop_last();
        let last = entries.len() - 1;
        let before = question_answers(shorter, question);
        lemma_only_offered_answers(shorter, question, key);
        match entries.last().as_str() {
            Some(label) => {
                let answer = AnswerView { index: last as usize, question, answer: label };
                lemma_lookup_put(before, answer_id(last as nat), answer, key);
                assert(entries[last] is Str);
            },
            None => {},
        }
        if lookup(before, key) is Some {
            let i = choose|i: int|
                0 <= i < shorter.len() && (#[trigger] shorter[i]) is Str && key == answer_id(
                    i as nat,
                );
            assert(entries[i] == shorter[i]);
        }
    }
}

/// A question is shown as it is asked: under its topic unless that is missing or blank,
/// explained by its text, with one choice for each text that it offers, in order, under
/// `answer-` and its place among all that is offered. Under each of these, and under
/// nothing else, waits the answer with the place, the question and the text. If the
/// question cannot be shown it is declined and waits no longer. Nothing else changes.
pub proof fn law_questions_are_shown_as_asked(
    id: Seq<char>,
    params: JsonView,
    question: JsonView,
    entries: Seq<JsonView>,
    state: StateView,
    other: Seq<char>,
    option_id: Seq<char>,
    i: int,
    error: Seq<char>,
)
    requires
        params.get("questions"@) == Some(JsonView::Array(seq![question])),
        question.get("multiSelect"@) != Some(JsonView::Bool(true)),
        question.get("options"@) == Some(JsonView::Array(entries)),
        0 < entries.len() <= usize::MAX,
    ensures
        ({
            let step = question_step(id, params);
            let after = question_state(id, params, state);
            let text = match question.get("question"@) {
                Some(JsonView::Str(text)) => text,
                _ => Seq::empty(),
            };
            &&& step.checked matches Some(checked)
            &&& checked.effect matches EffectView::Emit(
                DriverEventView::Permission { request_id, title, detail, options },
            )
            &&& request_id == id
            &&& title == match question.get("topic"@) {
                Some(JsonView::Str(topic)) => if blank(topic) {
                    "Droid question"@
                } else {
                    topic
                },
                _ => "Droid question"@,
            }
            &&& detail == TextView::Plain(text)
            &&& options == Seq::new(entries.len(), |k: int| k).filter(
                |k: int| entries[k] is Str,
            ).map_values(
                |k: int|
                    PermissionOptionView {
                        id: "answer-"@ + decimal(k as nat),
                        label: entries[k]->Str_0,
                        allow: false,
                    },
            )
            &&& lookup(after.pending, id) matches Some(PendingView::Question { rpc_id, answers })
            &&& rpc_id == id
            &&& 0 <= i < entries.len() ==> lookup(answers, "answer-"@ + decimal(i as nat))
                == match entries[i] {
                JsonView::Str(label) => Some(
                    AnswerView { index: i as usize, question: text, answer: label },
                ),
                _ => None,
            }
            &&& lookup(answers, option_id) is Some ==> exists|k: int|
                0 <= k < entries.len() && (#[trigger] entries[k]) is Str && option_id == "answer-"@
                    + decimal(k as nat)
            &&& after == (StateView { pending: after.pending, ..state })
            &&& other != id ==> lookup(after.pending, other) == lookup(state.pending, other)
            &&& settled_effects(checked.followup, None).len() == 0
            &&& settled_state(checked.followup, false, after) == after
            &&& settled_effects(checked.followup, Some(error)) == seq![
                EffectView::Send(
                    response_envelope(
                        id,
                        JsonView::Object(
                            map![
                                "cancelled"@ => JsonView::Bool(true),
                                "answers"@ => JsonView::Array(Seq::empty())
                            ],
                        ),
                    ),
                ),
            ]
            &&& settled_state(checked.followup, true, after) == (StateView {
                pending: settled_state(checked.followup, true, after).pending,
                ..state
            })
            &&& lookup(settled_state(checked.followup, true, after).pending, id) is None
            &&& other != id ==> lookup(
                settled_state(checked.followup, true, after).pending,
                other,
            ) == lookup(state.pending, other)
        }),
{
    let text = match question.get("question"@) {
        Some(JsonView::Str(text)) => text,
        _ => Seq::empty(),
    };
    let offers = |k: int| entries[k] is Str;
    let option = |k: int|
        PermissionOptionView {
            id: "answer-"@ + decimal(k as nat),
            label: entries[k]->Str_0,
            allow: false,
        };
    assert(seq![question][0] == question);
    assert(question.get_items("options"@) =~= entries);
    assert(entries.take(entries.len() as int) =~= entries);
    lemma_choices_filtered(entries, entries.len() as int, offers, option);
    match question.get("topic"@) {
        Some(JsonView::Str(topic)) => law_trimming_takes_white_space(topic),
        _ => {},
    }
    if 0 <= i < entries.len() {
        lemma_question_answers(entries, text, i);
    }
    lemma_only_offered_answers(entries, text, option_id);
    let pending = PendingView::Question { rpc_id: id, answers: question_answers(entries, text) };
    lemma_lookup_put(state.pending, id, pending, id);
    lemma_lookup_put(state.pending, id, pending, other);
    let after = question_state(id, params, state);
    lemma_lookup_without(after.pending, id, id);
    lemma_lookup_without(after.pending, id, other);
}

/// A request goes by its method: permission requests and questions are handled as such,
/// and any other is rejected at once, with word to the user of the method, and changes
/// nothing.
pub proof fn law_requests_go_by_their_method(
    id: Seq<char>,
    method: Seq<char>,
    params: JsonView,
    wording: WordingView,
    state: StateView,
    stderr: Seq<Seq<char>>,
)
    ensures
        ({
            let message = WireMessageView::Request { id, method, params };
            let step = message_step(message, wording, state, stderr);
            let after = message_state(message, wording, state);
            &&& method == "droid.request_permission"@ ==> step == permission_step(
                id,
                params,
                wording,
                state,
            ) && after == permission_state(id, state)
            &&& method == "droid.ask_user"@ ==> step == question_step(id, params) && after
                == question_state(id, params, state)
            &&& method != "droid.request_permission"@ && method != "droid.ask_user"@ ==> step == (
            StepView {
                effects: seq![
                    EffectView::Send(
                        response_envelope(
                            id,
                            JsonView::Object(map!["selectedOption"@ => JsonView::Str("cancel"@)]),
                        ),
                    ),
                    EffectView::Emit(
                        DriverEventView::Error("Droid sent an unsupported request: "@ + method),
                    ),
                ],
                checked: None,
                running: true,
            }) && after == state
        }),
{
    reveal_strlit("droid.request_permission");
    reveal_strlit("droid.ask_user");
    assert("droid.request_permission"@.len() == 24);
    assert("droid.ask_user"@.len() == 14);
}

} // verus!
