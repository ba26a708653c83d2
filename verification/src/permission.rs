//! Permission requests of the agent.

use crate::json::{Json, JsonView};
use crate::model::{
    DriverEvent, DriverEventView, PermissionOption, PermissionOptionView, Text, TextView,
};
use crate::reply::{select_option, selection};
use crate::stream::{
    one, step_checking, step_of, CheckedView, Effect, EffectView, Followup, FollowupView,
    PendingInteraction, PendingView, StateView, Step, StepView, StreamState,
};
use crate::table::put;
use crate::text::{has_prefix, same_text, starts_with};
use crate::views::{lemma_views_push, viewed, views};
use crate::wire::{respond, response_envelope};
use vstd::prelude::*;

verus! {

/// How the application words what a tool was called with. The driver passes on the
/// arguments to word (see [`crate::message::subject`]) and takes the words back.
#[derive(Debug, PartialEq, Eq)]
pub struct Wording {
    /// A title for the arguments, where they suggest one.
    pub title: Option<String>,
    /// The arguments written out.
    pub detail: Option<String>,
}

/// What a [`Wording`] means.
pub struct WordingView {
    pub title: Option<Seq<char>>,
    pub detail: Option<Seq<char>>,
}

impl View for Wording {
    type V = WordingView;

    open spec fn view(&self) -> WordingView {
        WordingView { title: viewed(self.title), detail: viewed(self.detail) }
    }
}

/// `text`, or `default` where there is none.
pub open spec fn text_or(text: Option<Seq<char>>, default: Seq<char>) -> Seq<char> {
    match text {
        Some(text) => text,
        None => default,
    }
}

/// The choice that an entry of a permission request offers. Without a value it offers
/// none; without a label it is labelled by its value.
pub open spec fn permission_option(entry: JsonView) -> Option<PermissionOptionView> {
    match entry.get_str("value"@) {
        Some(value) => Some(
            PermissionOptionView {
                id: value,
                label: text_or(entry.get_str("label"@), value),
                allow: has_prefix(value, "proceed_"@),
            },
        ),
        None => None,
    }
}

/// The choices that the entries of a permission request offer, in their order.
pub open spec fn permission_options(entries: Seq<JsonView>) -> Seq<PermissionOptionView>
    decreases entries.len(),
{
    if entries.len() == 0 {
        Seq::empty()
    } else {
        let before = permission_options(entries.drop_last());
        match permission_option(entries.last()) {
            Some(option) => before.push(option),
            None => before,
        }
    }
}

/// The choice that an entry of a permission request offers.
fn read_option(entry: &Json) -> (option: Option<PermissionOption>)
    ensures
        viewed(option) == permission_option(entry@),
{
    match entry.get_str("value") {
        Some(value) => {
            let label = match entry.get_str("label") {
                Some(label) => label,
                None => value,
            };
            Some(
                PermissionOption {
                    id: value.to_owned(),
                    label: label.to_owned(),
                    allow: starts_with(value, "proceed_"),
                },
            )
        },
        None => None,
    }
}

/// The choices that a permission request offers, in their order.
fn read_options(params: &Json) -> (options: Vec<PermissionOption>)
    ensures
        views(options) == permission_options(params@.get_items("options"@)),
{
    let mut options: Vec<PermissionOption> = Vec::new();
    assert(views(options) =~= Seq::empty());
    let entries = match params.get("options") {
        Some(value) => match value.as_array() {
            Some(entries) => entries,
            None => {
                return options;
            },
        },
        None => {
            return options;
        },
    };
    let ghost all = params@.get_items("options"@);
    assert(all == views(*entries));
    let mut i: usize = 0;
    assert(all.take(0) =~= Seq::empty());
    while i < entries.len()
        invariant
            i <= entries.len(),
            all == views(*entries),
            views(options) == permission_options(all.take(i as int)),
        decreases entries.len() - i,
    {
        assert(all.take(i + 1).drop_last() =~= all.take(i as int));
        assert(all.take(i + 1).last() == entries@[i as int]@);
        match read_option(&entries[i]) {
            Some(option) => {
                let ghost before = options;
                options.push(option);
                proof {
                    lemma_views_push(before, options, option);
                }
            },
            None => {},
        }
        i = i + 1;
    }
    assert(all.take(i as int) =~= all);
    options
}

/// The first tool use that the entries of a permission request hold.
pub open spec fn first_tool_use(entries: Seq<JsonView>) -> Option<JsonView>
    decreases entries.len(),
{
    if entries.len() == 0 {
        None
    } else {
        match entries[0].get("toolUse"@) {
            Some(tool_use) => Some(tool_use),
            None => first_tool_use(entries.drop_first()),
        }
    }
}

/// The first tool use that a permission request holds.
pub(crate) fn read_tool_use(params: &Json) -> (tool_use: Option<&Json>)
    ensures
        match tool_use {
            Some(tool_use) => first_tool_use(params@.get_items("toolUses"@)) == Some(tool_use@),
            None => first_tool_use(params@.get_items("toolUses"@)) is None,
        },
{
    let entries = match params.get("toolUses") {
        Some(value) => match value.as_array() {
            Some(entries) => entries,
            None => {
                return None;
            },
        },
        None => {
            return None;
        },
    };
    let ghost all = params@.get_items("toolUses"@);
    assert(all == views(*entries));
    let mut i: usize = 0;
    assert(all.skip(0) =~= all);
    while i < entries.len()
        invariant
            i <= entries.len(),
            all == params@.get_items("toolUses"@),
            all == views(*entries),
            first_tool_use(all) == first_tool_use(all.skip(i as int)),
        decreases entries.len() - i,
    {
        assert(all.skip(i as int)[0] == entries@[i as int]@);
        assert(all.skip(i as int).drop_first() =~= all.skip(i + 1));
        match entries[i].get("toolUse") {
            Some(tool_use) => {
                return Some(tool_use);
            },
            None => {},
        }
        i = i + 1;
    }
    None
}

/// The classes in which choices are looked for when the driver approves by itself, from
/// the most permissive down.
#[derive(Clone, Copy, Debug, PartialEq, Eq, Structural)]
pub enum Preference {
    /// Approves this and what follows.
    Always,
    /// Approves this once.
    Once,
    /// Approves in any other way that does not send the agent off to edit.
    Otherwise,
}

/// Whether a choice belongs to a class.
pub open spec fn preferred(preference: Preference, option: PermissionOptionView) -> bool {
    match preference {
        Preference::Always => {
            ||| option.id == "proceed_always"@
            ||| has_prefix(option.id, "proceed_always_"@)
            ||| option.id == "proceed_auto_run"@
        },
        Preference::Once => option.id == "proceed_once"@,
        Preference::Otherwise => option.allow && !has_prefix(option.id, "proceed_edit"@),
    }
}

/// Whether a choice belongs to a class.
fn prefers(preference: Preference, option: &PermissionOption) -> (yes: bool)
    ensures
        yes == preferred(preference, option@),
{
    match preference {
        Preference::Always => same_text(&option.id, "proceed_always") || starts_with(
            &option.id,
            "proceed_always_",
        ) || same_text(&option.id, "proceed_auto_run"),
        Preference::Once => same_text(&option.id, "proceed_once"),
        Preference::Otherwise => option.allow && !starts_with(&option.id, "proceed_edit"),
    }
}

/// The first choice of a class.
pub open spec fn first_preferred(
    options: Seq<PermissionOptionView>,
    preference: Preference,
) -> Option<PermissionOptionView>
    decreases options.len(),
{
    if options.len() == 0 {
        None
    } else if preferred(preference, options[0]) {
        Some(options[0])
    } else {
        first_preferred(options.drop_first(), preference)
    }
}

/// The first choice of a class.
fn find_preferred(options: &Vec<PermissionOption>, preference: Preference) -> (option: Option<
    &PermissionOption,
>)
    ensures
        match option {
            Some(option) => first_preferred(views(*options), preference) == Some(option@),
            None => first_preferred(views(*options), preference) is None,
        },
{
    let ghost all = views(*options);
    let mut i: usize = 0;
    assert(all.skip(0) =~= all);
    while i < options.len()
        invariant
            i <= options.len(),
            all == views(*options),
            first_preferred(all, preference) == first_preferred(all.skip(i as int), preference),
        decreases options.len() - i,
    {
        assert(all.skip(i as int)[0] == options@[i as int]@);
        assert(all.skip(i as int).drop_first() =~= all.skip(i + 1));
        if prefers(preference, &options[i]) {
            return Some(&options[i]);
        }
        i = i + 1;
    }
    None
}

/// What the driver answers when it approves by itself: the first choice of the most
/// permissive class that has one, and a rejection where none has.
pub open spec fn automatic_choice(options: Seq<PermissionOptionView>) -> Seq<char> {
    match first_preferred(options, Preference::Always) {
        Some(option) => option.id,
        None => match first_preferred(options, Preference::Once) {
            Some(option) => option.id,
            None => match first_preferred(options, Preference::Otherwise) {
                Some(option) => option.id,
                None => "cancel"@,
            },
        },
    }
}

/// What the driver answers when it approves by itself.
pub fn choose_automatically(options: &Vec<PermissionOption>) -> (option_id: String)
    ensures
        option_id@ == automatic_choice(views(*options)),
{
    match find_preferred(options, Preference::Always) {
        Some(option) => option.id.clone(),
        None => match find_preferred(options, Preference::Once) {
            Some(option) => option.id.clone(),
            None => match find_preferred(options, Preference::Otherwise) {
                Some(option) => option.id.clone(),
                None => "cancel".to_owned(),
            },
        },
    }
}

/// The name under which a tool use is shown.
pub open spec fn tool_name(tool_use: Option<JsonView>) -> Seq<char> {
    match tool_use {
        Some(tool_use) => text_or(tool_use.get_str("name"@), "Tool"@),
        None => "Tool"@,
    }
}

/// The arguments of a tool use.
pub open spec fn tool_input(tool_use: Option<JsonView>) -> Option<JsonView> {
    match tool_use {
        Some(tool_use) => tool_use.get("input"@),
        None => None,
    }
}

/// The title under which a permission request is shown.
pub open spec fn permission_title(
    tool_use: Option<JsonView>,
    wording: WordingView,
) -> Seq<char> {
    if tool_use is Some {
        text_or(wording.title, tool_name(tool_use))
    } else {
        tool_name(tool_use)
    }
}

/// The text that explains a permission request: the arguments written out, or that the
/// agent wants to use the tool.
pub open spec fn permission_detail(tool_use: Option<JsonView>, wording: WordingView) -> TextView {
    if tool_input(tool_use) is Some && wording.detail is Some {
        TextView::Plain(wording.detail->0)
    } else {
        TextView::Localized {
            key: "permission.agent_wants_to"@,
            parameter: "action"@,
            value: tool_name(tool_use),
        }
    }
}

/// What the driver asks for after a permission request.
pub open spec fn permission_step(
    id: Seq<char>,
    params: JsonView,
    wording: WordingView,
    state: StateView,
) -> StepView {
    let options = permission_options(params.get_items("options"@));
    let tool_use = first_tool_use(params.get_items("toolUses"@));
    if state.auto_approve {
        step_of(
            seq![EffectView::Send(response_envelope(id, selection(automatic_choice(options))))],
        )
    } else {
        step_checking(
            Seq::empty(),
            CheckedView {
                effect: EffectView::Emit(
                    DriverEventView::Permission {
                        request_id: id,
                        title: permission_title(tool_use, wording),
                        detail: permission_detail(tool_use, wording),
                        options,
                    },
                ),
                followup: FollowupView::Approval { request_id: id },
            },
        )
    }
}

/// The state after a permission request.
pub open spec fn permission_state(id: Seq<char>, state: StateView) -> StateView {
    if state.auto_approve {
        state
    } else {
        StateView {
            pending: put(state.pending, id, PendingView::Approval { rpc_id: id }),
            ..state
        }
    }
}

/// Takes in a permission request. Any non-Supervised mode picks the most permissive
/// option (always, then once) without interrupting the user.
pub fn handle_permission_request(
    id: &str,
    params: &Json,
    wording: Wording,
    state: &mut StreamState,
) -> (step: Step)
    ensures
        step@ == permission_step(id@, params@, wording@, old(state)@),
        final(state)@ == permission_state(id@, old(state)@),
{
    let options = read_options(params);
    let tool_use = read_tool_use(params);
    if state.auto_approve {
        let result = select_option(&choose_automatically(&options));
        return Step::of(one(Effect::Send(respond(id, result))));
    }
    let name = match tool_use {
        Some(tool_use) => match tool_use.get_string("name") {
            Some(name) => name,
            None => "Tool".to_owned(),
        },
        None => "Tool".to_owned(),
    };
    let has_input = match tool_use {
        Some(tool_use) => tool_use.get("input").is_some(),
        None => false,
    };
    let title = match (tool_use, wording.title) {
        (Some(_), Some(title)) => title,
        _ => name.clone(),
    };
    let detail = match (has_input, wording.detail) {
        (true, Some(detail)) => Text::Plain(detail),
        _ => Text::Localized {
            key: "permission.agent_wants_to".to_owned(),
            parameter: "action".to_owned(),
            value: name,
        },
    };
    state.pending.insert(id.to_owned(), PendingInteraction::Approval { rpc_id: id.to_owned() });
    let effects: Vec<Effect> = Vec::new();
    assert(views(effects) =~= Seq::empty());
    Step::checking(
        effects,
        Effect::Emit(
            DriverEvent::Permission { request_id: id.to_owned(), title, detail, options },
        ),
        Followup::Approval { request_id: id.to_owned() },
    )
}

} // verus!
