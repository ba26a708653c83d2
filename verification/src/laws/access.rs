//! What holds of access modes and automatic approval.

use crate::command::{autonomy, command_state, command_step, settled_state, CommandView};
use crate::json::JsonView;
use crate::message::message_state;
use crate::model::{
    DriverEventView, InteractionMode, PermissionOptionView, RuntimeMode, SessionOptionsView,
};
use crate::permission::{
    automatic_choice, first_preferred, permission_options, permission_state, permission_step,
    preferred, Preference, WordingView,
};
use crate::reply::selection;
use crate::session::{planned, StartOptionsView};
use crate::stream::{step_of, EffectView, FollowupView, PendingView, StateView};
use crate::table::put;
use crate::text::has_prefix;
use crate::wire::{response_envelope, WireMessageView};
use vstd::prelude::*;

verus! {

/// The place of an autonomy level on the ladder.
pub open spec fn rung(level: Seq<char>) -> int {
    if level == "off"@ {
        0
    } else if level == "low"@ {
        1
    } else if level == "medium"@ {
        2
    } else if level == "high"@ {
        3
    } else {
        -1
    }
}

/// How much an access mode allows while something is built.
pub open spec fn access(mode: RuntimeMode) -> int {
    match mode {
        RuntimeMode::Ask => 0,
        RuntimeMode::Plan => 1,
        RuntimeMode::AutoAcceptEdits => 1,
        RuntimeMode::Auto => 2,
        RuntimeMode::FullAccess => 3,
    }
}

/// The autonomy levels differ.
proof fn lemma_levels()
    ensures
        "off"@ != "low"@,
        "off"@ != "medium"@,
        "off"@ != "high"@,
        "low"@ != "medium"@,
        "low"@ != "high"@,
        "medium"@ != "high"@,
{
    reveal_strlit("off");
    reveal_strlit("low");
    reveal_strlit("medium");
    reveal_strlit("high");
    assert("off"@[0] == 'o');
    assert("low"@[0] == 'l');
    assert("off"@.len() == 3);
    assert("medium"@.len() == 6);
    assert("high"@.len() == 4);
}

/// The autonomy levels follow the access ladder: a mode that allows more gets a level
/// that is no lower, and a mode that allows strictly more a higher one.
pub proof fn law_autonomy_follows_access(lower: RuntimeMode, higher: RuntimeMode)
    ensures
        rung(autonomy(lower, InteractionMode::Build)) == access(lower),
        access(lower) <= access(higher) ==> rung(autonomy(lower, InteractionMode::Build)) <= rung(
            autonomy(higher, InteractionMode::Build),
        ),
        access(lower) < access(higher) ==> rung(autonomy(lower, InteractionMode::Build)) < rung(
            autonomy(higher, InteractionMode::Build),
        ),
{
    lemma_levels();
}

/// Whoever plans, by either setting, gets the level `low`, whatever the other setting.
pub proof fn law_planning_is_low(mode: RuntimeMode, interaction_mode: InteractionMode)
    requires
        mode == RuntimeMode::Plan || interaction_mode == InteractionMode::Plan,
    ensures
        autonomy(mode, interaction_mode) == "low"@,
{
}

/// The first choice of a class is one of the choices, belongs to the class, and is
/// missing only where no choice belongs to it.
proof fn lemma_first_preferred(options: Seq<PermissionOptionView>, preference: Preference)
    ensures
        match first_preferred(options, preference) {
            Some(option) => options.contains(option) && preferred(preference, option),
            None => forall|i: int|
                0 <= i < options.len() ==> !preferred(preference, #[trigger] options[i]),
        },
    decreases options.len(),
{
    if options.len() > 0 && !preferred(preference, options[0]) {
        let rest = options.drop_first();
        lemma_first_preferred(rest, preference);
        match first_preferred(rest, preference) {
            Some(option) => {
                let i = choose|i: int| 0 <= i < rest.len() && rest[i] == option;
                assert(options[i + 1] == option);
            },
            None => {
                assert forall|i: int| 0 <= i < options.len() implies !preferred(
                    preference,
                    #[trigger] options[i],
                ) by {
                    if i > 0 {
                        assert(options[i] == rest[i - 1]);
                    }
                }
            },
        }
    } else if options.len() > 0 {
        assert(options.contains(options[0]));
    }
}

/// A class of choices is open to the driver where no more permissive class has a choice.
pub open spec fn most_permissive(
    options: Seq<PermissionOptionView>,
    option: PermissionOptionView,
) -> bool {
    ||| preferred(Preference::Always, option)
    ||| preferred(Preference::Once, option) && none_of(options, Preference::Always)
    ||| preferred(Preference::Otherwise, option) && none_of(options, Preference::Always)
        && none_of(options, Preference::Once)
}

/// No choice belongs to a class.
pub open spec fn none_of(options: Seq<PermissionOptionView>, preference: Preference) -> bool {
    forall|i: int| 0 <= i < options.len() ==> !preferred(preference, #[trigger] options[i])
}

/// The driver approves by itself with an offered choice of the most permissive class
/// (always, then once, then any other way), and rejects only where no class has one.
pub proof fn law_automatic_choice_is_most_permissive(options: Seq<PermissionOptionView>)
    ensures
        none_of(options, Preference::Always) && none_of(options, Preference::Once) && none_of(
            options,
            Preference::Otherwise,
        ) ==> automatic_choice(options) == "cancel"@,
        !(none_of(options, Preference::Always) && none_of(options, Preference::Once) && none_of(
            options,
            Preference::Otherwise,
        )) ==> exists|i: int|
            0 <= i < options.len() && (#[trigger] options[i]).id == automatic_choice(options)
                && most_permissive(options, options[i]),
{
    lemma_first_preferred(options, Preference::Always);
    lemma_first_preferred(options, Preference::Once);
    lemma_first_preferred(options, Preference::Otherwise);
    let chosen = match first_preferred(options, Preference::Always) {
        Some(option) => Some(option),
        None => match first_preferred(options, Preference::Once) {
            Some(option) => Some(option),
            None => first_preferred(options, Preference::Otherwise),
        },
    };
    if chosen is Some {
        let i = choose|i: int| 0 <= i < options.len() && options[i] == chosen->0;
        assert(options[i].id == automatic_choice(options) && most_permissive(options, options[i]));
    }
}

/// The choices that a permission request offers allow exactly what begins with
/// `proceed_`.
pub proof fn law_options_allow_proceeding(entries: Seq<JsonView>, i: int)
    requires
        0 <= i < permission_options(entries).len(),
    ensures
        permission_options(entries)[i].allow == has_prefix(
            permission_options(entries)[i].id,
            "proceed_"@,
        ),
    decreases entries.len(),
{
    if entries.len() > 0 {
        let before = permission_options(entries.drop_last());
        if i < before.len() {
            law_options_allow_proceeding(entries.drop_last(), i);
        }
    }
}

/// A text that begins with a longer prefix begins with what that prefix begins with.
proof fn lemma_prefix_chain(text: Seq<char>, longer: Seq<char>, shorter: Seq<char>)
    requires
        has_prefix(text, longer),
        has_prefix(longer, shorter),
    ensures
        has_prefix(text, shorter),
{
    assert(text.take(shorter.len() as int) =~= text.take(longer.len() as int).take(
        shorter.len() as int,
    ));
}

/// The driver never approves by itself with a choice that does not allow, nor with one
/// that sends the agent off to edit: what it answers is `cancel`, or begins with
/// `proceed_` and not with `proceed_edit`.
pub proof fn law_automatic_choice_allows(entries: Seq<JsonView>)
    ensures
        automatic_choice(permission_options(entries)) == "cancel"@ || (has_prefix(
            automatic_choice(permission_options(entries)),
            "proceed_"@,
        ) && !has_prefix(automatic_choice(permission_options(entries)), "proceed_edit"@)),
{
    let options = permission_options(entries);
    let choice = automatic_choice(options);
    reveal_strlit("proceed_");
    reveal_strlit("proceed_edit");
    reveal_strlit("proceed_always");
    reveal_strlit("proceed_always_");
    reveal_strlit("proceed_auto_run");
    reveal_strlit("proceed_once");
    assert("proceed_edit"@[8] == 'e');
    assert("proceed_always"@[8] == 'a');
    assert("proceed_always_"@[8] == 'a');
    assert("proceed_auto_run"@[8] == 'a');
    assert("proceed_once"@[8] == 'o');
    assert("proceed_always"@.take(8) =~= "proceed_"@);
    assert("proceed_always_"@.take(8) =~= "proceed_"@);
    assert("proceed_auto_run"@.take(8) =~= "proceed_"@);
    assert("proceed_once"@.take(8) =~= "proceed_"@);
    lemma_first_preferred(options, Preference::Always);
    lemma_first_preferred(options, Preference::Once);
    lemma_first_preferred(options, Preference::Otherwise);
    match first_preferred(options, Preference::Always) {
        Some(option) => {
            if has_prefix(option.id, "proceed_always_"@) {
                lemma_prefix_chain(option.id, "proceed_always_"@, "proceed_"@);
                assert(option.id[8] == option.id.take(15)[8]);
            }
            if has_prefix(choice, "proceed_edit"@) {
                assert(choice[8] == choice.take(12)[8]);
            }
        },
        None => match first_preferred(options, Preference::Once) {
            Some(_) => {
                if has_prefix(choice, "proceed_edit"@) {
                    assert(choice[8] == choice.take(12)[8]);
                }
            },
            None => match first_preferred(options, Preference::Otherwise) {
                Some(option) => {
                    let i = choose|i: int| 0 <= i < options.len() && options[i] == option;
                    law_options_allow_proceeding(entries, i);
                },
                None => {},
            },
        },
    }
}

/// Outside the supervised mode a permission request is answered at once, the user is not
/// interrupted, and nothing is left waiting. In the supervised mode nothing is answered
/// before the user has chosen: the request is shown and waits.
pub proof fn law_only_supervised_sessions_ask(
    id: Seq<char>,
    params: JsonView,
    wording: WordingView,
    state: StateView,
)
    ensures
        state.auto_approve ==> permission_step(id, params, wording, state) == step_of(
            seq![
                EffectView::Send(
                    response_envelope(
                        id,
                        selection(automatic_choice(permission_options(params.get_items("options"@)))),
                    ),
                ),
            ],
        ) && permission_state(id, state) == state,
        !state.auto_approve ==> {
            let step = permission_step(id, params, wording, state);
            &&& step.effects.len() == 0
            &&& step.checked matches Some(checked)
            &&& checked.effect matches EffectView::Emit(DriverEventView::Permission {
                request_id,
                ..
            })
            &&& request_id == id
            &&& permission_state(id, state).pending == put(
                state.pending,
                id,
                PendingView::Approval { rpc_id: id },
            )
        },
{
}

/// A session approves by itself exactly where it was started, or last successfully
/// changed, outside the supervised mode. No command as such, no other outcome and no
/// message of the process changes that.
pub proof fn law_supervision_follows_settings(
    options: StartOptionsView,
    settings: SessionOptionsView,
    state: StateView,
    sequence: u64,
    command: CommandView,
    followup: FollowupView,
    failed: bool,
    message: WireMessageView,
    wording: WordingView,
)
    ensures
        planned(options) matches Ok(launch) ==> launch.auto_approve == (options.mode
            != RuntimeMode::Ask),
        command_step(CommandView::ApplyOptions(settings), state, sequence).checked matches Some(
            checked,
        ) && {
            &&& settled_state(checked.followup, false, state).auto_approve == (settings.mode
                != RuntimeMode::Ask)
            &&& settled_state(checked.followup, true, state) == state
        },
        command_state(command, state).auto_approve == state.auto_approve,
        !(followup is Options) ==> settled_state(followup, failed, state).auto_approve
            == state.auto_approve,
        message_state(message, wording, state).auto_approve == state.auto_approve,
{
}

} // verus!
