use droid_driver::codec::json_text;
use droid_driver::command::{autonomy_level, handle_command, set_optional, settle, CommandMessage};
use droid_driver::json::Json;
use droid_driver::model::{DriverEvent, InteractionMode, RuntimeMode, SessionOptions, Text};
use droid_driver::reply::{cancel_pending, decline, give_answer, reject, select_option};
use droid_driver::stream::{
    Answer, Checked, Effect, Followup, PendingInteraction, Step, StreamState, ToolRecord,
};
use droid_driver::table::Table;

fn prompt(text: &str) -> CommandMessage {
    CommandMessage::Prompt(text.to_string())
}

fn choice(request_id: &str, option_id: &str) -> CommandMessage {
    CommandMessage::Respond {
        request_id: request_id.to_string(),
        option_id: option_id.to_string(),
    }
}

fn error(text: &str) -> Effect {
    Effect::Emit(DriverEvent::Error(text.to_string()))
}

fn written(effect: &Effect) -> String {
    match effect {
        Effect::Send(message) => json_text(message),
        other => panic!("nothing is sent by {other:?}"),
    }
}

fn all_written(effects: &[Effect]) -> Vec<String> {
    effects.iter().map(written).collect()
}

fn request_text(id: &str, method: &str, params: &str) -> String {
    format!("{{\"factoryApiVersion\":\"1.0.0\",\"id\":\"{id}\",\"jsonrpc\":\"2.0\",\"method\":\"{method}\",\"params\":{params},\"type\":\"request\"}}")
}

fn response_text(id: &str, result: &str) -> String {
    format!("{{\"factoryApiVersion\":\"1.0.0\",\"id\":\"{id}\",\"jsonrpc\":\"2.0\",\"result\":{result},\"type\":\"response\"}}")
}

fn checked(step: Step) -> Checked {
    assert!(step.running);
    step.checked.unwrap()
}

fn waiting() -> StreamState {
    let mut state = StreamState::new(false);
    let mut answers = Table::new();
    answers.insert(
        "answer-1".to_string(),
        Answer { index: 1, question: "Which?".to_string(), answer: "Blue".to_string() },
    );
    state.pending.insert(
        "p".to_string(),
        PendingInteraction::Approval { rpc_id: "p".to_string() },
    );
    state.pending.insert(
        "q".to_string(),
        PendingInteraction::Question { rpc_id: "q".to_string(), answers },
    );
    state
}

#[test]
fn plans_never_act_alone() {
    for mode in [
        RuntimeMode::Ask,
        RuntimeMode::AutoAcceptEdits,
        RuntimeMode::Auto,
        RuntimeMode::FullAccess,
        RuntimeMode::Plan,
    ] {
        assert_eq!(autonomy_level(mode, InteractionMode::Plan), "low");
    }
    assert_eq!(autonomy_level(RuntimeMode::Plan, InteractionMode::Build), "low");
}

#[test]
fn a_session_starts_idle() {
    let state = StreamState::new(true);
    assert!(!state.turn_active);
    assert!(state.auto_approve);
    assert_eq!(state.tools.len(), 0);
    assert_eq!(state.pending.len(), 0);
}

#[test]
fn the_first_prompt_starts_the_turn() {
    let mut state = StreamState::new(false);
    let mut sequence = 3;
    let step = handle_command(prompt("Hello"), &mut state, &mut sequence);
    assert_eq!(step.effects, vec![Effect::Emit(DriverEvent::TurnStarted)]);
    assert!(state.turn_active);
    assert_eq!(sequence, 4);
    let check = checked(step);
    assert_eq!(check.followup, Followup::Prompt);
    assert_eq!(
        written(&check.effect),
        request_text("waku-3", "droid.add_user_message", "{\"text\":\"Hello\"}")
    );
    assert_eq!(settle(check.followup, None, &mut state), vec![]);
    assert!(state.turn_active);

    let step = handle_command(prompt("More"), &mut state, &mut sequence);
    assert_eq!(step.effects, vec![]);
    assert!(state.turn_active);
    assert_eq!(
        written(&checked(step).effect),
        request_text("waku-4", "droid.add_user_message", "{\"text\":\"More\"}")
    );
}

#[test]
fn an_unsent_prompt_ends_the_turn() {
    let mut state = StreamState::new(false);
    let mut sequence = 0;
    let step = handle_command(prompt("Hello"), &mut state, &mut sequence);
    let effects =
        settle(checked(step).followup, Some("Broken pipe (os error 32)".to_string()), &mut state);
    assert_eq!(
        effects,
        vec![
            error("Droid rejected the prompt: Broken pipe (os error 32)"),
            Effect::Emit(DriverEvent::TurnFinished {
                success: false,
                summary: Some(Text::Plain("Droid could not start the turn".to_string())),
            }),
        ]
    );
    assert!(!state.turn_active);
}

#[test]
fn steering_waits_for_the_end_of_the_turn() {
    let mut state = StreamState::new(false);
    let mut sequence = 0;
    let step = handle_command(CommandMessage::Steer("left".to_string()), &mut state, &mut sequence);
    assert_eq!(step.effects, vec![]);
    assert!(!state.turn_active);
    let check = checked(step);
    assert_eq!(
        written(&check.effect),
        request_text(
            "waku-0",
            "droid.add_user_message",
            "{\"queuePlacement\":\"end_of_turn\",\"text\":\"left\"}"
        )
    );
    assert_eq!(
        settle(check.followup, None, &mut state),
        vec![Effect::Emit(DriverEvent::SteerAccepted { message: "left".to_string() })]
    );
    assert_eq!(
        settle(
            Followup::Steer { message: "left".to_string() },
            Some("closed".to_string()),
            &mut state
        ),
        vec![Effect::Emit(DriverEvent::SteerRejected {
            message: "left".to_string(),
            reason: "closed".to_string(),
        })]
    );
}

#[test]
fn cancelling_calls_off_everything_that_waits() {
    let mut state = waiting();
    state.turn_active = true;
    let mut sequence = 9;
    let step = handle_command(CommandMessage::Cancel, &mut state, &mut sequence);
    assert_eq!(
        all_written(&step.effects),
        vec![
            response_text("p", "{\"selectedOption\":\"cancel\"}"),
            response_text("q", "{\"answers\":[],\"cancelled\":true}"),
        ]
    );
    assert_eq!(state.pending.len(), 0);
    assert!(state.turn_active);
    let check = checked(step);
    assert_eq!(
        written(&check.effect),
        request_text("waku-9", "droid.interrupt_session", "{}")
    );
    assert_eq!(
        settle(check.followup, Some("closed".to_string()), &mut state),
        vec![error("Droid could not cancel the turn: closed")]
    );
    assert_eq!(settle(Followup::Interrupt, None, &mut state), vec![]);

    let step = handle_command(CommandMessage::Cancel, &mut state, &mut sequence);
    assert_eq!(step.effects, vec![]);
}

#[test]
fn an_approval_passes_the_choice_on_once() {
    let mut state = waiting();
    let mut sequence = 5;
    let step = handle_command(choice("p", "proceed_once"), &mut state, &mut sequence);
    assert_eq!(
        all_written(&step.effects),
        vec![response_text("p", "{\"selectedOption\":\"proceed_once\"}")]
    );
    assert_eq!(step.checked, None);
    assert!(step.running);
    assert_eq!(sequence, 5);
    assert_eq!(state.pending.len(), 1);

    let step = handle_command(choice("p", "proceed_once"), &mut state, &mut sequence);
    assert_eq!(step, Step { effects: vec![], checked: None, running: true });
}

#[test]
fn a_question_gets_the_answer_that_was_chosen() {
    let mut state = waiting();
    let mut sequence = 0;
    let step = handle_command(choice("q", "answer-1"), &mut state, &mut sequence);
    assert_eq!(
        all_written(&step.effects),
        vec![response_text(
            "q",
            "{\"answers\":[{\"answer\":\"Blue\",\"index\":1,\"question\":\"Which?\"}],\"cancelled\":false}"
        )]
    );
    assert!(state.pending.get("q").is_none());
    assert!(state.pending.get("p").is_some());
}

#[test]
fn an_answer_that_a_question_lacks_is_refused() {
    let mut state = waiting();
    let mut sequence = 0;
    let step = handle_command(choice("q", "answer-7"), &mut state, &mut sequence);
    assert_eq!(
        step.effects,
        vec![error(
            "Droid rejected the interaction response: the selected answer is unavailable"
        )]
    );
    assert!(state.pending.get("q").is_none());
}

#[test]
fn settings_take_effect_once_they_are_sent() {
    let mut state = StreamState::new(false);
    let mut sequence = 0;
    let options = SessionOptions {
        mode: RuntimeMode::Auto,
        interaction_mode: InteractionMode::Build,
        model: Some("m".to_string()),
        reasoning_effort: Some("high".to_string()),
    };
    let step = handle_command(CommandMessage::ApplyOptions(options), &mut state, &mut sequence);
    assert!(!state.auto_approve);
    let check = checked(step);
    assert_eq!(
        written(&check.effect),
        request_text(
            "waku-0",
            "droid.update_session_settings",
            "{\"autonomyLevel\":\"medium\",\"modelId\":\"m\",\"reasoningEffort\":\"high\"}"
        )
    );
    assert_eq!(settle(check.followup, None, &mut state), vec![]);
    assert!(state.auto_approve);

    let options = SessionOptions {
        mode: RuntimeMode::Ask,
        interaction_mode: InteractionMode::Plan,
        model: None,
        reasoning_effort: None,
    };
    let step = handle_command(CommandMessage::ApplyOptions(options), &mut state, &mut sequence);
    let check = checked(step);
    assert_eq!(check.followup, Followup::Options { auto_approve: false });
    assert_eq!(
        written(&check.effect),
        request_text("waku-1", "droid.update_session_settings", "{\"autonomyLevel\":\"low\"}")
    );
    assert_eq!(
        settle(check.followup, Some("closed".to_string()), &mut state),
        vec![error("Droid could not apply the session options: closed")]
    );
    assert!(state.auto_approve);
}

#[test]
fn shutting_down_closes_the_session() {
    let mut state = StreamState::new(false);
    let mut sequence = 2;
    let step = handle_command(CommandMessage::Shutdown, &mut state, &mut sequence);
    assert!(!step.running);
    assert_eq!(step.checked, None);
    assert_eq!(step.effects.len(), 2);
    assert_eq!(
        written(&step.effects[0]),
        request_text("waku-2", "droid.close_session", "{\"reason\":\"other\"}")
    );
    assert_eq!(step.effects[1], Effect::Flush);
    assert_eq!(sequence, 3);
}

#[test]
fn requests_that_could_not_be_shown_are_called_off() {
    let mut state = waiting();
    let effects = settle(
        Followup::Approval { request_id: "p".to_string() },
        Some("no receiver".to_string()),
        &mut state,
    );
    assert_eq!(
        all_written(&effects),
        vec![response_text("p", "{\"selectedOption\":\"cancel\"}")]
    );
    let effects = settle(
        Followup::Question { request_id: "q".to_string() },
        Some("no receiver".to_string()),
        &mut state,
    );
    assert_eq!(
        all_written(&effects),
        vec![response_text("q", "{\"answers\":[],\"cancelled\":true}")]
    );
    assert_eq!(state.pending.len(), 0);
}

#[test]
fn requests_that_were_shown_go_on_waiting() {
    let mut state = waiting();
    assert_eq!(
        settle(Followup::Approval { request_id: "p".to_string() }, None, &mut state),
        vec![]
    );
    assert_eq!(
        settle(Followup::Question { request_id: "q".to_string() }, None, &mut state),
        vec![]
    );
    assert_eq!(state.pending.len(), 2);
}

#[test]
fn commands_leave_the_tools_alone() {
    for message in [
        prompt("x"),
        CommandMessage::Steer("x".to_string()),
        CommandMessage::Cancel,
        choice("p", "x"),
        CommandMessage::Shutdown,
    ] {
        let mut state = waiting();
        state.tools.insert(
            "t".to_string(),
            ToolRecord { tool_name: "Read".to_string(), title: "a.rs".to_string() },
        );
        let mut sequence = 0;
        let _ = handle_command(message, &mut state, &mut sequence);
        assert_eq!(
            state.tools.get("t"),
            Some(&ToolRecord { tool_name: "Read".to_string(), title: "a.rs".to_string() })
        );
    }
}

#[test]
fn results_have_their_exact_texts() {
    assert_eq!(json_text(&select_option("x")), "{\"selectedOption\":\"x\"}");
    assert_eq!(json_text(&reject()), "{\"selectedOption\":\"cancel\"}");
    assert_eq!(json_text(&decline()), "{\"answers\":[],\"cancelled\":true}");
    let answer = Answer { index: 12, question: "?".to_string(), answer: "!".to_string() };
    assert_eq!(
        json_text(&give_answer(&answer)),
        "{\"answers\":[{\"answer\":\"!\",\"index\":12,\"question\":\"?\"}],\"cancelled\":false}"
    );
    assert_eq!(
        json_text(&cancel_pending(&PendingInteraction::Approval { rpc_id: "7".to_string() })),
        response_text("7", "{\"selectedOption\":\"cancel\"}")
    );
}

#[test]
fn optional_fields_are_left_out() {
    assert_eq!(set_optional(Json::object(), "a", &None), Json::object());
    assert_eq!(
        json_text(&set_optional(Json::object(), "a", &Some(String::new()))),
        "{\"a\":\"\"}"
    );
}
