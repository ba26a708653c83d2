use droid_driver::codec::{json_text, parse_json};
use droid_driver::command::{handle_command, settle, CommandMessage};
use droid_driver::json::Json;
use droid_driver::message::{handle_message, read_subject};
use droid_driver::model::{DriverEvent, PermissionOption, Text};
use droid_driver::permission::{choose_automatically, handle_permission_request, Wording};
use droid_driver::question::handle_ask_user;
use droid_driver::stderr::StderrTail;
use droid_driver::stream::{Effect, Followup, Step, StreamState};
use droid_driver::wire::WireMessage;

fn json(text: &str) -> Json {
    parse_json(text).unwrap()
}

fn wordless() -> Wording {
    Wording { title: None, detail: None }
}

fn worded(title: &str, detail: &str) -> Wording {
    Wording { title: Some(title.to_string()), detail: Some(detail.to_string()) }
}

fn option(id: &str, label: &str, allow: bool) -> PermissionOption {
    PermissionOption { id: id.to_string(), label: label.to_string(), allow }
}

fn offered(ids: &[&str]) -> Vec<PermissionOption> {
    ids.iter().map(|id| option(id, id, id.starts_with("proceed_"))).collect()
}

fn all_written(effects: &[Effect]) -> Vec<String> {
    effects
        .iter()
        .map(|effect| match effect {
            Effect::Send(message) => json_text(message),
            other => panic!("nothing is sent by {other:?}"),
        })
        .collect()
}

fn response_text(id: &str, result: &str) -> String {
    format!("{{\"factoryApiVersion\":\"1.0.0\",\"id\":\"{id}\",\"jsonrpc\":\"2.0\",\"result\":{result},\"type\":\"response\"}}")
}

fn request(id: &str, method: &str, params: &str) -> WireMessage {
    WireMessage::Request {
        id: id.to_string(),
        method: method.to_string(),
        params: json(params),
    }
}

fn shown(step: Step, followup: Followup) -> DriverEvent {
    assert!(step.running);
    assert_eq!(step.effects, vec![]);
    let checked = step.checked.unwrap();
    assert_eq!(checked.followup, followup);
    match checked.effect {
        Effect::Emit(event) => event,
        other => panic!("nothing is shown by {other:?}"),
    }
}

const PERMISSION: &str = "{
    \"options\": [
        {\"value\": \"proceed_once\", \"label\": \"Yes\"},
        {\"label\": \"no value\"},
        {\"value\": \"proceed_always\"},
        {\"value\": \"cancel\", \"label\": 7}
    ],
    \"toolUses\": [
        {},
        {\"toolUse\": {\"name\": \"Execute\", \"input\": {\"command\": \"ls\"}}},
        {\"toolUse\": {\"name\": \"Other\"}}
    ]
}";

const QUESTION: &str = "{\"questions\": [{
    \"question\": \"Which colour?\",
    \"topic\": \"Colours\",
    \"options\": [\"Red\", 3, \"Blue\"]
}]}";

#[test]
fn automatic_approval_goes_from_always_to_once() {
    assert_eq!(
        choose_automatically(&offered(&["cancel", "proceed_once", "proceed_always"])),
        "proceed_always"
    );
    assert_eq!(
        choose_automatically(&offered(&["proceed_once", "proceed_always_tools", "proceed_always"])),
        "proceed_always_tools"
    );
    assert_eq!(
        choose_automatically(&offered(&["proceed_once", "proceed_auto_run"])),
        "proceed_auto_run"
    );
    assert_eq!(
        choose_automatically(&offered(&["proceed_other", "proceed_once"])),
        "proceed_once"
    );
    assert_eq!(
        choose_automatically(&offered(&["cancel", "proceed_edit", "proceed_alwaysish"])),
        "proceed_alwaysish"
    );
    assert_eq!(choose_automatically(&offered(&["proceed_edit", "proceed_editor"])), "cancel");
    assert_eq!(choose_automatically(&offered(&["cancel", "reject"])), "cancel");
    assert_eq!(choose_automatically(&vec![]), "cancel");
}

#[test]
fn unsupervised_sessions_do_not_ask() {
    let mut state = StreamState::new(true);
    let step = handle_permission_request("5", &json(PERMISSION), wordless(), &mut state);
    assert_eq!(
        all_written(&step.effects),
        vec![response_text("5", "{\"selectedOption\":\"proceed_always\"}")]
    );
    assert_eq!(step.checked, None);
    assert!(step.running);
    assert_eq!(state.pending.len(), 0);

    let step = handle_permission_request("6", &Json::Null, wordless(), &mut state);
    assert_eq!(
        all_written(&step.effects),
        vec![response_text("6", "{\"selectedOption\":\"cancel\"}")]
    );
}

#[test]
fn supervised_sessions_ask() {
    let mut state = StreamState::new(false);
    let params = json(PERMISSION);
    let step = handle_permission_request("5", &params, worded("ls", "pretty"), &mut state);
    let event = shown(step, Followup::Approval { request_id: "5".to_string() });
    assert_eq!(
        event,
        DriverEvent::Permission {
            request_id: "5".to_string(),
            title: "ls".to_string(),
            detail: Text::Plain("pretty".to_string()),
            options: vec![
                option("proceed_once", "Yes", true),
                option("proceed_always", "proceed_always", true),
                option("cancel", "cancel", false),
            ],
        }
    );
    assert!(state.pending.get("5").is_some());
}

#[test]
fn a_request_without_words_names_the_tool() {
    let mut state = StreamState::new(false);
    let params = json(PERMISSION);
    let step = handle_permission_request("5", &params, wordless(), &mut state);
    match shown(step, Followup::Approval { request_id: "5".to_string() }) {
        DriverEvent::Permission { title, detail, .. } => {
            assert_eq!(title, "Execute");
            assert_eq!(
                detail,
                Text::Localized {
                    key: "permission.agent_wants_to".to_string(),
                    parameter: "action".to_string(),
                    value: "Execute".to_string(),
                }
            );
        }
        other => panic!("unexpected {other:?}"),
    }
}

#[test]
fn a_request_without_a_tool_is_shown_too() {
    let mut state = StreamState::new(false);
    let step = handle_permission_request("5", &json("{}"), worded("a", "b"), &mut state);
    assert_eq!(
        shown(step, Followup::Approval { request_id: "5".to_string() }),
        DriverEvent::Permission {
            request_id: "5".to_string(),
            title: "Tool".to_string(),
            detail: Text::Localized {
                key: "permission.agent_wants_to".to_string(),
                parameter: "action".to_string(),
                value: "Tool".to_string(),
            },
            options: vec![],
        }
    );
}

#[test]
fn the_subject_of_a_permission_request_is_its_first_tool_use() {
    let message = request("5", "droid.request_permission", PERMISSION);
    assert_eq!(read_subject(&message), Some(json("{\"command\": \"ls\"}")));
    let message = request(
        "5",
        "droid.request_permission",
        "{\"toolUses\": [{\"toolUse\": {\"input\": null}}]}",
    );
    assert_eq!(read_subject(&message), Some(Json::Null));
    assert_eq!(read_subject(&request("5", "droid.request_permission", "{}")), None);
    assert_eq!(read_subject(&request("5", "droid.ask_user", PERMISSION)), None);
}

#[test]
fn one_question_is_put_to_the_user() {
    let mut state = StreamState::new(true);
    let step = handle_ask_user("8", &json(QUESTION), &mut state);
    assert_eq!(
        shown(step, Followup::Question { request_id: "8".to_string() }),
        DriverEvent::Permission {
            request_id: "8".to_string(),
            title: "Colours".to_string(),
            detail: Text::Plain("Which colour?".to_string()),
            options: vec![option("answer-0", "Red", false), option("answer-2", "Blue", false)],
        }
    );
    let mut sequence = 0;
    let step = handle_command(
        CommandMessage::Respond {
            request_id: "8".to_string(),
            option_id: "answer-2".to_string(),
        },
        &mut state,
        &mut sequence,
    );
    assert_eq!(
        all_written(&step.effects),
        vec![response_text(
            "8",
            "{\"answers\":[{\"answer\":\"Blue\",\"index\":2,\"question\":\"Which colour?\"}],\"cancelled\":false}"
        )]
    );
}

#[test]
fn a_question_without_a_topic_has_a_title() {
    for topic in ["", "\"topic\": \" \\t\\u00a0\",", "\"topic\": 4,"] {
        let mut state = StreamState::new(false);
        let params = format!("{{\"questions\": [{{{topic} \"options\": [\"a\"]}}]}}");
        let step = handle_ask_user("8", &json(&params), &mut state);
        match shown(step, Followup::Question { request_id: "8".to_string() }) {
            DriverEvent::Permission { title, detail, .. } => {
                assert_eq!(title, "Droid question");
                assert_eq!(detail, Text::Plain(String::new()));
            }
            other => panic!("unexpected {other:?}"),
        }
    }
    let mut state = StreamState::new(false);
    let params = json("{\"questions\": [{\"topic\": \" a \", \"options\": [\"a\"]}]}");
    let step = handle_ask_user("8", &params, &mut state);
    match shown(step, Followup::Question { request_id: "8".to_string() }) {
        DriverEvent::Permission { title, .. } => assert_eq!(title, " a "),
        other => panic!("unexpected {other:?}"),
    }
}

#[test]
fn other_questions_are_declined() {
    for params in [
        "{}",
        "null",
        "{\"questions\": {}}",
        "{\"questions\": []}",
        "{\"questions\": [{\"options\": [\"a\"]}, {\"options\": [\"b\"]}]}",
        "{\"questions\": [{\"multiSelect\": true, \"options\": [\"a\"]}]}",
        "{\"questions\": [{\"options\": []}]}",
        "{\"questions\": [{\"options\": \"a\"}]}",
        "{\"questions\": [[\"options\"]]}",
        "{\"questions\": [{}]}",
    ] {
        let mut state = StreamState::new(false);
        let step = handle_ask_user("8", &json(params), &mut state);
        assert!(step.running);
        assert_eq!(step.checked, None);
        assert_eq!(
            all_written(&step.effects[..1]),
            vec![response_text("8", "{\"answers\":[],\"cancelled\":true}")]
        );
        assert_eq!(
            step.effects[1..],
            [Effect::Emit(DriverEvent::Error(
                "Waku currently supports one single-select Droid question at a time".to_string()
            ))]
        );
        assert_eq!(state.pending.len(), 0);
    }
    let mut state = StreamState::new(false);
    let params = json("{\"questions\": [{\"multiSelect\": \"true\", \"options\": [1]}]}");
    let step = handle_ask_user("8", &params, &mut state);
    match shown(step, Followup::Question { request_id: "8".to_string() }) {
        DriverEvent::Permission { options, .. } => assert_eq!(options, vec![]),
        other => panic!("unexpected {other:?}"),
    }
}

#[test]
fn unknown_requests_are_rejected() {
    let mut state = StreamState::new(false);
    let step = handle_message(
        request("9", "droid.sing", "{}"),
        wordless(),
        &mut state,
        &StderrTail::new(),
    );
    assert!(step.running);
    assert_eq!(step.checked, None);
    assert_eq!(
        all_written(&step.effects[..1]),
        vec![response_text("9", "{\"selectedOption\":\"cancel\"}")]
    );
    assert_eq!(
        step.effects[1..],
        [Effect::Emit(DriverEvent::Error(
            "Droid sent an unsupported request: droid.sing".to_string()
        ))]
    );
}

#[test]
fn messages_find_their_handlers() {
    let mut state = StreamState::new(false);
    let step = handle_message(
        request("1", "droid.request_permission", PERMISSION),
        worded("a", "b"),
        &mut state,
        &StderrTail::new(),
    );
    let mut other = StreamState::new(false);
    assert_eq!(
        step,
        handle_permission_request("1", &json(PERMISSION), worded("a", "b"), &mut other)
    );
    let step = handle_message(
        request("2", "droid.ask_user", QUESTION),
        wordless(),
        &mut state,
        &StderrTail::new(),
    );
    assert_eq!(step, handle_ask_user("2", &json(QUESTION), &mut other));
    assert_eq!(state.pending.len(), 2);
    assert_eq!(other.pending.len(), 2);
}

#[test]
fn a_repeated_request_waits_once() {
    let mut state = StreamState::new(false);
    for _ in 0..3 {
        let _ = handle_permission_request("1", &json(PERMISSION), wordless(), &mut state);
    }
    assert_eq!(state.pending.len(), 1);
    let _ = handle_ask_user("1", &json(QUESTION), &mut state);
    assert_eq!(state.pending.len(), 1);
    let mut sequence = 0;
    let step = handle_command(CommandMessage::Cancel, &mut state, &mut sequence);
    assert_eq!(
        all_written(&step.effects),
        vec![response_text("1", "{\"answers\":[],\"cancelled\":true}")]
    );
}

#[test]
fn a_request_that_is_not_shown_is_answered_and_forgotten() {
    let mut state = StreamState::new(false);
    let step = handle_permission_request("1", &json(PERMISSION), wordless(), &mut state);
    let effects =
        settle(step.checked.unwrap().followup, Some("gone".to_string()), &mut state);
    assert_eq!(
        all_written(&effects),
        vec![response_text("1", "{\"selectedOption\":\"cancel\"}")]
    );
    assert_eq!(state.pending.len(), 0);
}
