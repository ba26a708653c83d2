use droid_driver::codec::parse_json;
use droid_driver::json::Json;
use droid_driver::message::{check_countable, handle_message, read_subject};
use droid_driver::model::{DriverEvent, Text, ToolActivity};
use droid_driver::notification::{check_usage, handle_notification, tool_activity};
use droid_driver::permission::Wording;
use droid_driver::stderr::StderrTail;
use droid_driver::stream::{Effect, Step, StreamState, ToolRecord};
use droid_driver::wire::WireMessage;

fn json(text: &str) -> Json {
    parse_json(text).unwrap()
}

fn wordless() -> Wording {
    Wording { title: None, detail: None }
}

fn titled(title: &str) -> Wording {
    Wording { title: Some(title.to_string()), detail: None }
}

fn events(step: Step) -> Vec<DriverEvent> {
    assert!(step.running);
    assert_eq!(step.checked, None);
    step.effects
        .into_iter()
        .map(|effect| match effect {
            Effect::Emit(event) => event,
            other => panic!("unexpected {other:?}"),
        })
        .collect()
}

fn notified(text: &str, state: &mut StreamState) -> Vec<DriverEvent> {
    events(handle_notification(&json(text), wordless(), state))
}

fn notification(text: &str) -> WireMessage {
    WireMessage::Notification {
        method: "droid.session_notification".to_string(),
        params: Json::object().with("notification", json(text)),
    }
}

fn activity(
    id: Option<&str>,
    tool_name: &str,
    title: &str,
    arguments: Option<&str>,
    output: Option<&str>,
) -> ToolActivity {
    ToolActivity {
        id: id.map(str::to_string),
        tool_name: tool_name.to_string(),
        title: title.to_string(),
        arguments: arguments.map(json),
        output: output.map(json),
        failed: false,
        complete: false,
    }
}

#[test]
fn pieces_of_text_are_passed_on() {
    let mut state = StreamState::new(false);
    assert_eq!(
        notified("{\"type\": \"assistant_text_delta\", \"textDelta\": \"Hi\"}", &mut state),
        vec![DriverEvent::TextDelta("Hi".to_string())]
    );
    assert_eq!(
        notified("{\"type\": \"thinking_text_delta\", \"textDelta\": \"Hm\"}", &mut state),
        vec![DriverEvent::ReasoningDelta("Hm".to_string())]
    );
    for silent in [
        "{\"type\": \"assistant_text_delta\", \"textDelta\": \"\"}",
        "{\"type\": \"assistant_text_delta\"}",
        "{\"type\": \"thinking_text_delta\", \"textDelta\": 1}",
        "{\"type\": \"thinking_text_delta\", \"textDelta\": \"\"}",
    ] {
        assert_eq!(notified(silent, &mut state), vec![]);
    }
}

#[test]
fn a_tool_keeps_the_title_of_its_call() {
    let mut state = StreamState::new(false);
    let call = json(
        "{\"type\": \"tool_call\", \"toolUse\": {\"id\": \"t\", \"name\": \"Read\", \"input\": {\"path\": \"a.rs\"}}}",
    );
    let step = handle_notification(&call, titled("a.rs"), &mut state);
    assert_eq!(
        events(step),
        vec![DriverEvent::RichActivity(activity(
            Some("t"),
            "Read",
            "a.rs",
            Some("{\"path\": \"a.rs\"}"),
            None
        ))]
    );
    assert_eq!(
        state.tools.get("t"),
        Some(&ToolRecord { tool_name: "Read".to_string(), title: "a.rs".to_string() })
    );
    assert_eq!(
        notified(
            "{\"type\": \"tool_result\", \"toolUseId\": \"t\", \"content\": [\"text\"], \"isError\": true}",
            &mut state
        ),
        vec![DriverEvent::RichActivity(ToolActivity {
            failed: true,
            complete: true,
            ..activity(Some("t"), "Tool", "a.rs", None, Some("[\"text\"]"))
        })]
    );
    assert_eq!(state.tools.get("t"), None);
    assert_eq!(
        notified("{\"type\": \"tool_result\", \"toolUseId\": \"t\", \"isError\": \"yes\"}", &mut state),
        vec![DriverEvent::RichActivity(ToolActivity {
            complete: true,
            ..activity(Some("t"), "Tool", "Tool", None, None)
        })]
    );
}

#[test]
fn a_call_without_words_has_its_earlier_title_or_its_name() {
    let mut state = StreamState::new(false);
    let call = "{\"type\": \"tool_call\", \"toolUse\": {\"id\": \"t\", \"name\": \"Read\", \"input\": null}}";
    assert_eq!(
        notified(call, &mut state),
        vec![DriverEvent::RichActivity(activity(Some("t"), "Read", "Read", None, None))]
    );
    let step = handle_notification(&json(call), titled("b.rs"), &mut state);
    assert_eq!(
        events(step),
        vec![DriverEvent::RichActivity(activity(Some("t"), "Read", "b.rs", None, None))]
    );
    assert_eq!(
        notified(call, &mut state),
        vec![DriverEvent::RichActivity(activity(Some("t"), "Read", "b.rs", None, None))]
    );
    assert_eq!(state.tools.len(), 1);
}

#[test]
fn tools_without_an_identifier_are_not_remembered() {
    let mut state = StreamState::new(false);
    assert_eq!(
        notified("{\"type\": \"tool_call\", \"toolUse\": {}}", &mut state),
        vec![DriverEvent::RichActivity(activity(None, "Tool", "Tool", None, None))]
    );
    assert_eq!(state.tools.len(), 0);
    assert_eq!(notified("{\"type\": \"tool_call\"}", &mut state), vec![]);
    assert_eq!(notified("{\"type\": \"tool_result\", \"content\": 1}", &mut state), vec![]);
}

#[test]
fn tool_activity_reports_what_it_is_given() {
    let mut state = StreamState::new(false);
    let effect = tool_activity(
        &json("{\"id\": \"t\", \"name\": \"Edit\", \"input\": 4}"),
        Some(json("\"done\"")),
        true,
        true,
        Some("title".to_string()),
        &mut state,
    );
    assert_eq!(
        effect,
        Effect::Emit(DriverEvent::RichActivity(ToolActivity {
            failed: true,
            complete: true,
            ..activity(Some("t"), "Edit", "title", Some("4"), Some("\"done\""))
        }))
    );
    assert_eq!(state.tools.len(), 0);
}

#[test]
fn the_end_of_a_turn_is_reported() {
    for quiet in [
        "{\"type\": \"agent_turn_completed\"}",
        "{\"type\": \"agent_turn_completed\", \"reason\": \"completed\"}",
        "{\"type\": \"agent_turn_completed\", \"reason\": \"cancelled\"}",
        "{\"type\": \"agent_turn_completed\", \"reason\": null}",
    ] {
        let mut state = StreamState::new(false);
        state.turn_active = true;
        assert_eq!(
            notified(quiet, &mut state),
            vec![DriverEvent::TurnFinished { success: true, summary: None }]
        );
        assert!(!state.turn_active);
    }
    let mut state = StreamState::new(false);
    state.turn_active = true;
    assert_eq!(
        notified("{\"type\": \"agent_turn_completed\", \"reason\": \"max_turns\"}", &mut state),
        vec![DriverEvent::TurnFinished {
            success: false,
            summary: Some(Text::Localized {
                key: "session.agent_stopped_reason".to_string(),
                parameter: "reason".to_string(),
                value: "max_turns".to_string(),
            }),
        }]
    );
    assert!(!state.turn_active);
}

#[test]
fn token_counts_are_added_up() {
    let mut state = StreamState::new(false);
    assert_eq!(
        notified(
            "{\"type\": \"session_token_usage_changed\", \"tokenUsage\": {\"inputTokens\": 1000, \"cacheCreationTokens\": 200, \"cacheReadTokens\": 30, \"outputTokens\": 4, \"thinkingTokens\": 50000}}",
            &mut state
        ),
        vec![DriverEvent::UsageUpdated { context_tokens: Some(1234), context_window: None }]
    );
    assert_eq!(
        notified(
            "{\"type\": \"session_token_usage_changed\", \"tokenUsage\": {\"inputTokens\": -1, \"cacheReadTokens\": 2.5, \"outputTokens\": 7}}",
            &mut state
        ),
        vec![DriverEvent::UsageUpdated { context_tokens: Some(7), context_window: None }]
    );
    for silent in [
        "{\"type\": \"session_token_usage_changed\"}",
        "{\"type\": \"session_token_usage_changed\", \"tokenUsage\": {}}",
        "{\"type\": \"session_token_usage_changed\", \"tokenUsage\": {\"inputTokens\": 0}}",
        "{\"type\": \"session_token_usage_changed\", \"tokenUsage\": 5}",
    ] {
        assert_eq!(notified(silent, &mut state), vec![]);
    }
}

#[test]
fn token_counts_that_do_not_fit_are_noticed() {
    let largest = "{\"type\": \"session_token_usage_changed\", \"tokenUsage\": {\"inputTokens\": 18446744073709551615}}";
    assert!(check_usage(&json(largest)));
    assert!(check_countable(&notification(largest)));
    let mut state = StreamState::new(false);
    assert_eq!(
        notified(largest, &mut state),
        vec![DriverEvent::UsageUpdated {
            context_tokens: Some(18446744073709551615),
            context_window: None
        }]
    );
    let larger = "{\"type\": \"session_token_usage_changed\", \"tokenUsage\": {\"inputTokens\": 18446744073709551615, \"outputTokens\": 1}}";
    assert!(!check_usage(&json(larger)));
    assert!(!check_countable(&notification(larger)));
    let unrelated = "{\"type\": \"error\", \"tokenUsage\": {\"inputTokens\": 18446744073709551615, \"outputTokens\": 1}}";
    assert!(check_usage(&json(unrelated)));
    assert!(check_countable(&WireMessage::Exited));
    assert!(check_countable(&WireMessage::Notification {
        method: "droid.other".to_string(),
        params: Json::object().with("notification", json(larger)),
    }));
}

#[test]
fn titles_and_errors_are_passed_on() {
    let mut state = StreamState::new(false);
    assert_eq!(
        notified("{\"type\": \"session_title_updated\", \"title\": \"A title\"}", &mut state),
        vec![DriverEvent::AutoTitleUpdated(Some("A title".to_string()))]
    );
    assert_eq!(
        notified("{\"type\": \"session_title_updated\", \"title\": null}", &mut state),
        vec![DriverEvent::AutoTitleUpdated(None)]
    );
    assert_eq!(
        notified("{\"type\": \"error\", \"message\": \"Too long\"}", &mut state),
        vec![DriverEvent::Error("Too long".to_string())]
    );
    assert_eq!(
        notified("{\"type\": \"error\"}", &mut state),
        vec![DriverEvent::Error("Droid reported an error".to_string())]
    );
}

#[test]
fn other_notifications_are_silent() {
    let mut state = StreamState::new(false);
    state.turn_active = true;
    for silent in [
        "{\"type\": \"create_message\"}",
        "{\"type\": \"mcp_status_changed\"}",
        "{\"type\": 3}",
        "{}",
        "null",
    ] {
        assert_eq!(notified(silent, &mut state), vec![]);
    }
    assert!(state.turn_active);
    for message in [
        WireMessage::Notification {
            method: "droid.other".to_string(),
            params: json("{\"notification\": {\"type\": \"error\"}}"),
        },
        WireMessage::Notification {
            method: "droid.session_notification".to_string(),
            params: Json::Null,
        },
    ] {
        let step = handle_message(message, wordless(), &mut state, &StderrTail::new());
        assert_eq!(events(step), vec![]);
    }
}

#[test]
fn session_notifications_are_taken_in() {
    let mut state = StreamState::new(false);
    state.turn_active = true;
    let step = handle_message(
        notification("{\"type\": \"agent_turn_completed\"}"),
        wordless(),
        &mut state,
        &StderrTail::new(),
    );
    assert_eq!(events(step), vec![DriverEvent::TurnFinished { success: true, summary: None }]);
    assert!(!state.turn_active);
}

#[test]
fn the_subject_of_a_tool_call_is_its_input() {
    let call = "{\"type\": \"tool_call\", \"toolUse\": {\"input\": [1, {\"a\": 1.5}]}}";
    assert_eq!(read_subject(&notification(call)), Some(json("[1, {\"a\": 1.5}]")));
    for silent in [
        "{\"type\": \"tool_call\", \"toolUse\": {\"input\": null}}",
        "{\"type\": \"tool_call\", \"toolUse\": {}}",
        "{\"type\": \"tool_call\"}",
        "{\"type\": \"tool_result\", \"toolUse\": {\"input\": 1}}",
        "{}",
    ] {
        assert_eq!(read_subject(&notification(silent)), None);
    }
    assert_eq!(read_subject(&WireMessage::Exited), None);
}

#[test]
fn failed_requests_are_reported() {
    let mut state = StreamState::new(false);
    let step = handle_message(
        WireMessage::Response {
            id: "waku-4".to_string(),
            result: None,
            error: Some("no such model".to_string()),
        },
        wordless(),
        &mut state,
        &StderrTail::new(),
    );
    assert_eq!(events(step), vec![DriverEvent::Error("Droid: no such model".to_string())]);
    let step = handle_message(
        WireMessage::Response {
            id: "waku-4".to_string(),
            result: Some(Json::Null),
            error: None,
        },
        wordless(),
        &mut state,
        &StderrTail::new(),
    );
    assert_eq!(events(step), vec![]);
}

#[test]
fn the_exit_of_the_process_ends_the_session() {
    let mut state = StreamState::new(false);
    let mut tail = StderrTail::new();
    tail.push_line("fatal: no network");
    let step = handle_message(WireMessage::Exited, wordless(), &mut state, &tail);
    assert_eq!(
        step,
        Step {
            effects: vec![
                Effect::Emit(DriverEvent::Error(
                    "Droid process exited unexpectedly:\nfatal: no network".to_string()
                )),
                Effect::Emit(DriverEvent::ProcessExited),
            ],
            checked: None,
            running: false,
        }
    );
}
