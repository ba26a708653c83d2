use droid_driver::codec::parse_json;
use droid_driver::command::{handle_command, settle, CommandMessage};
use droid_driver::json::Json;
use droid_driver::message::handle_message;
use droid_driver::model::{DriverEvent, InteractionMode, RuntimeMode, SessionOptions};
use droid_driver::permission::Wording;
use droid_driver::stderr::StderrTail;
use droid_driver::stream::{Effect, Step, StreamState};
use droid_driver::wire::{classify, read_line, write_envelope, WireMessage};

/// A session whose effects are all carried out, and recorded.
struct Session {
    state: StreamState,
    sequence: u64,
    events: Vec<DriverEvent>,
    sent: Vec<Json>,
}

impl Session {
    fn new(auto_approve: bool) -> Session {
        Session {
            state: StreamState::new(auto_approve),
            sequence: 0,
            events: vec![],
            sent: vec![],
        }
    }

    fn perform(&mut self, effect: Effect) {
        match effect {
            Effect::Emit(event) => self.events.push(event),
            Effect::Send(message) => self.sent.push(message),
            Effect::Flush => {}
        }
    }

    fn follow(&mut self, step: Step) -> bool {
        for effect in step.effects {
            self.perform(effect);
        }
        if let Some(checked) = step.checked {
            self.perform(checked.effect);
            for effect in settle(checked.followup, None, &mut self.state) {
                self.perform(effect);
            }
        }
        step.running
    }

    fn command(&mut self, command: CommandMessage) -> bool {
        let step = handle_command(command, &mut self.state, &mut self.sequence);
        self.follow(step)
    }

    fn line(&mut self, line: &str) -> bool {
        match read_line(line) {
            Some(message) => self.message(message),
            None => true,
        }
    }

    fn message(&mut self, message: WireMessage) -> bool {
        let wording = Wording { title: None, detail: None };
        let step = handle_message(message, wording, &mut self.state, &StderrTail::new());
        self.follow(step)
    }
}

fn notification(body: &str) -> String {
    format!("{{\"type\":\"notification\",\"method\":\"droid.session_notification\",\"params\":{{\"notification\":{body}}}}}")
}

fn permission(id: &str) -> String {
    format!("{{\"type\":\"request\",\"id\":\"{id}\",\"method\":\"droid.request_permission\",\"params\":{{\"options\":[{{\"value\":\"proceed_once\"}}]}}}}")
}

fn prompt(text: &str) -> CommandMessage {
    CommandMessage::Prompt(text.to_string())
}

fn settings(mode: RuntimeMode) -> CommandMessage {
    CommandMessage::ApplyOptions(SessionOptions {
        mode,
        interaction_mode: InteractionMode::Build,
        model: None,
        reasoning_effort: None,
    })
}

#[test]
fn turns_take_turns() {
    let mut session = Session::new(false);
    let completed = notification("{\"type\":\"agent_turn_completed\"}");
    assert!(session.command(prompt("one")));
    assert!(session.command(prompt("two")));
    assert!(session.line(&completed));
    assert!(session.line(&completed));
    assert!(session.command(prompt("three")));
    assert!(session.command(CommandMessage::Cancel));
    assert!(session.line(&notification(
        "{\"type\":\"agent_turn_completed\",\"reason\":\"cancelled\"}"
    )));
    let finished = || DriverEvent::TurnFinished { success: true, summary: None };
    assert_eq!(
        session.events,
        vec![
            DriverEvent::TurnStarted,
            finished(),
            finished(),
            DriverEvent::TurnStarted,
            finished(),
        ]
    );
    assert!(!session.state.turn_active);
}

#[test]
fn everything_that_is_sent_reads_back() {
    let mut session = Session::new(false);
    assert!(session.command(prompt("line one\nline two \u{1F600}")));
    assert!(session.command(CommandMessage::Steer("\"quoted\"".to_string())));
    assert!(session.line(&permission("p1")));
    assert!(session.line(&permission("p2")));
    assert!(session.command(CommandMessage::Respond {
        request_id: "p1".to_string(),
        option_id: "proceed_once".to_string(),
    }));
    assert!(session.command(CommandMessage::Cancel));
    assert!(session.command(settings(RuntimeMode::FullAccess)));
    assert!(!session.command(CommandMessage::Shutdown));
    assert_eq!(session.sent.len(), 7);
    for message in &session.sent {
        assert_eq!(message.get_str("jsonrpc"), Some("2.0"));
        assert_eq!(message.get_str("factoryApiVersion"), Some("1.0.0"));
        let line = write_envelope(message);
        assert_eq!(line.matches('\n').count(), 1);
        let read = read_line(line.trim_end_matches('\n'));
        assert!(read.is_some());
        assert_eq!(read, classify(&parse_json(&line).unwrap()));
    }
}

#[test]
fn supervision_follows_the_settings() {
    let mut session = Session::new(false);
    assert!(session.line(&permission("p1")));
    assert_eq!(session.events.len(), 1);
    assert_eq!(session.sent.len(), 0);
    assert!(session.command(settings(RuntimeMode::Auto)));
    assert!(session.line(&permission("p2")));
    assert_eq!(session.events.len(), 1);
    assert_eq!(session.sent.len(), 2);
    assert!(session.command(settings(RuntimeMode::Ask)));
    assert!(session.line(&permission("p3")));
    assert_eq!(session.events.len(), 2);
    assert_eq!(session.state.pending.len(), 2);
}

#[test]
fn messages_leave_each_others_business_alone() {
    let mut session = Session::new(false);
    assert!(session.command(prompt("go")));
    assert!(session.line(&permission("p1")));
    assert!(session.line(&notification("{\"type\":\"tool_call\",\"toolUse\":{\"id\":\"t\"}}")));
    assert!(session.state.turn_active);
    assert_eq!(session.state.pending.len(), 1);
    assert_eq!(session.state.tools.len(), 1);
    assert!(session.line(&permission("p2")));
    assert!(session.line("{\"type\":\"response\",\"id\":\"waku-0\",\"error\":{\"message\":\"no\"}}"));
    assert!(session.state.turn_active);
    assert_eq!(session.state.tools.len(), 1);
    assert!(session.line(&notification("{\"type\":\"agent_turn_completed\"}")));
    assert_eq!(session.state.pending.len(), 2);
    assert_eq!(session.state.tools.len(), 1);
    assert!(!session.message(WireMessage::Exited));
    assert_eq!(session.events.last(), Some(&DriverEvent::ProcessExited));
}

#[test]
fn lines_that_are_no_messages_change_nothing() {
    let mut session = Session::new(false);
    for line in ["", "Loading...", "{\"type\":\"progress\"}", "{\"type\":\"response\"}"] {
        assert!(session.line(line));
    }
    assert_eq!(session.events, vec![]);
    assert_eq!(session.sent, vec![]);
}

#[test]
fn a_tool_keeps_its_title_through_other_events() {
    let mut session = Session::new(false);
    let call = "{\"type\":\"tool_call\",\"toolUse\":{\"id\":\"t\",\"name\":\"Read\"}}";
    assert!(session.line(&notification(call)));
    assert!(session.command(prompt("more")));
    assert!(session.line(&permission("p1")));
    assert!(session.command(CommandMessage::Cancel));
    assert!(session.line(&notification(
        "{\"type\":\"tool_call\",\"toolUse\":{\"id\":\"u\",\"name\":\"Edit\"}}"
    )));
    assert!(session.line(&notification("{\"type\":\"tool_result\",\"toolUseId\":\"u\"}")));
    assert!(session.line(&notification("{\"type\":\"agent_turn_completed\"}")));
    assert!(session.line(&notification("{\"type\":\"tool_result\",\"toolUseId\":\"t\"}")));
    match session.events.last() {
        Some(DriverEvent::RichActivity(activity)) => {
            assert_eq!(activity.id, Some("t".to_string()));
            assert_eq!(activity.title, "Read");
            assert!(activity.complete);
        }
        other => panic!("unexpected {other:?}"),
    }
    assert_eq!(session.state.tools.len(), 0);
}

#[test]
fn choices_for_settled_requests_have_no_effect() {
    let choose_once = || CommandMessage::Respond {
        request_id: "p1".to_string(),
        option_id: "proceed_once".to_string(),
    };
    let mut session = Session::new(false);
    assert!(session.command(choose_once()));
    assert_eq!(session.sent.len(), 0);
    assert!(session.line(&permission("p1")));
    assert!(session.line(&permission("p2")));
    assert!(session.command(choose_once()));
    assert_eq!(session.sent.len(), 1);
    assert!(session.line(&permission("p3")));
    assert!(session.command(choose_once()));
    assert_eq!(session.sent.len(), 1);
    assert!(session.line(&permission("p1")));
    assert!(session.command(choose_once()));
    assert_eq!(session.sent.len(), 2);
    assert!(session.line(&permission("p1")));
    assert!(session.command(CommandMessage::Cancel));
    let sent = session.sent.len();
    assert!(session.command(choose_once()));
    assert_eq!(session.sent.len(), sent);
    assert_eq!(session.state.pending.len(), 0);
}
