use droid_driver::codec::{json_text, parse_json};
use droid_driver::json::Json;
use droid_driver::model::{DriverEvent, InteractionMode, ProviderResumeCursor, RuntimeMode};
use droid_driver::session::{
    finish_start, plan_start, send_request, Handshake, HandshakeEvent, Launch, StartError,
    StartOptions,
};
use droid_driver::stream::Effect;
use droid_driver::wire::WireMessage;

fn json(text: &str) -> Json {
    parse_json(text).unwrap()
}

fn options(provider_cursor: Option<ProviderResumeCursor>) -> StartOptions {
    StartOptions {
        cwd: "/work".to_string(),
        mode: RuntimeMode::Auto,
        interaction_mode: InteractionMode::Build,
        model: None,
        reasoning_effort: None,
        provider_cursor,
        cursor_provider: "Codex".to_string(),
    }
}

fn cursor(session_id: &str) -> ProviderResumeCursor {
    ProviderResumeCursor::Droid { session_id: session_id.to_string() }
}

fn connected(session_id: &str) -> Effect {
    Effect::Emit(DriverEvent::Connected { provider_cursor: Some(cursor(session_id)) })
}

fn handshake() -> Handshake {
    Handshake { request_id: "waku-1".to_string(), method: "droid.load_session".to_string() }
}

fn response(id: &str, result: Option<Json>, error: Option<&str>) -> HandshakeEvent {
    HandshakeEvent::Message(WireMessage::Response {
        id: id.to_string(),
        result,
        error: error.map(str::to_string),
    })
}

#[test]
fn a_new_session_is_initialized() {
    let launch = plan_start(options(None)).unwrap();
    assert_eq!(
        launch.arguments,
        vec![
            "exec",
            "--input-format",
            "stream-jsonrpc",
            "--output-format",
            "stream-jsonrpc",
            "--auto",
            "medium"
        ]
    );
    assert_eq!(launch.method, "droid.initialize_session");
    assert_eq!(
        json_text(&launch.params),
        "{\"autonomyLevel\":\"medium\",\"cwd\":\"/work\",\"interactionMode\":\"auto\",\"machineId\":\"waku\"}"
    );
    assert_eq!(launch.resumed, None);
    assert!(launch.auto_approve);
}

#[test]
fn a_new_session_takes_model_and_effort() {
    let launch = plan_start(StartOptions {
        mode: RuntimeMode::Ask,
        interaction_mode: InteractionMode::Plan,
        model: Some("m".to_string()),
        reasoning_effort: Some("low".to_string()),
        ..options(None)
    })
    .unwrap();
    assert_eq!(
        json_text(&launch.params),
        "{\"autonomyLevel\":\"low\",\"cwd\":\"/work\",\"interactionMode\":\"spec\",\"machineId\":\"waku\",\"modelId\":\"m\",\"reasoningEffort\":\"low\"}"
    );
    assert_eq!(launch.arguments[6], "low");
    assert!(!launch.auto_approve);
}

#[test]
fn a_cursor_reconnects_to_its_session() {
    let launch = plan_start(options(Some(cursor("abc")))).unwrap();
    assert_eq!(launch.method, "droid.load_session");
    assert_eq!(
        json_text(&launch.params),
        "{\"loadAllMessages\":false,\"sessionId\":\"abc\"}"
    );
    assert_eq!(launch.resumed, Some("abc".to_string()));
}

#[test]
fn other_cursors_are_refused() {
    let refusal = StartError::ForeignCursor { provider: "Codex".to_string() };
    assert_eq!(refusal.message(), "cannot resume Factory Droid from a Codex cursor");
    assert_eq!(plan_start(options(Some(ProviderResumeCursor::Other))), Err(refusal));
    assert_eq!(
        plan_start(options(Some(cursor("")))),
        Err(StartError::ForeignCursor { provider: "Codex".to_string() })
    );
}

#[test]
fn the_first_request_is_waited_for() {
    let mut sequence = 0;
    let (message, waiting) = send_request("droid.load_session", Json::object(), &mut sequence);
    assert_eq!(
        json_text(&message),
        "{\"factoryApiVersion\":\"1.0.0\",\"id\":\"waku-0\",\"jsonrpc\":\"2.0\",\"method\":\"droid.load_session\",\"params\":{},\"type\":\"request\"}"
    );
    assert_eq!(
        waiting,
        Handshake { request_id: "waku-0".to_string(), method: "droid.load_session".to_string() }
    );
    assert_eq!(sequence, 1);
}

#[test]
fn only_the_response_ends_the_wait() {
    for event in [
        response("waku-0", Some(Json::Null), Some("no")),
        HandshakeEvent::Message(WireMessage::Notification {
            method: "droid.session_notification".to_string(),
            params: Json::Null,
        }),
        HandshakeEvent::Message(WireMessage::Request {
            id: "waku-1".to_string(),
            method: "droid.ask_user".to_string(),
            params: Json::Null,
        }),
        HandshakeEvent::Message(WireMessage::Exited),
    ] {
        assert_eq!(handshake().advance(event), Ok(None));
    }
    assert_eq!(
        handshake().advance(response("waku-1", Some(json("{\"sessionId\": \"a\"}")), None)),
        Ok(Some(json("{\"sessionId\": \"a\"}")))
    );
    assert_eq!(handshake().advance(response("waku-1", None, None)), Ok(Some(Json::Null)));
}

#[test]
fn the_wait_can_fail() {
    let failure = handshake().advance(response("waku-1", Some(Json::Null), Some("gone"))).unwrap_err();
    assert_eq!(
        failure,
        StartError::RequestFailed {
            method: "droid.load_session".to_string(),
            error: "gone".to_string()
        }
    );
    assert_eq!(failure.message(), "Droid droid.load_session failed: gone");

    let failure = handshake().advance(HandshakeEvent::DeadlinePassed).unwrap_err();
    assert_eq!(failure, StartError::TimedOut { method: "droid.load_session".to_string() });
    assert_eq!(failure.message(), "Droid droid.load_session timed out");

    let failure = handshake().advance(HandshakeEvent::ReceiveFailed).unwrap_err();
    assert_eq!(failure, StartError::ProcessExited);
    assert_eq!(failure.message(), "Droid process exited during the handshake");
}

#[test]
fn a_new_session_reports_its_cursor() {
    let launch = plan_start(options(None)).unwrap();
    let started = finish_start(launch, &json("{\"sessionId\": \"s-1\"}")).ok().unwrap();
    assert_eq!(started.effects, vec![connected("s-1")]);
    assert!(!started.state.turn_active);
    assert!(started.state.auto_approve);
    assert_eq!(started.state.pending.len(), 0);
    assert_eq!(started.state.tools.len(), 0);

    let again = plan_start(options(Some(cursor("s-1")))).unwrap();
    assert_eq!(again.resumed, Some("s-1".to_string()));
}

#[test]
fn a_new_session_must_be_named() {
    for answer in ["{}", "null", "{\"sessionId\": 4}"] {
        let launch = plan_start(options(None)).unwrap();
        let failure = finish_start(launch, &json(answer)).err().unwrap();
        assert_eq!(failure, StartError::NoSessionId);
        assert_eq!(failure.message(), "Droid initialize_session returned no session ID");
    }
}

#[test]
fn what_an_earlier_client_left_open_is_answered() {
    let launch = plan_start(StartOptions {
        mode: RuntimeMode::Ask,
        ..options(Some(cursor("abc")))
    })
    .unwrap();
    let started = finish_start(
        launch,
        &json(
            "{\"sessionId\": \"other\",
              \"pendingPermissions\": [{\"requestId\": \"1\"}, {}, {\"requestId\": 2}, {\"requestId\": \"3\"}],
              \"pendingAskUserRequests\": [{\"requestId\": \"4\"}]}",
        ),
    )
    .ok()
    .unwrap();
    let written: Vec<String> = started
        .effects
        .iter()
        .map(|effect| match effect {
            Effect::Send(message) => json_text(message),
            other => format!("{other:?}"),
        })
        .collect();
    assert_eq!(
        written,
        vec![
            "{\"factoryApiVersion\":\"1.0.0\",\"id\":\"1\",\"jsonrpc\":\"2.0\",\"result\":{\"selectedOption\":\"cancel\"},\"type\":\"response\"}".to_string(),
            "{\"factoryApiVersion\":\"1.0.0\",\"id\":\"3\",\"jsonrpc\":\"2.0\",\"result\":{\"selectedOption\":\"cancel\"},\"type\":\"response\"}".to_string(),
            "{\"factoryApiVersion\":\"1.0.0\",\"id\":\"4\",\"jsonrpc\":\"2.0\",\"result\":{\"answers\":[],\"cancelled\":true},\"type\":\"response\"}".to_string(),
            format!("{:?}", connected("abc")),
        ]
    );
    assert!(!started.state.auto_approve);
}

#[test]
fn a_resumed_session_keeps_its_name_whatever_comes_back() {
    for answer in ["null", "{\"pendingPermissions\": 4}", "{\"sessionId\": \"other\"}"] {
        let launch = Launch {
            arguments: vec![],
            method: String::new(),
            params: Json::Null,
            resumed: Some("abc".to_string()),
            auto_approve: true,
        };
        let started = finish_start(launch, &json(answer)).ok().unwrap();
        assert_eq!(started.effects, vec![connected("abc")]);
    }
}
