use droid_driver::command::autonomy_level;
use droid_driver::json::Json;
use droid_driver::model::{InteractionMode, RuntimeMode};
use droid_driver::wire::{classify, WireMessage};

fn text(value: &str) -> Json {
    Json::Str(value.to_string())
}

fn object(fields: Vec<(&str, Json)>) -> Json {
    Json::Object(fields.into_iter().map(|(name, value)| (name.to_string(), value)).collect())
}

#[test]
fn autonomy_levels_follow_the_access_ladder() {
    assert_eq!(autonomy_level(RuntimeMode::Ask, InteractionMode::Build), "off");
    assert_eq!(autonomy_level(RuntimeMode::AutoAcceptEdits, InteractionMode::Build), "low");
    assert_eq!(autonomy_level(RuntimeMode::Auto, InteractionMode::Build), "medium");
    assert_eq!(autonomy_level(RuntimeMode::FullAccess, InteractionMode::Build), "high");
    assert_eq!(autonomy_level(RuntimeMode::FullAccess, InteractionMode::Plan), "low");
}

#[test]
fn classifies_wire_envelopes() {
    let response = classify(&object(vec![
        ("jsonrpc", text("2.0")),
        ("type", text("response")),
        ("id", text("1")),
        ("result", object(vec![("sessionId", text("abc"))])),
    ]))
    .unwrap();
    assert!(matches!(
        response,
        WireMessage::Response { id, .. } if id == "1"
    ));

    let request = classify(&object(vec![
        ("jsonrpc", text("2.0")),
        ("type", text("request")),
        ("id", text("2")),
        ("method", text("droid.request_permission")),
        ("params", object(vec![])),
    ]))
    .unwrap();
    assert!(matches!(
        request,
        WireMessage::Request { method, .. } if method == "droid.request_permission"
    ));

    let notification = classify(&object(vec![
        ("jsonrpc", text("2.0")),
        ("type", text("notification")),
        ("method", text("droid.session_notification")),
        (
            "params",
            object(vec![(
                "notification",
                object(vec![("type", text("agent_turn_completed"))]),
            )]),
        ),
    ]))
    .unwrap();
    assert!(matches!(notification, WireMessage::Notification { .. }));
}
