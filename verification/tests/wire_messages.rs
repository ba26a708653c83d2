use droid_driver::json::{Json, JsonNumber};
use droid_driver::wire::{
    classify, next_request_id, read_line, request, respond, write_envelope, WireMessage,
    FACTORY_API_VERSION,
};

fn text(value: &str) -> Json {
    Json::Str(value.to_string())
}

fn object(fields: Vec<(&str, Json)>) -> Json {
    Json::Object(fields.into_iter().map(|(name, value)| (name.to_string(), value)).collect())
}

#[test]
fn request_ids_count_up_and_start_over() {
    let mut sequence = 0;
    assert_eq!(next_request_id(&mut sequence), "waku-0");
    assert_eq!(next_request_id(&mut sequence), "waku-1");
    assert_eq!(sequence, 2);
    sequence = 1009;
    assert_eq!(next_request_id(&mut sequence), "waku-1009");
    sequence = u64::MAX;
    assert_eq!(next_request_id(&mut sequence), "waku-18446744073709551615");
    assert_eq!(sequence, 0);
}

#[test]
fn request_ids_do_not_repeat() {
    let mut sequence = 5;
    let mut seen = Vec::new();
    for _ in 0..200 {
        let id = next_request_id(&mut sequence);
        assert!(!seen.contains(&id));
        seen.push(id);
    }
}

#[test]
fn requests_carry_the_whole_envelope() {
    let mut sequence = 41;
    let message = request("droid.add_user_message", object(vec![("text", text("hi"))]), &mut sequence);
    assert_eq!(sequence, 42);
    assert_eq!(
        write_envelope(&message),
        "{\"factoryApiVersion\":\"1.0.0\",\"id\":\"waku-41\",\"jsonrpc\":\"2.0\",\"method\":\"droid.add_user_message\",\"params\":{\"text\":\"hi\"},\"type\":\"request\"}\n"
    );
    assert_eq!(FACTORY_API_VERSION, "1.0.0");
}

#[test]
fn responses_carry_the_whole_envelope() {
    let message = respond("srv-7", object(vec![("selectedOption", text("cancel"))]));
    assert_eq!(
        write_envelope(&message),
        "{\"factoryApiVersion\":\"1.0.0\",\"id\":\"srv-7\",\"jsonrpc\":\"2.0\",\"result\":{\"selectedOption\":\"cancel\"},\"type\":\"response\"}\n"
    );
}

#[test]
fn a_line_holds_one_message_and_reads_back() {
    let mut sequence = 0;
    let params = object(vec![("text", text("two\nlines\r\nand more"))]);
    let message = request("droid.add_user_message", params.copy(), &mut sequence);
    let line = write_envelope(&message);
    assert!(line.ends_with('\n'));
    assert_eq!(line.matches('\n').count(), 1);
    assert_eq!(
        read_line(line.trim_end_matches('\n')),
        Some(WireMessage::Request {
            id: "waku-0".to_string(),
            method: "droid.add_user_message".to_string(),
            params,
        })
    );
}

#[test]
fn a_stream_of_messages_falls_into_lines() {
    let first = respond("a\nb", Json::Null);
    let second = respond("c", text("\n\n"));
    let stream = format!("{}{}", write_envelope(&first), write_envelope(&second));
    let read: Vec<Option<WireMessage>> = stream.lines().map(read_line).collect();
    assert_eq!(
        read,
        vec![
            Some(WireMessage::Response {
                id: "a\nb".to_string(),
                result: Some(Json::Null),
                error: None
            }),
            Some(WireMessage::Response {
                id: "c".to_string(),
                result: Some(text("\n\n")),
                error: None
            }),
        ]
    );
}

#[test]
fn responses_give_result_and_error() {
    let message = classify(&object(vec![
        ("type", text("response")),
        ("id", text("9")),
        ("error", object(vec![("code", Json::Null), ("message", text("broken"))])),
    ]));
    assert_eq!(
        message,
        Some(WireMessage::Response {
            id: "9".to_string(),
            result: None,
            error: Some("broken".to_string())
        })
    );
    let message = classify(&object(vec![
        ("type", text("response")),
        ("id", text("9")),
        ("result", Json::Null),
        ("error", text("not an object")),
    ]));
    assert_eq!(
        message,
        Some(WireMessage::Response { id: "9".to_string(), result: Some(Json::Null), error: None })
    );
}

#[test]
fn missing_parameters_are_null() {
    assert_eq!(
        read_line("{\"type\":\"request\",\"id\":\"1\",\"method\":\"m\"}"),
        Some(WireMessage::Request {
            id: "1".to_string(),
            method: "m".to_string(),
            params: Json::Null
        })
    );
    assert_eq!(
        read_line("{\"type\":\"notification\",\"method\":\"m\"}"),
        Some(WireMessage::Notification { method: "m".to_string(), params: Json::Null })
    );
}

#[test]
fn lines_without_a_message_are_passed_over() {
    assert_eq!(read_line("starting up"), None);
    assert_eq!(read_line("[]"), None);
    assert_eq!(read_line("{}"), None);
    assert_eq!(read_line("{\"type\":\"event\"}"), None);
    assert_eq!(read_line("{\"type\":7}"), None);
    assert_eq!(read_line("{\"type\":\"response\",\"id\":1}"), None);
    assert_eq!(read_line("{\"type\":\"request\",\"id\":\"1\"}"), None);
    assert_eq!(read_line("{\"type\":\"request\",\"method\":\"m\"}"), None);
    assert_eq!(read_line("{\"type\":\"notification\"}"), None);
    assert_eq!(
        classify(&object(vec![("type", Json::Number(JsonNumber::Unsigned(1)))])),
        None
    );
}
