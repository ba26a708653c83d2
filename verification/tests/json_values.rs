use droid_driver::codec::{json_text, parse_json};
use droid_driver::json::{Json, JsonNumber};

fn text(value: &str) -> Json {
    Json::Str(value.to_string())
}

fn number(value: u64) -> Json {
    Json::Number(JsonNumber::Unsigned(value))
}

fn object(fields: Vec<(&str, Json)>) -> Json {
    Json::Object(fields.into_iter().map(|(name, value)| (name.to_string(), value)).collect())
}

#[test]
fn parses_every_kind_of_value() {
    let parsed = parse_json(
        "{\"null\": null, \"yes\": true, \"count\": 3, \"name\": \"a\\u0000\\n\\u00e9\", \"list\": [1, [], {}]}",
    )
    .unwrap();
    assert!(parsed.get("null").unwrap().is_null());
    assert_eq!(parsed.get("yes").unwrap().as_bool(), Some(true));
    assert_eq!(parsed.get("count").unwrap().as_u64(), Some(3));
    assert_eq!(parsed.get_str("name"), Some("a\u{0}\n\u{e9}"));
    assert_eq!(
        parsed.get("list").unwrap().as_array().unwrap(),
        &vec![number(1), Json::Array(vec![]), Json::Object(vec![])]
    );
    assert_eq!(parsed.get("missing"), None);
}

#[test]
fn refuses_what_is_not_one_json_value() {
    assert_eq!(parse_json(""), None);
    assert_eq!(parse_json("plain words"), None);
    assert_eq!(parse_json("{\"open\": 1"), None);
    assert_eq!(parse_json("1 2"), None);
}

#[test]
fn later_fields_of_a_text_replace_earlier_ones() {
    let parsed = parse_json("{\"a\": 1, \"a\": 2}").unwrap();
    assert_eq!(parsed.get("a").unwrap().as_u64(), Some(2));
    assert_eq!(json_text(&parsed), "{\"a\":2}");
}

#[test]
fn writes_compact_text_with_sorted_fields() {
    let value = object(vec![
        ("b", Json::Array(vec![Json::Null, Json::Bool(false), number(18446744073709551615)])),
        ("a", text("line\nbreak \"quoted\" \\ \t\u{1}\u{1F600}")),
    ]);
    assert_eq!(
        json_text(&value),
        "{\"a\":\"line\\nbreak \\\"quoted\\\" \\\\ \\t\\u0001\u{1F600}\",\"b\":[null,false,18446744073709551615]}"
    );
}

#[test]
fn the_first_of_two_fields_of_one_name_counts() {
    let value = object(vec![("a", number(1)), ("a", number(2)), ("b", number(3))]);
    assert_eq!(value.get("a").unwrap().as_u64(), Some(1));
    assert_eq!(json_text(&value), "{\"a\":1,\"b\":3}");
}

#[test]
fn other_numbers_are_carried_through_unread() {
    for shown in ["-0", "1.5", "-9223372036854775809", "1e300", "18446744073709551616"] {
        let parsed = parse_json(shown).unwrap();
        assert_eq!(parsed.as_u64(), None);
        let copied = parsed.copy();
        assert_eq!(copied, parsed);
        let expected = serde_json::from_str::<serde_json::Value>(shown).unwrap().to_string();
        assert_eq!(json_text(&copied), expected);
    }
    assert_eq!(json_text(&parse_json("1.5").unwrap()), "1.5");
}

#[test]
fn negative_integers_are_told_apart() {
    for n in [-1, -17, i64::MIN + 1, i64::MIN] {
        let value = Json::Number(JsonNumber::of_integer(n));
        assert!(matches!(value, Json::Number(JsonNumber::Negative(_))));
        assert_eq!(value.as_u64(), None);
        assert_eq!(value.copy(), value);
        assert_eq!(json_text(&value), n.to_string());
        assert_eq!(parse_json(&n.to_string()), Some(value));
    }
    for n in [0, 1, i64::MAX] {
        assert_eq!(JsonNumber::of_integer(n), JsonNumber::Unsigned(n as u64));
    }
    assert_ne!(JsonNumber::of_integer(-1), JsonNumber::of_integer(-2));
}

#[test]
fn integers_of_every_size_read_back() {
    let value = object(vec![
        ("least", Json::Number(JsonNumber::of_integer(i64::MIN))),
        ("list", Json::Array(vec![Json::Number(JsonNumber::of_integer(-1)), number(0)])),
        ("most", number(u64::MAX)),
    ]);
    assert_eq!(
        json_text(&value),
        "{\"least\":-9223372036854775808,\"list\":[-1,0],\"most\":18446744073709551615}"
    );
    assert_eq!(parse_json(&json_text(&value)), Some(value));
}

#[test]
fn values_read_back_from_their_text() {
    let value = object(vec![
        ("texts", Json::Array(vec![text(""), text("\u{0}\u{7f}\u{2028}"), text("\"\\/\r\n")])),
        ("count", number(0)),
        ("deep", object(vec![("er", object(vec![("est", Json::Null)]))])),
    ]);
    let read = parse_json(&json_text(&value)).unwrap();
    assert_eq!(json_text(&read), json_text(&value));
    assert_eq!(read.get("texts"), value.get("texts"));
    assert_eq!(read.get("deep"), value.get("deep"));
    assert_eq!(read.get("count"), value.get("count"));
}

#[test]
fn nesting_is_read_up_to_the_limit() {
    let mut value = Json::Null;
    for _ in 0..127 {
        value = Json::Array(vec![value]);
    }
    assert_eq!(parse_json(&json_text(&value)), Some(value.copy()));
    let deeper = Json::Array(vec![value]);
    assert_eq!(parse_json(&json_text(&deeper)), None);
}

#[test]
fn fields_are_set_in_place_or_added() {
    let value = Json::object().with("a", number(1)).with("b", number(2)).with("a", number(3));
    assert_eq!(value, object(vec![("a", number(3)), ("b", number(2))]));
    assert_eq!(Json::Null.with("a", number(1)), Json::Null);
}

#[test]
fn only_values_of_the_right_kind_are_read() {
    let value = object(vec![("name", number(1)), ("flag", text("true"))]);
    assert_eq!(value.get_str("name"), None);
    assert_eq!(value.get("flag").unwrap().as_bool(), None);
    assert_eq!(value.as_array(), None);
    assert_eq!(value.as_str(), None);
    assert_eq!(text("name").get("name"), None);
    assert!(!value.is_null());
}

#[test]
fn copies_are_equal_and_complete() {
    let value = object(vec![
        ("a", Json::Array(vec![text("x"), object(vec![("y", Json::Bool(true))])])),
        ("b", number(7)),
    ]);
    assert_eq!(value.copy(), value);
    assert_eq!(value.get_copy("a").as_ref(), value.get("a"));
    assert_eq!(value.get_string("b"), None);
}
