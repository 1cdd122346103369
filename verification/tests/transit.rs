use dbx_bridge::buffer::Buffer;
use dbx_bridge::error::BridgeError;
use dbx_bridge::json::{Json, JsonNumber};
use dbx_bridge::transit::{buffer_from, parse_json, parse_text, string_from_bytes, to_cstring};

fn text(s: &str) -> Json {
    Json::String(s.to_string())
}

fn object(members: Vec<(&str, Json)>) -> Json {
    Json::Object(members.into_iter().map(|(k, v)| (k.to_string(), v)).collect())
}

fn unsigned(n: u64) -> Json {
    Json::Number(JsonNumber::Unsigned(n))
}

fn buffer(s: &str) -> Buffer {
    Buffer::new(s.to_string()).unwrap()
}

#[test]
fn string_from_bytes_of_absent_buffer_is_empty() {
    assert_eq!(string_from_bytes(None), Ok(String::new()));
}

#[test]
fn string_from_bytes_decodes_utf8() {
    assert_eq!(string_from_bytes(Some(b"order")), Ok("order".to_string()));
    assert_eq!(string_from_bytes(Some(b"")), Ok(String::new()));
    assert_eq!(
        string_from_bytes(Some("gr\u{fc}\u{df}e \u{1f600}".as_bytes())),
        Ok("gr\u{fc}\u{df}e \u{1f600}".to_string())
    );
}

#[test]
fn string_from_bytes_rejects_invalid_utf8() {
    let err = string_from_bytes(Some(&[b'a', 0xff, b'b'])).unwrap_err();
    assert_eq!(
        err,
        BridgeError::Encoding("invalid utf-8 sequence of 1 bytes from index 1".to_string())
    );
    assert_eq!(err.message(), "invalid utf-8: invalid utf-8 sequence of 1 bytes from index 1");
    let truncated = string_from_bytes(Some(&[0xe2, 0x82])).unwrap_err();
    assert_eq!(
        truncated,
        BridgeError::Encoding("incomplete utf-8 byte sequence from index 0".to_string())
    );
}

#[test]
fn parse_json_of_absent_or_blank_buffer_is_null() {
    assert_eq!(parse_json(None), Ok(Json::Null));
    assert_eq!(parse_json(Some(b"")), Ok(Json::Null));
    assert_eq!(parse_json(Some(b" \t\r\n ")), Ok(Json::Null));
    assert_eq!(parse_json(Some("\u{a0}\u{2003}".as_bytes())), Ok(Json::Null));
    assert_eq!(parse_json(Some(b"null")), Ok(Json::Null));
}

#[test]
fn parse_json_reads_documents() {
    assert_eq!(
        parse_json(Some(br#"{"take": 5, "filter": "x", "flags": [true, false, null]}"#)),
        Ok(object(vec![
            ("filter", text("x")),
            ("flags", Json::Array(vec![Json::Bool(true), Json::Bool(false), Json::Null])),
            ("take", unsigned(5)),
        ]))
    );
    assert_eq!(parse_json(Some(b" \"a\" ")), Ok(text("a")));
}

#[test]
fn parse_json_reports_syntax_errors() {
    let err = parse_json(Some(b"{")).unwrap_err();
    assert_eq!(
        err,
        BridgeError::Parse("EOF while parsing an object at line 1 column 1".to_string())
    );
    assert_eq!(err.message(), "invalid json: EOF while parsing an object at line 1 column 1");
    assert_eq!(
        parse_json(Some(b"[1,]")),
        Err(BridgeError::Parse("trailing comma at line 1 column 4".to_string()))
    );
    assert_eq!(
        parse_json(Some(b"1 2")),
        Err(BridgeError::Parse("trailing characters at line 1 column 3".to_string()))
    );
}

#[test]
fn parse_json_reports_encoding_before_syntax() {
    assert_eq!(
        parse_json(Some(&[b'{', 0xc3, 0x28])),
        Err(BridgeError::Encoding("invalid utf-8 sequence of 1 bytes from index 1".to_string()))
    );
}

#[test]
fn parse_text_tells_numbers_apart() {
    let parsed = parse_text("[0, 1, -2, 18446744073709551615, -9223372036854775808, 1.5]").unwrap();
    let items = match parsed {
        Json::Array(items) => items,
        other => panic!("not an array: {:?}", other),
    };
    assert_eq!(items.len(), 6);
    assert_eq!(items[0], unsigned(0));
    assert_eq!(items[1], unsigned(1));
    assert_eq!(items[2], Json::Number(JsonNumber::Negative(-2)));
    assert_eq!(items[3], unsigned(u64::MAX));
    assert_eq!(items[4], Json::Number(JsonNumber::Negative(i64::MIN)));
    assert_eq!(items[0].as_u64(), Some(0));
    assert_eq!(items[2].as_u64(), None);
    assert_eq!(items[5].as_u64(), None);
    assert_eq!(
        items[5],
        Json::Number(JsonNumber::Other(serde_json::Number::from_f64(1.5).unwrap()))
    );
}

#[test]
fn parse_text_keeps_last_of_repeated_keys_and_orders_keys() {
    assert_eq!(
        parse_text(r#"{"b": 1, "a": 2, "a": 3}"#),
        Ok(object(vec![("a", unsigned(3)), ("b", unsigned(1))]))
    );
}

#[test]
fn to_cstring_writes_compact_json_with_ordered_keys() {
    let value = object(vec![
        ("found", Json::Bool(true)),
        ("aggregate", object(vec![("version", unsigned(3)), ("id", text("a-1"))])),
    ]);
    assert_eq!(
        to_cstring(&value),
        Ok(buffer(r#"{"aggregate":{"id":"a-1","version":3},"found":true}"#))
    );
    assert_eq!(to_cstring(&Json::Null), Ok(buffer("null")));
    assert_eq!(to_cstring(&Json::Array(vec![])), Ok(buffer("[]")));
    assert_eq!(to_cstring(&Json::Object(vec![])), Ok(buffer("{}")));
    assert_eq!(
        to_cstring(&Json::Array(vec![Json::Number(JsonNumber::Negative(-7)), unsigned(u64::MAX)])),
        Ok(buffer("[-7,18446744073709551615]"))
    );
}

#[test]
fn to_cstring_keeps_last_of_repeated_keys() {
    let value = Json::Object(vec![
        ("k".to_string(), unsigned(1)),
        ("a".to_string(), Json::Null),
        ("k".to_string(), unsigned(2)),
    ]);
    assert_eq!(to_cstring(&value), Ok(buffer(r#"{"a":null,"k":2}"#)));
}

#[test]
fn to_cstring_escapes_what_a_c_string_cannot_hold() {
    let written = to_cstring(&text("a\u{0}b\n\"")).unwrap();
    assert_eq!(written.as_str(), "\"a\\u0000b\\n\\\"\"");
    assert!(!written.as_str().contains('\u{0}'));
}

#[test]
fn numbers_pass_through_unchanged() {
    for source in ["1.5", "-0.25", "1e+100", "123456789.125", "0.1", "-1e-7"] {
        let parsed = parse_text(source).unwrap();
        assert!(matches!(parsed, Json::Number(JsonNumber::Other(_))));
        assert_eq!(to_cstring(&parsed), Ok(buffer(source)));
    }
    assert_eq!(to_cstring(&parse_text("1e100").unwrap()), Ok(buffer("1e+100")));
    assert_eq!(to_cstring(&parse_text("2.50").unwrap()), Ok(buffer("2.5")));
    let document = r#"{"payload":{"delta":-4,"price":12.75,"qty":3}}"#;
    assert_eq!(to_cstring(&parse_text(document).unwrap()), Ok(buffer(document)));
}

#[test]
fn buffer_from_passes_text_and_refuses_nul() {
    assert_eq!(buffer_from(Ok("{}".to_string())), Ok(buffer("{}")));
    assert_eq!(buffer_from(Ok(String::new())), Ok(buffer("")));
    assert_eq!(
        buffer_from(Ok("a\u{0}b".to_string())),
        Err(BridgeError::Serialize(
            "failed to build c string: nul byte found in provided data at position: 1".to_string()
        ))
    );
    assert_eq!(
        buffer_from(Ok("\u{0}".to_string())),
        Err(BridgeError::Serialize(
            "failed to build c string: nul byte found in provided data at position: 0".to_string()
        ))
    );
    assert_eq!(
        buffer_from(Ok("gr\u{fc}\u{df}e \u{1f600} 12345\u{0}\u{0}".to_string())),
        Err(BridgeError::Serialize(
            "failed to build c string: nul byte found in provided data at position: 18".to_string()
        ))
    );
    assert_eq!(
        buffer_from(Err("key must be a string".to_string())),
        Err(BridgeError::Serialize(
            "failed to serialize json: key must be a string".to_string()
        ))
    );
}

#[test]
fn decoding_twice_gives_equal_values() {
    let raw = br#"{"sort": "id:desc", "take": 3, "nested": [{"a": 1.25}]}"#;
    assert_eq!(parse_json(Some(raw)), parse_json(Some(raw)));
    assert_eq!(parse_json(Some(b"{")), parse_json(Some(b"{")));
}
