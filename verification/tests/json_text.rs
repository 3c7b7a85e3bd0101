use kubelens_mcp::json::{count_json, integer_json, JsonValue};
use kubelens_mcp::protocol::{serialize_error, serialize_response, JsonRpcResponse};
use kubelens_mcp::tools::safe_serialize_json;
use serde_json::Value;

fn from_serde(value: Value) -> JsonValue {
    match value {
        Value::Null => JsonValue::Null,
        Value::Bool(b) => JsonValue::Bool(b),
        Value::Number(n) => JsonValue::Number(n.to_string()),
        Value::String(s) => JsonValue::Str(s),
        Value::Array(a) => JsonValue::Array(a.into_iter().map(from_serde).collect()),
        Value::Object(m) => JsonValue::Object(m.into_iter().map(|(k, v)| (k, from_serde(v))).collect()),
    }
}

fn doc(text: &str) -> JsonValue {
    from_serde(serde_json::from_str(text).expect("valid JSON"))
}

fn value(text: &str) -> Value {
    serde_json::from_str(text).expect("valid JSON")
}

fn result_text(v: JsonValue) -> String {
    let text = serialize_response(&JsonRpcResponse::success(JsonValue::Null, v));
    value(&text)["result"].to_string()
}

const SAMPLES: [&str; 6] = [
    r#"null"#,
    r#"[true,false,0,-1,2.5,1e300,"x"]"#,
    r#"{"b":{"z":[],"a":{}},"a":"line\nbreak \"quoted\" \\ tab\t \u0001 é"}"#,
    r#"{"items":[{"name":"a","values":[1,[2,[3]]]},{}],"empty":[],"obj":{}}"#,
    r#""just a string""#,
    r#"{"k":1,"k":2}"#,
];

#[test]
fn responses_carry_documents_as_serde_json_writes_them() {
    for sample in SAMPLES {
        let text = serialize_response(&JsonRpcResponse::success(doc("1"), doc(sample)));
        let expected = format!(r#"{{"id":1,"jsonrpc":"2.0","result":{}}}"#, serde_json::to_string(&value(sample)).unwrap());
        assert_eq!(text, expected, "{}", sample);
    }
}

#[test]
fn pretty_text_is_what_serde_json_writes() {
    for sample in SAMPLES {
        let expected = serde_json::to_string_pretty(&value(sample)).unwrap();
        assert_eq!(safe_serialize_json(&doc(sample)), expected, "{}", sample);
    }
}

#[test]
fn unwritable_numbers_fall_back() {
    assert_eq!(safe_serialize_json(&JsonValue::Number("not a number".to_string())), "Failed to serialize diagnostic data");
    let text = serialize_response(&JsonRpcResponse::success(JsonValue::Null, JsonValue::Number("1e999".to_string())));
    assert_eq!(text, r#"{"error":{"code":-32603,"message":"Internal serialization error"},"id":null,"jsonrpc":"2.0"}"#);
}

#[test]
fn unsorted_members_are_written_in_key_order() {
    let v = JsonValue::Object(vec![
        ("b".to_string(), JsonValue::Integer(1)),
        ("a".to_string(), JsonValue::Integer(2)),
        ("b".to_string(), JsonValue::Integer(3)),
    ]);
    assert_eq!(result_text(v.duplicate()), r#"{"a":2,"b":3}"#);
    // Reading a member finds the one that is written: the last.
    assert!(matches!(v.get("b"), Some(JsonValue::Integer(3))));
}

#[test]
fn integers_and_their_texts_are_written_alike() {
    for i in [0i128, -1, 42, i64::MIN as i128, u64::MAX as i128, 1 << 64, -(1 << 70)] {
        let as_integer = serialize_response(&JsonRpcResponse::success(JsonValue::Null, JsonValue::Integer(i)));
        let as_text = serialize_response(&JsonRpcResponse::success(JsonValue::Null, JsonValue::Number(i.to_string())));
        assert_eq!(as_integer, as_text, "{}", i);
    }
    assert_eq!(
        result_text(JsonValue::Integer(1 << 64)),
        serde_json::to_string(&value("18446744073709551616")).unwrap()
    );
}

#[test]
fn floats_read_back_exactly() {
    for text in ["1.5", "0.1", "-2.2250738585072014e-308", "1.7976931348623157e308", "5e-324", "123456.789e-250"] {
        let v = doc(text);
        let written = result_text(v.duplicate());
        assert_eq!(written, serde_json::to_string(&value(text)).unwrap());
        assert_eq!(result_text(doc(&written)), written);
    }
}

#[test]
fn get_and_as_str_read_members() {
    let v = doc(r#"{"namespace":"prod","n":1}"#);
    assert_eq!(v.get("namespace").and_then(|x| x.as_str()), Some("prod"));
    assert_eq!(v.string_member("namespace"), Some("prod"));
    assert_eq!(v.string_member("n"), None);
    assert_eq!(v.string_member("missing"), None);
    assert!(v.get("missing").is_none());
    assert!(doc("[1]").get("namespace").is_none());
    assert_eq!(doc(r#""s""#).as_str(), Some("s"));
    assert_eq!(doc("1").as_str(), None);
}

#[test]
fn duplicate_is_an_equal_document() {
    let v = doc(SAMPLES[3]);
    assert_eq!(result_text(v.duplicate()), result_text(v));
}

#[test]
fn integers_are_written_in_decimal() {
    assert_eq!(result_text(integer_json(-32700)), "-32700");
    assert_eq!(result_text(integer_json(0)), "0");
    assert_eq!(result_text(integer_json(i64::MIN)), "-9223372036854775808");
    assert_eq!(result_text(integer_json(i64::MAX)), "9223372036854775807");
    assert_eq!(result_text(count_json(1234567)), "1234567");
    assert_eq!(result_text(count_json(10)), "10");
}

#[test]
fn error_frames_read_back() {
    let err = serialize_error(JsonValue::Null, -32603, "Internal serialization error".to_string());
    assert_eq!(
        err,
        r#"{"error":{"code":-32603,"message":"Internal serialization error"},"id":null,"jsonrpc":"2.0"}"#
    );
    let quoted = serialize_error(doc(r#""q""#), -32602, "bad \"name\"\n".to_string());
    let v = value(&quoted);
    assert_eq!(v["id"], Value::String("q".to_string()));
    assert_eq!(v["error"]["code"], value("-32602"));
    assert_eq!(v["error"]["message"], Value::String("bad \"name\"\n".to_string()));
}
