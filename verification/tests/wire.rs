use serde_json::Value;
use sidecar_bridge::wire::{decode_response, encode_request, frame_request, push_decimal};
use sidecar_bridge::{CallError, Response};

fn json(text: &str) -> Value {
    serde_json::from_str::<Value>(text).unwrap()
}

fn decimal_of(n: u64) -> String {
    let mut out = String::new();
    push_decimal(&mut out, n);
    out
}

#[test]
fn decimal_of_single_digits() {
    assert_eq!(decimal_of(0), "0");
    assert_eq!(decimal_of(1), "1");
    assert_eq!(decimal_of(9), "9");
}

#[test]
fn decimal_of_longer_numbers() {
    assert_eq!(decimal_of(10), "10");
    assert_eq!(decimal_of(11), "11");
    assert_eq!(decimal_of(100), "100");
    assert_eq!(decimal_of(1_234_567_890), "1234567890");
    assert_eq!(decimal_of(9_007_199_254_740_993), "9007199254740993");
}

#[test]
fn decimal_of_largest_u64() {
    assert_eq!(decimal_of(u64::MAX), "18446744073709551615");
}

#[test]
fn decimal_is_appended_to_what_is_there() {
    let mut out = String::from("id=");
    push_decimal(&mut out, 42);
    assert_eq!(out, "id=42");
}

#[test]
fn decimal_agrees_with_std_formatting() {
    let mut n: u64 = 1;
    for _ in 0..64 {
        assert_eq!(decimal_of(n), format!("{}", n));
        assert_eq!(decimal_of(n - 1), format!("{}", n - 1));
        n = n.wrapping_mul(2);
    }
}

#[test]
fn frame_request_puts_the_parts_in_place() {
    let line = frame_request(1, "\"echo\"", "{\"x\":1}");
    assert_eq!(line, "{\"jsonrpc\":\"2.0\",\"id\":1,\"method\":\"echo\",\"params\":{\"x\":1}}");
}

#[test]
fn frame_request_with_large_id_and_null_params() {
    let line = frame_request(u64::MAX, "\"m\"", "null");
    assert_eq!(
        line,
        "{\"jsonrpc\":\"2.0\",\"id\":18446744073709551615,\"method\":\"m\",\"params\":null}"
    );
}

#[test]
fn encode_request_prints_the_wire_format() {
    let line = encode_request(1, "echo", &json("{\"x\":1}")).unwrap();
    assert_eq!(line, "{\"jsonrpc\":\"2.0\",\"id\":1,\"method\":\"echo\",\"params\":{\"x\":1}}");
}

#[test]
fn encode_request_quotes_the_method_name() {
    let line = encode_request(7, "say \"hi\"\\now", &Value::Null).unwrap();
    assert_eq!(
        line,
        "{\"jsonrpc\":\"2.0\",\"id\":7,\"method\":\"say \\\"hi\\\"\\\\now\",\"params\":null}"
    );
}

#[test]
fn encode_request_never_spans_two_lines() {
    let params = json("{\"text\":\"first\\nsecond\\r\\nthird\",\"list\":[1,2,{\"k\":\"\\n\"}]}");
    let line = encode_request(3, "multi\nline\r\nmethod", &params).unwrap();
    assert!(!line.contains('\n'));
    assert!(!line.contains('\r'));
    assert_eq!(
        line,
        "{\"jsonrpc\":\"2.0\",\"id\":3,\"method\":\"multi\\nline\\r\\nmethod\",\"params\":{\"list\":[1,2,{\"k\":\"\\n\"}],\"text\":\"first\\nsecond\\r\\nthird\"}}"
    );
}

#[test]
fn encode_request_is_read_back_by_a_json_parser() {
    let params = json("[true,null,{\"deep\":{\"deeper\":[1.5,-2,\"x\"]}}]");
    let line = encode_request(99, "do.it", &params).unwrap();
    let back = json(&line);
    assert_eq!(back.get("jsonrpc"), Some(&Value::from("2.0")));
    assert_eq!(back.get("id"), Some(&Value::from(99u64)));
    assert_eq!(back.get("method"), Some(&Value::from("do.it")));
    assert_eq!(back.get("params"), Some(&params));
    assert_eq!(back.as_object().unwrap().len(), 4);
}

#[test]
fn encode_request_keeps_text_outside_ascii() {
    let line = encode_request(2, "grüße", &json("\"日本\"")).unwrap();
    assert_eq!(line, "{\"jsonrpc\":\"2.0\",\"id\":2,\"method\":\"grüße\",\"params\":\"日本\"}");
}

#[test]
fn encode_request_does_not_fail_with_encode_on_plain_values() {
    let outcome = encode_request(5, "", &json("{}"));
    assert!(!matches!(outcome, Err(CallError::Encode(_))));
    assert_eq!(outcome.unwrap(), "{\"jsonrpc\":\"2.0\",\"id\":5,\"method\":\"\",\"params\":{}}");
}

#[test]
fn decode_response_reads_a_result() {
    let response = decode_response("{\"id\":7,\"result\":{\"x\":1}}").unwrap();
    assert_eq!(response.id, 7);
    assert_eq!(response.payload, json("{\"x\":1}"));
}

#[test]
fn decode_response_reads_an_error_where_there_is_no_result() {
    let response = decode_response("{\"id\":8,\"error\":{\"code\":-1,\"message\":\"boom\"}}").unwrap();
    assert_eq!(response.id, 8);
    assert_eq!(response.payload, json("{\"code\":-1,\"message\":\"boom\"}"));
}

#[test]
fn decode_response_prefers_the_result_to_the_error() {
    let response = decode_response("{\"error\":\"bad\",\"id\":9,\"result\":\"good\"}").unwrap();
    assert_eq!(response.id, 9);
    assert_eq!(response.payload, Value::from("good"));
}

#[test]
fn decode_response_without_result_or_error_carries_null() {
    let response = decode_response("{\"id\":10}").unwrap();
    assert_eq!(response.id, 10);
    assert_eq!(response.payload, Value::Null);
}

#[test]
fn decode_response_keeps_a_result_that_is_null() {
    let response = decode_response("{\"id\":11,\"result\":null,\"error\":\"unused\"}").unwrap();
    assert_eq!(response.id, 11);
    assert_eq!(response.payload, Value::Null);
}

#[test]
fn decode_response_ignores_other_members_and_white_space() {
    let response =
        decode_response("  { \"jsonrpc\" : \"2.0\", \"result\" : [1, 2], \"id\" : 12 }  ").unwrap();
    assert_eq!(response.id, 12);
    assert_eq!(response.payload, json("[1,2]"));
}

#[test]
fn decode_response_reads_the_largest_id() {
    let response = decode_response("{\"id\":18446744073709551615,\"result\":0}").unwrap();
    assert_eq!(response.id, u64::MAX);
}

#[test]
fn decode_response_rejects_text_that_is_no_json() {
    assert!(decode_response("").is_none());
    assert!(decode_response("not json").is_none());
    assert!(decode_response("{\"id\":1,\"result\":").is_none());
    assert!(decode_response("{\"id\":1,\"result\":1} trailing").is_none());
    assert!(decode_response("{'id':1}").is_none());
}

#[test]
fn decode_response_rejects_a_document_without_an_unsigned_id() {
    assert!(decode_response("{\"result\":1}").is_none());
    assert!(decode_response("{\"id\":-1,\"result\":1}").is_none());
    assert!(decode_response("{\"id\":1.5,\"result\":1}").is_none());
    assert!(decode_response("{\"id\":\"1\",\"result\":1}").is_none());
    assert!(decode_response("{\"id\":null,\"result\":1}").is_none());
    assert!(decode_response("{\"id\":18446744073709551616,\"result\":1}").is_none());
}

#[test]
fn decode_response_rejects_json_that_is_no_object() {
    assert!(decode_response("[1,2,3]").is_none());
    assert!(decode_response("42").is_none());
    assert!(decode_response("\"id\"").is_none());
    assert!(decode_response("null").is_none());
}

#[test]
fn assemble_needs_an_id() {
    assert!(Response::assemble(None, Some(Value::from(1)), None).is_none());
    assert!(Response::assemble(None, None, Some(Value::from(1))).is_none());
    assert!(Response::assemble(None, None, None).is_none());
}

#[test]
fn assemble_takes_result_then_error_then_null() {
    let both = Response::assemble(Some(4), Some(Value::from("r")), Some(Value::from("e"))).unwrap();
    assert_eq!((both.id, both.payload), (4, Value::from("r")));
    let error = Response::assemble(Some(5), None, Some(Value::from("e"))).unwrap();
    assert_eq!((error.id, error.payload), (5, Value::from("e")));
    let neither = Response::assemble(Some(6), None, None).unwrap();
    assert_eq!((neither.id, neither.payload), (6, Value::Null));
}

#[test]
fn read_looks_at_the_members_of_an_object() {
    let response = Response::read(&json("{\"id\":3,\"result\":[\"a\"]}")).unwrap();
    assert_eq!((response.id, response.payload), (3, json("[\"a\"]")));
    assert!(Response::read(&json("{\"result\":[\"a\"]}")).is_none());
    assert!(Response::read(&json("[{\"id\":3}]")).is_none());
}

#[test]
fn encode_request_escapes_every_control_character() {
    for code in 0u32..0x80 {
        let c = char::from_u32(code).unwrap();
        let method = format!("a{}b", c);
        let params = Value::from(format!("x{}y", c));
        let line = encode_request(1, &method, &params).unwrap();
        assert!(line.chars().all(|ch| ch >= ' '), "code {} leaves a control character", code);
        let back = json(&line);
        assert_eq!(back.get("method"), Some(&Value::from(method)));
        assert_eq!(back.get("params"), Some(&params));
    }
}
