//! Tests of the wire encoding: the request envelope, the params mapping
//! rule, and the JSON codec.

use jsonrpc_client_core::json::json_to_bytes;
use jsonrpc_client_core::json::JsonValue;
use jsonrpc_client_core::request::serialize_request;
use jsonrpc_client_core::request::Id;

fn encoded_text(v: &JsonValue) -> String {
    String::from_utf8(json_to_bytes(v)).unwrap()
}

fn request_text(id: Id, method: &str, args: JsonValue) -> String {
    String::from_utf8(serialize_request(&id, &method.to_string(), args)).unwrap()
}

#[test]
fn fizz_buzz_request_bytes() {
    let text = request_text(Id::Num(1), "fizz_buzz", JsonValue::UintNum(3));
    assert_eq!(
        "{\"jsonrpc\":\"2.0\",\"method\":\"fizz_buzz\",\"params\":[3],\"id\":1}",
        text
    );
}

#[test]
fn array_arguments_become_positional_params() {
    let args = JsonValue::Arr(vec![
        JsonValue::UintNum(1),
        JsonValue::Str("two".to_string()),
        JsonValue::Bool(true),
    ]);
    let text = request_text(Id::Num(9), "m", args);
    assert_eq!(
        "{\"jsonrpc\":\"2.0\",\"method\":\"m\",\"params\":[1,\"two\",true],\"id\":9}",
        text
    );
}

#[test]
fn null_arguments_leave_params_out() {
    let text = request_text(Id::Num(2), "status", JsonValue::Null);
    assert_eq!("{\"jsonrpc\":\"2.0\",\"method\":\"status\",\"id\":2}", text);
}

#[test]
fn object_arguments_become_named_params() {
    let args = JsonValue::Obj(vec![
        ("a".to_string(), JsonValue::UintNum(1)),
        ("b".to_string(), JsonValue::Null),
    ]);
    let text = request_text(Id::Num(3), "m", args);
    assert_eq!(
        "{\"jsonrpc\":\"2.0\",\"method\":\"m\",\"params\":{\"a\":1,\"b\":null},\"id\":3}",
        text
    );
}

#[test]
fn scalar_arguments_are_wrapped_into_one_element_arrays() {
    let text = request_text(Id::Num(4), "m", JsonValue::Str("x".to_string()));
    assert_eq!(
        "{\"jsonrpc\":\"2.0\",\"method\":\"m\",\"params\":[\"x\"],\"id\":4}",
        text
    );
    let text = request_text(Id::Num(4), "m", JsonValue::Bool(false));
    assert_eq!(
        "{\"jsonrpc\":\"2.0\",\"method\":\"m\",\"params\":[false],\"id\":4}",
        text
    );
    let text = request_text(Id::Num(4), "m", JsonValue::IntNum(-7));
    assert_eq!(
        "{\"jsonrpc\":\"2.0\",\"method\":\"m\",\"params\":[-7],\"id\":4}",
        text
    );
}

#[test]
fn string_and_null_ids_are_carried_through() {
    let text = request_text(Id::Str("abc".to_string()), "m", JsonValue::Null);
    assert_eq!("{\"jsonrpc\":\"2.0\",\"method\":\"m\",\"id\":\"abc\"}", text);
    let text = request_text(Id::Null, "m", JsonValue::Null);
    assert_eq!("{\"jsonrpc\":\"2.0\",\"method\":\"m\",\"id\":null}", text);
}

#[test]
fn numbers_encode_in_decimal() {
    assert_eq!("0", encoded_text(&JsonValue::UintNum(0)));
    assert_eq!("10", encoded_text(&JsonValue::UintNum(10)));
    assert_eq!("18446744073709551615", encoded_text(&JsonValue::UintNum(u64::MAX)));
    assert_eq!("-1", encoded_text(&JsonValue::IntNum(-1)));
    assert_eq!("-9223372036854775808", encoded_text(&JsonValue::IntNum(i64::MIN)));
    assert_eq!("-32600", encoded_text(&JsonValue::IntNum(-32600)));
}

#[test]
fn strings_escape_quotes_backslashes_and_non_ascii() {
    assert_eq!("\"plain\"", encoded_text(&JsonValue::Str("plain".to_string())));
    assert_eq!(
        "\"a\\\"b\\\\c\"",
        encoded_text(&JsonValue::Str("a\"b\\c".to_string()))
    );
    assert_eq!(
        "\"line\\u000abreak\"",
        encoded_text(&JsonValue::Str("line\nbreak".to_string()))
    );
    assert_eq!(
        "\"caf\\u00e9\"",
        encoded_text(&JsonValue::Str("caf\u{e9}".to_string()))
    );
    assert_eq!(
        "\"\\ud83d\\ude00\"",
        encoded_text(&JsonValue::Str("\u{1f600}".to_string()))
    );
}

#[test]
fn empty_containers_encode_bare() {
    assert_eq!("[]", encoded_text(&JsonValue::Arr(vec![])));
    assert_eq!("{}", encoded_text(&JsonValue::Obj(vec![])));
    assert_eq!("null", encoded_text(&JsonValue::Null));
    assert_eq!("true", encoded_text(&JsonValue::Bool(true)));
}
