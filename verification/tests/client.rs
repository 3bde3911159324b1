//! End-to-end tests driving method calls through small in-process
//! transports.

use jsonrpc_client_core::call_method;
use jsonrpc_client_core::Async;
use jsonrpc_client_core::json::get_member;
use jsonrpc_client_core::json::JsonValue;
use jsonrpc_client_core::Error;
use jsonrpc_client_core::SendFuture;
use jsonrpc_client_core::Transport;
use jsonrpc_client_core::TransportDone;
use jsonrpc_client_core::TransportPoll;

/// A send operation that is already resolved when it is handed out.
struct ReadyFuture(Result<Vec<u8>, String>);

impl SendFuture for ReadyFuture {
    fn poll(&mut self) -> TransportPoll {
        match &self.0 {
            Ok(bytes) => TransportPoll::Ready(bytes.clone()),
            Err(msg) => TransportPoll::Failed(msg.clone()),
        }
    }

    fn wait(self) -> TransportDone {
        match self.0 {
            Ok(bytes) => TransportDone::Ready(bytes),
            Err(msg) => TransportDone::Failed(msg),
        }
    }
}

/// A test transport that just echoes back a response containing the
/// entire request as the result.
struct EchoTransport;

impl Transport for EchoTransport {
    type Future = ReadyFuture;

    fn get_next_id(&mut self) -> u64 {
        1
    }

    fn send(&self, json_data: Vec<u8>) -> ReadyFuture {
        let request = String::from_utf8(json_data).unwrap();
        let response = format!("{{\"jsonrpc\":\"2.0\",\"id\":1,\"result\":{}}}", request);
        ReadyFuture(Ok(response.into_bytes()))
    }
}

/// A transport that always returns an "Invalid request" error.
struct InvalidRequestTransport;

impl Transport for InvalidRequestTransport {
    type Future = ReadyFuture;

    fn get_next_id(&mut self) -> u64 {
        1
    }

    fn send(&self, _json_data: Vec<u8>) -> ReadyFuture {
        let response = "{\"jsonrpc\":\"2.0\",\"id\":1,\"error\":{\"code\":-32600,\
                        \"message\":\"This was an invalid request\",\"data\":[1,2,3]}}";
        ReadyFuture(Ok(response.as_bytes().to_vec()))
    }
}

/// A transport whose send operation always fails.
struct ErrorTransport;

impl Transport for ErrorTransport {
    type Future = ReadyFuture;

    fn get_next_id(&mut self) -> u64 {
        1
    }

    fn send(&self, _json_data: Vec<u8>) -> ReadyFuture {
        ReadyFuture(Err("Internal transport error".to_string()))
    }
}

fn ping<T: Transport>(transport: &mut T, arg: &str) -> Result<JsonValue, Error> {
    call_method(
        transport,
        "ping".to_string(),
        Ok(JsonValue::Str(arg.to_string())),
    )
    .call()
}

#[test]
fn echo() {
    let mut transport = EchoTransport;
    let result = ping(&mut transport, "Hello").unwrap();
    if let JsonValue::Obj(map) = result {
        assert_eq!(
            Some(&JsonValue::Str("2.0".to_string())),
            get_member(&map, &"jsonrpc".to_string())
        );
        assert_eq!(
            Some(&JsonValue::UintNum(1)),
            get_member(&map, &"id".to_string())
        );
        assert_eq!(
            Some(&JsonValue::Str("ping".to_string())),
            get_member(&map, &"method".to_string())
        );
        assert_eq!(
            Some(&JsonValue::Arr(vec![JsonValue::Str("Hello".to_string())])),
            get_member(&map, &"params".to_string())
        );
        assert_eq!(4, map.len());
    } else {
        panic!("Invalid response type: {:?}", result);
    }
}

#[test]
fn invalid_request() {
    let mut transport = InvalidRequestTransport;
    let error = ping(&mut transport, "").unwrap_err();
    if let Error::JsonRpcError(code, message, data) = error {
        assert_eq!(-32600, code);
        assert_eq!("This was an invalid request", message);
        assert_eq!(
            Some(JsonValue::Arr(vec![
                JsonValue::UintNum(1),
                JsonValue::UintNum(2),
                JsonValue::UintNum(3),
            ])),
            data
        );
    } else {
        panic!("Wrong error kind");
    }
}

#[test]
fn transport_error() {
    let mut transport = ErrorTransport;
    match ping(&mut transport, "").unwrap_err() {
        Error::TransportError(message) => {
            assert_eq!("Internal transport error", message);
        }
        _ => panic!("Wrong error kind"),
    }
}

/// A transport that panics when asked to send and hands out a fixed id.
struct MustNotSendTransport;

impl Transport for MustNotSendTransport {
    type Future = ReadyFuture;

    fn get_next_id(&mut self) -> u64 {
        1
    }

    fn send(&self, _json_data: Vec<u8>) -> ReadyFuture {
        panic!("send must not be invoked when serialization failed");
    }
}

#[test]
fn serialize_failure_skips_send() {
    let mut transport = MustNotSendTransport;
    let error = call_method(
        &mut transport,
        "ping".to_string(),
        Err("a map key is not a string".to_string()),
    )
    .call()
    .unwrap_err();
    match error {
        Error::SerializeError(message) => {
            assert_eq!("a map key is not a string", message);
        }
        _ => panic!("Wrong error kind"),
    }
}

/// An echo transport whose id allocator counts upward from a start value.
struct CountingEchoTransport {
    next_id: u64,
}

impl Transport for CountingEchoTransport {
    type Future = ReadyFuture;

    fn get_next_id(&mut self) -> u64 {
        let id = self.next_id;
        self.next_id += 1;
        id
    }

    fn send(&self, json_data: Vec<u8>) -> ReadyFuture {
        // Echo the request back under the id the request itself carries,
        // so the call only succeeds when the core kept the allocated id.
        let request = String::from_utf8(json_data).unwrap();
        let id_field = request.rfind("\"id\":").map(|at| request[at + 5..request.len() - 1].to_string());
        let response = format!(
            "{{\"jsonrpc\":\"2.0\",\"id\":{},\"result\":{}}}",
            id_field.unwrap(),
            request
        );
        ReadyFuture(Ok(response.into_bytes()))
    }
}

#[test]
fn ids_come_from_the_allocator() {
    let mut transport = CountingEchoTransport { next_id: 41 };
    let first = ping(&mut transport, "a").unwrap();
    let second = ping(&mut transport, "b").unwrap();
    if let JsonValue::Obj(map) = first {
        assert_eq!(
            Some(&JsonValue::UintNum(41)),
            get_member(&map, &"id".to_string())
        );
    } else {
        panic!("Invalid response type: {:?}", first);
    }
    if let JsonValue::Obj(map) = second {
        assert_eq!(
            Some(&JsonValue::UintNum(42)),
            get_member(&map, &"id".to_string())
        );
    } else {
        panic!("Invalid response type: {:?}", second);
    }
}

/// A transport answering every request with a fixed byte string.
struct FixedTransport(&'static str);

impl Transport for FixedTransport {
    type Future = ReadyFuture;

    fn get_next_id(&mut self) -> u64 {
        1
    }

    fn send(&self, _json_data: Vec<u8>) -> ReadyFuture {
        ReadyFuture(Ok(self.0.as_bytes().to_vec()))
    }
}

fn expect_response_error(raw: &'static str) -> &'static str {
    let mut transport = FixedTransport(raw);
    match ping(&mut transport, "x").unwrap_err() {
        Error::ResponseError(reason) => reason,
        other => panic!("Wrong error kind: {:?}", other),
    }
}

#[test]
fn response_that_is_not_json_is_rejected() {
    let reason = expect_response_error("not json at all");
    assert_eq!("response is not well-formed JSON", reason);
}

#[test]
fn response_with_float_numbers_is_outside_the_model() {
    let reason = expect_response_error("{\"jsonrpc\":\"2.0\",\"id\":1,\"result\":1.5}");
    assert_eq!("response is not well-formed JSON", reason);
}

#[test]
fn response_that_is_not_an_object_is_rejected() {
    let reason = expect_response_error("[1,2,3]");
    assert_eq!("response is not a JSON object", reason);
}

#[test]
fn response_with_result_and_error_is_rejected() {
    let reason = expect_response_error(
        "{\"jsonrpc\":\"2.0\",\"id\":1,\"result\":1,\"error\":{\"code\":1,\"message\":\"m\"}}",
    );
    assert_eq!("response carries both result and error", reason);
}

#[test]
fn response_with_neither_result_nor_error_is_rejected() {
    let reason = expect_response_error("{\"jsonrpc\":\"2.0\",\"id\":1}");
    assert_eq!("response carries neither result nor error", reason);
}

#[test]
fn response_with_wrong_id_is_rejected() {
    let reason = expect_response_error("{\"jsonrpc\":\"2.0\",\"id\":2,\"result\":1}");
    assert_eq!("response id does not match the request id", reason);
}

#[test]
fn response_without_id_is_rejected() {
    let reason = expect_response_error("{\"jsonrpc\":\"2.0\",\"result\":1}");
    assert_eq!("response carries no id", reason);
}

#[test]
fn error_without_code_is_rejected() {
    let reason =
        expect_response_error("{\"jsonrpc\":\"2.0\",\"id\":1,\"error\":{\"message\":\"m\"}}");
    assert_eq!("error object carries no integer code", reason);
}

#[test]
fn error_without_message_is_rejected() {
    let reason = expect_response_error("{\"jsonrpc\":\"2.0\",\"id\":1,\"error\":{\"code\":3}}");
    assert_eq!("error object carries no string message", reason);
}

#[test]
fn error_that_is_not_an_object_is_rejected() {
    let reason = expect_response_error("{\"jsonrpc\":\"2.0\",\"id\":1,\"error\":\"boom\"}");
    assert_eq!("error member is not an object", reason);
}

#[test]
fn error_envelope_is_accepted_without_an_id() {
    // Servers answer unreadable requests with a null or missing id, so an
    // error envelope must come through whatever id it names.
    let mut transport =
        FixedTransport("{\"error\":{\"code\":-32600,\"message\":\"This was an invalid request\",\"data\":[1,2,3]}}");
    match ping(&mut transport, "x").unwrap_err() {
        Error::JsonRpcError(code, message, data) => {
            assert_eq!(-32600, code);
            assert_eq!("This was an invalid request", message);
            assert_eq!(
                Some(JsonValue::Arr(vec![
                    JsonValue::UintNum(1),
                    JsonValue::UintNum(2),
                    JsonValue::UintNum(3),
                ])),
                data
            );
        }
        other => panic!("Wrong error kind: {:?}", other),
    }
}

#[test]
fn error_envelope_without_data_carries_none() {
    let mut transport =
        FixedTransport("{\"jsonrpc\":\"2.0\",\"id\":1,\"error\":{\"code\":7,\"message\":\"m\"}}");
    match ping(&mut transport, "x").unwrap_err() {
        Error::JsonRpcError(code, message, data) => {
            assert_eq!(7, code);
            assert_eq!("m", message);
            assert_eq!(None, data);
        }
        other => panic!("Wrong error kind: {:?}", other),
    }
}

#[test]
fn parsing_reads_documents_into_the_model() {
    // serde_json's default map keeps its members sorted by key.
    let mut transport = FixedTransport(
        "{\"jsonrpc\":\"2.0\",\"id\":1,\"result\":{\"b\":[1,-2,\"x\"],\"a\":null}}",
    );
    let result = ping(&mut transport, "x").unwrap();
    assert_eq!(
        JsonValue::Obj(vec![
            ("a".to_string(), JsonValue::Null),
            (
                "b".to_string(),
                JsonValue::Arr(vec![
                    JsonValue::UintNum(1),
                    JsonValue::IntNum(-2),
                    JsonValue::Str("x".to_string()),
                ])
            ),
        ]),
        result
    );
}

#[test]
fn encoded_requests_parse_back_unchanged() {
    // The echoed result is the request as the parser read it back, so an
    // encoder that mangled escapes or numbers would not round-trip.
    let mut transport = EchoTransport;
    let result = ping(&mut transport, "caf\u{e9} \"quoted\"").unwrap();
    if let JsonValue::Obj(map) = result {
        assert_eq!(
            Some(&JsonValue::Arr(vec![JsonValue::Str(
                "caf\u{e9} \"quoted\"".to_string()
            )])),
            get_member(&map, &"params".to_string())
        );
        assert_eq!(
            Some(&JsonValue::Str("ping".to_string())),
            get_member(&map, &"method".to_string())
        );
    } else {
        panic!("Invalid response type: {:?}", result);
    }
}

/// A send operation that reports not-ready a few times before resolving.
struct SlowFuture {
    polls_left: u32,
    bytes: Vec<u8>,
}

impl SendFuture for SlowFuture {
    fn poll(&mut self) -> TransportPoll {
        if self.polls_left > 0 {
            self.polls_left -= 1;
            TransportPoll::NotReady
        } else {
            TransportPoll::Ready(self.bytes.clone())
        }
    }

    fn wait(self) -> TransportDone {
        TransportDone::Ready(self.bytes)
    }
}

/// A transport whose operations resolve only on their third poll.
struct SlowTransport;

impl Transport for SlowTransport {
    type Future = SlowFuture;

    fn get_next_id(&mut self) -> u64 {
        1
    }

    fn send(&self, _json_data: Vec<u8>) -> SlowFuture {
        SlowFuture {
            polls_left: 2,
            bytes: "{\"jsonrpc\":\"2.0\",\"id\":1,\"result\":7}".as_bytes().to_vec(),
        }
    }
}

#[test]
fn polling_drives_a_pending_request() {
    let mut transport = SlowTransport;
    let mut request = call_method(&mut transport, "ping".to_string(), Ok(JsonValue::Null));
    assert_eq!(Ok(Async::NotReady), request.poll());
    assert_eq!(Ok(Async::NotReady), request.poll());
    assert_eq!(Ok(Async::Ready(JsonValue::UintNum(7))), request.poll());
}

#[test]
fn polling_a_failed_request_yields_its_error_once() {
    let mut transport = SlowTransport;
    let mut request = call_method(
        &mut transport,
        "ping".to_string(),
        Err("boom".to_string()),
    );
    assert_eq!(
        Err(Error::SerializeError("boom".to_string())),
        request.poll()
    );
}
