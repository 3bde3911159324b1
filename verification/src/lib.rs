//! Transport-agnostic core of a JSON-RPC 2.0 client.
//!
//! Given a method name, a serialized argument value, and a transport able
//! to allocate request ids and send bytes, this crate builds a wire-correct
//! request envelope, dispatches it lazily, and classifies the raw response
//! into a typed result or one of four error kinds. Nothing is sent until
//! the returned [`RpcRequest`] is driven, either poll by poll or through
//! the blocking [`RpcRequest::call`].

use vstd::prelude::*;

pub mod json;
pub mod request;
pub mod response;

verus! {

use crate::json::JsonValue;
use crate::request::{serialize_request, Id};
use crate::response::{classified, parse_json, parse_response, parsed_doc};

/// Everything a method call can fail with. Callers discriminate by kind:
/// the transport failed to deliver bytes, the arguments could not be
/// turned into wire bytes, the response was not a well-formed answer to
/// the request, or the remote method itself reported an error.
#[derive(Debug, PartialEq, Eq)]
pub enum Error {
    /// The underlying transport failed to deliver the request or the
    /// response; carries the transport's own description.
    TransportError(String),
    /// The method arguments could not be serialized; carries the
    /// serializer's own description.
    SerializeError(String),
    /// The response bytes were not a well-formed, matching JSON-RPC 2.0
    /// response; names the violated expectation.
    ResponseError(&'static str),
    /// The remote method answered with a JSON-RPC 2.0 error object:
    /// its code, its message, and its optional data, verbatim.
    JsonRpcError(i64, String, Option<JsonValue>),
}

/// What one poll of a transport's send operation reports: nothing yet,
/// the raw response bytes, or a transport failure described in words.
pub enum TransportPoll {
    NotReady,
    Ready(Vec<u8>),
    Failed(String),
}

/// What a transport's send operation resolved to once driven to
/// completion: the raw response bytes or a transport failure.
pub enum TransportDone {
    Ready(Vec<u8>),
    Failed(String),
}

/// The readiness of a lazily driven value.
#[derive(Debug, PartialEq, Eq)]
pub enum Async<T> {
    Ready(T),
    NotReady,
}

/// The in-flight send operation a transport hands back: polling it either
/// reports the outcome or asks to be polled again later. It never blocks.
pub trait SendFuture {
    /// Polls the operation once.
    fn poll(&mut self) -> TransportPoll;

    /// Consumes the operation and drives it to completion on the current
    /// thread, blocking until the outcome is there.
    fn wait(self) -> TransportDone;
}

/// What a byte-level transport must offer to carry method calls: id
/// allocation and a non-blocking send. A transport instance must not hand
/// out an id it already handed out while that id's request is in flight,
/// and `send` must be callable while other sends are outstanding; this
/// core relies on neither for safety, only the wire does.
pub trait Transport {
    /// The in-flight operation type this transport returns from `send`.
    type Future: SendFuture;

    /// Returns an id not yet used on this transport instance.
    fn get_next_id(&mut self) -> u64;

    /// Begins sending the given bytes and hands back the in-flight
    /// operation that will complete with the raw response.
    fn send(&self, json_data: Vec<u8>) -> Self::Future;
}

/// How the outcome of one completed transport poll maps to the final
/// value of a call: a transport failure is wrapped verbatim, response
/// bytes are parsed as a JSON document and classified against the
/// expected id, and unparseable bytes are a `ResponseError`.
pub open spec fn call_matches(
    outcome: TransportDone,
    expected: Id,
    r: Result<JsonValue, Error>,
) -> bool {
    match outcome {
        TransportDone::Failed(m) => r == Result::<JsonValue, Error>::Err(Error::TransportError(m)),
        TransportDone::Ready(bytes) => match parsed_doc(bytes@) {
            Option::Some(d) => classified(d, expected, r),
            Option::None => r matches Result::Err(Error::ResponseError(_)),
        },
    }
}

/// How the result of one poll of a pending request relates to what the
/// transport operation reported: not ready is passed upward, and a
/// completed outcome resolves as `call_matches` says.
pub open spec fn poll_matches(
    outcome: TransportPoll,
    expected: Id,
    r: Result<Async<JsonValue>, Error>,
) -> bool {
    match outcome {
        TransportPoll::NotReady => r == Result::<Async<JsonValue>, Error>::Ok(Async::NotReady),
        TransportPoll::Ready(bytes) => match r {
            Result::Ok(Async::Ready(res)) => call_matches(
                TransportDone::Ready(bytes),
                expected,
                Result::Ok(res),
            ),
            Result::Ok(Async::NotReady) => false,
            Result::Err(e) => call_matches(TransportDone::Ready(bytes), expected, Result::Err(e)),
        },
        TransportPoll::Failed(m) => r == Result::<Async<JsonValue>, Error>::Err(
            Error::TransportError(m),
        ),
    }
}

/// Resolves what a completed transport operation delivered into the
/// request's answer: the single place where response bytes meet the
/// parser.
fn complete_done(outcome: TransportDone, expected: &Id) -> (r: Result<JsonValue, Error>)
    ensures
        call_matches(outcome, *expected, r),
{
    match outcome {
        TransportDone::Failed(m) => Result::Err(Error::TransportError(m)),
        TransportDone::Ready(bytes) => match parse_json(&bytes) {
            Result::Ok(v) => parse_response(v, expected),
            Result::Err(_) => Result::Err(Error::ResponseError("response is not well-formed JSON")),
        },
    }
}

/// Resolves one transport poll into the request's answer, passing a
/// not-yet-ready operation upward unchanged.
fn complete_poll(outcome: TransportPoll, expected: &Id) -> (r: Result<Async<JsonValue>, Error>)
    ensures
        poll_matches(outcome, *expected, r),
{
    match outcome {
        TransportPoll::NotReady => Result::Ok(Async::NotReady),
        TransportPoll::Failed(m) => Result::Err(Error::TransportError(m)),
        TransportPoll::Ready(bytes) => match complete_done(TransportDone::Ready(bytes), expected) {
            Result::Ok(res) => Result::Ok(Async::Ready(res)),
            Result::Err(e) => Result::Err(e),
        },
    }
}

/// A dispatched call waiting to be driven: the in-flight transport
/// operation and the id the request carried, against which the response
/// is checked.
struct InnerRpcRequest<F> {
    transport_future: F,
    id: Id,
}

impl<F> InnerRpcRequest<F> {
    fn new(transport_future: F, id: Id) -> (r: Self)
        ensures
            r.id == id,
            r.transport_future == transport_future,
    {
        Self { transport_future, id }
    }
}

impl<F: SendFuture> InnerRpcRequest<F> {
    fn poll(&mut self) -> (r: Result<Async<JsonValue>, Error>)
        ensures
            final(self).id == old(self).id,
            exists|outcome: TransportPoll| poll_matches(outcome, old(self).id, r),
    {
        let outcome = self.transport_future.poll();
        let ghost witness = outcome;
        let r = complete_poll(outcome, &self.id);
        proof {
            assert(poll_matches(witness, self.id, r));
        }
        r
    }
}

/// A lazy method call. Nothing has been sent when a failed one is
/// returned, and a pending one owns the transport's in-flight send
/// operation; in either case the call does no further work until it is
/// driven, poll by poll or through [`RpcRequest::call`].
pub struct RpcRequest<F>(Result<InnerRpcRequest<F>, Option<Error>>);

impl<F> RpcRequest<F> {
    /// A request still waiting on its transport operation.
    pub closed spec fn is_pending(self) -> bool {
        self.0 is Ok
    }

    /// The id the dispatched request carries, when pending.
    pub closed spec fn expected_id(self) -> Id {
        self.0->Ok_0.id
    }

    /// A request that already failed and still holds its error.
    pub closed spec fn is_failed(self) -> bool {
        self.0 is Err && self.0->Err_0 is Some
    }

    /// The stored error of a failed request.
    pub closed spec fn failure(self) -> Error {
        self.0->Err_0->Some_0
    }

    /// A failed request whose error was already consumed by a drive;
    /// driving it again is a contract violation.
    pub closed spec fn is_spent(self) -> bool {
        self.0 is Err && self.0->Err_0 is None
    }

    /// A request that is terminally failed before anything was sent.
    pub fn failed(error: Error) -> (r: Self)
        ensures
            r.is_failed(),
            r.failure() == error,
    {
        RpcRequest(Result::Err(Option::Some(error)))
    }
}

impl<F: SendFuture> RpcRequest<F> {
    /// Drives the request one step. A failed request yields its stored
    /// error, once; a pending one polls the transport operation and, when
    /// that completes, resolves its bytes or its failure as
    /// `poll_matches` says. Polling an already consumed failure is a
    /// contract violation and stays excluded.
    pub fn poll(&mut self) -> (r: Result<Async<JsonValue>, Error>)
        requires
            !old(self).is_spent(),
        ensures
            old(self).is_failed() ==> r == Result::<Async<JsonValue>, Error>::Err(
                old(self).failure(),
            ) && final(self).is_spent(),
            old(self).is_pending() ==> final(self).is_pending() && final(self).expected_id()
                == old(self).expected_id() && exists|outcome: TransportPoll|
                poll_matches(outcome, old(self).expected_id(), r),
    {
        match &mut self.0 {
            Result::Ok(inner) => inner.poll(),
            Result::Err(error_option) => {
                let e = error_option.take();
                Result::Err(e.unwrap())
            },
        }
    }

    /// Consumes the request and drives it to completion on the current
    /// thread: a failed request yields its stored error, a pending one
    /// blocks on the transport operation's own `wait` and resolves what
    /// it delivered, as `call_matches` says. Equivalent to driving the
    /// request under a blocking runner.
    pub fn call(self) -> (r: Result<JsonValue, Error>)
        requires
            !self.is_spent(),
        ensures
            self.is_failed() ==> r == Result::<JsonValue, Error>::Err(self.failure()),
            self.is_pending() ==> exists|outcome: TransportDone|
                call_matches(outcome, self.expected_id(), r),
    {
        match self.0 {
            Result::Ok(inner) => {
                let outcome = inner.transport_future.wait();
                let ghost witness = outcome;
                let r = complete_done(outcome, &inner.id);
                proof {
                    assert(call_matches(witness, self.expected_id(), r));
                }
                r
            },
            Result::Err(error_option) => Result::Err(error_option.unwrap()),
        }
    }
}

/// Dispatches a call under an already allocated id: serializes the
/// envelope and, on success, begins the transport send and wraps the
/// in-flight operation with the id; a failed serialization yields an
/// already failed request carrying `SerializeError`, and nothing is sent.
/// The id lands in the request verbatim: this core never renumbers what
/// the transport's allocator produced.
pub fn dispatch<T: Transport>(
    transport: &T,
    id: u64,
    method: String,
    args: Result<JsonValue, String>,
) -> (r: RpcRequest<T::Future>)
    ensures
        args matches Result::Err(m) ==> r.is_failed() && r.failure() == Error::SerializeError(m),
        args matches Result::Ok(v) ==> r.is_pending() && r.expected_id() == Id::Num(id),
{
    match args {
        Result::Err(m) => RpcRequest::failed(Error::SerializeError(m)),
        Result::Ok(v) => {
            let request_id = Id::Num(id);
            let bytes = serialize_request(&request_id, &method, v);
            let transport_future = transport.send(bytes);
            RpcRequest(Result::Ok(InnerRpcRequest::new(transport_future, request_id)))
        },
    }
}

/// Prepares a lazy [`RpcRequest`] for `method` on the given transport.
/// The id is whatever the transport's allocator returns for this call;
/// `args` carries the serialized argument value, or the failure of
/// serializing it, in which case the returned request is already failed
/// with `SerializeError` and the transport is never asked to send.
pub fn call_method<T: Transport>(
    transport: &mut T,
    method: String,
    args: Result<JsonValue, String>,
) -> (r: RpcRequest<T::Future>)
    ensures
        args matches Result::Err(m) ==> r.is_failed() && r.failure() == Error::SerializeError(m),
        args matches Result::Ok(v) ==> r.is_pending() && r.expected_id() matches Id::Num(_),
{
    let id = transport.get_next_id();
    dispatch(&*transport, id, method, args)
}

} // verus!
