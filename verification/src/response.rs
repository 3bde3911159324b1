//! Parsing and classifying the raw response to a method call.
//!
//! The raw bytes are first parsed as a JSON document; the resulting value
//! is then held against the response envelope shape: it must be an object
//! carrying exactly one of `result` and `error`. A well-formed `error`
//! object becomes a `JsonRpcError` with its payload verbatim; a `result`
//! is handed out when the envelope's id equals the id the request carried;
//! every other shape is a `ResponseError` naming the violated expectation.

use vstd::prelude::*;

use crate::json::{jdata, jdata_members, lookup, JsonData, JsonValue};
use crate::request::{id_data, Id};
use crate::Error;

verus! {

/// A member of a JSON object envelope, if the value is an object at all.
pub open spec fn obj_lookup(d: JsonData, key: Seq<char>) -> Option<JsonData> {
    if d is Obj {
        lookup(d->Obj_0, key)
    } else {
        Option::None
    }
}

/// The envelope's `result` member.
pub open spec fn result_value(d: JsonData) -> Option<JsonData> {
    obj_lookup(d, "result"@)
}

/// The envelope's `error` member.
pub open spec fn error_object(d: JsonData) -> Option<JsonData> {
    obj_lookup(d, "error"@)
}

/// The envelope's `id` member.
pub open spec fn response_id(d: JsonData) -> Option<JsonData> {
    obj_lookup(d, "id"@)
}

/// A well-formed error object: an object with an integer `code` that a
/// machine integer can carry and a string `message`.
pub open spec fn wf_error_object(e: JsonData) -> bool {
    &&& match obj_lookup(e, "code"@) {
        Option::Some(JsonData::Num(n)) => i64::MIN <= n <= i64::MAX,
        _ => false,
    }
    &&& obj_lookup(e, "message"@) matches Option::Some(JsonData::Str(_))
}

/// The code of a well-formed error object.
pub open spec fn eobj_code(e: JsonData) -> int {
    obj_lookup(e, "code"@)->Some_0->Num_0
}

/// The message of a well-formed error object.
pub open spec fn eobj_message(e: JsonData) -> Seq<char> {
    obj_lookup(e, "message"@)->Some_0->Str_0
}

/// A response envelope that reports a remote failure: it carries a
/// well-formed `error` object and no `result`.
pub open spec fn is_error_envelope(d: JsonData) -> bool {
    &&& error_object(d) is Some
    &&& result_value(d) is None
    &&& wf_error_object(error_object(d)->Some_0)
}

/// A response envelope that answers the request with `expected` id: it
/// carries a `result`, no `error`, and exactly the expected id.
pub open spec fn is_success_envelope(d: JsonData, expected: Id) -> bool {
    &&& result_value(d) is Some
    &&& error_object(d) is None
    &&& response_id(d) == Option::Some(id_data(expected))
}

/// The view of an optional JSON value.
pub open spec fn opt_jdata(o: Option<JsonValue>) -> Option<JsonData> {
    match o {
        Option::Some(v) => Option::Some(jdata(v)),
        Option::None => Option::None,
    }
}

/// How a parsed response document is classified against the expected id:
/// a success envelope yields its `result` verbatim, an error envelope
/// yields `JsonRpcError` with the error object's payload verbatim, and
/// anything else is a `ResponseError`.
pub open spec fn classified(d: JsonData, expected: Id, r: Result<JsonValue, Error>) -> bool {
    match r {
        Result::Ok(res) => is_success_envelope(d, expected) && result_value(d) == Option::Some(
            jdata(res),
        ),
        Result::Err(e) => match e {
            Error::JsonRpcError(code, msg, data) => {
                &&& is_error_envelope(d)
                &&& code as int == eobj_code(error_object(d)->Some_0)
                &&& msg@ == eobj_message(error_object(d)->Some_0)
                &&& opt_jdata(data) == obj_lookup(error_object(d)->Some_0, "data"@)
            },
            Error::ResponseError(reason) => !is_success_envelope(d, expected)
                && !is_error_envelope(d),
            _ => false,
        },
    }
}

/// The index of the first member with the given key, if any.
pub fn find_member(members: &Vec<(String, JsonValue)>, key: &String) -> (r: Option<usize>)
    ensures
        match r {
            Option::Some(i) => {
                &&& i < members@.len()
                &&& members@[i as int].0@ == key@
                &&& lookup(jdata_members(members@), key@) == Option::Some(
                    jdata(members@[i as int].1),
                )
                &&& forall|j: int| 0 <= j < i ==> members@[j].0@ != key@
            },
            Option::None => lookup(jdata_members(members@), key@) is None,
        },
{
    let n = members.len();
    proof {
        assert(members@.subrange(0, n as int) =~= members@);
    }
    let mut i: usize = 0;
    while i < n
        invariant
            n == members@.len(),
            i <= n,
            lookup(jdata_members(members@), key@) == lookup(
                jdata_members(members@.subrange(i as int, n as int)),
                key@,
            ),
            forall|j: int| 0 <= j < i ==> members@[j].0@ != key@,
        decreases n - i,
    {
        if members[i].0.eq(key) {
            proof {
                crate::json::lemma_jdata_members(members@.subrange(i as int, n as int));
            }
            return Option::Some(i);
        }
        proof {
            let tail = members@.subrange(i as int, n as int);
            assert(tail.drop_first() =~= members@.subrange(i as int + 1, n as int));
            crate::json::lemma_jdata_members(tail);
            crate::json::lemma_jdata_members_drop(tail);
        }
        i = i + 1;
    }
    Option::None
}

/// Whether a response's `id` value equals the id the request carried.
pub fn id_matches(v: &JsonValue, id: &Id) -> (r: bool)
    ensures
        r == (jdata(*v) == id_data(*id)),
{
    match (v, id) {
        (JsonValue::UintNum(u), Id::Num(n)) => *u == *n,
        (JsonValue::IntNum(i), Id::Num(n)) => *i >= 0 && (*i as u64) == *n,
        (JsonValue::Str(s), Id::Str(t)) => s.eq(t),
        (JsonValue::Null, Id::Null) => true,
        _ => false,
    }
}

/// Turns the envelope's `error` member into the classified failure: a
/// well-formed error object becomes `JsonRpcError` carrying its code,
/// message and data verbatim, anything else a `ResponseError`.
fn classify_error(e: JsonValue) -> (r: Result<JsonValue, Error>)
    ensures
        ({
            let ed = jdata(e);
            if wf_error_object(ed) {
                r matches Result::Err(Error::JsonRpcError(code, msg, data)) && code as int
                    == eobj_code(ed) && msg@ == eobj_message(ed) && opt_jdata(data) == obj_lookup(
                    ed,
                    "data"@,
                )
            } else {
                r matches Result::Err(Error::ResponseError(_))
            }
        }),
{
    match e {
        JsonValue::Obj(mut ms) => {
            let ghost ed = JsonData::Obj(jdata_members(ms@));
            let code: i64;
            match find_member(&ms, &"code".to_owned()) {
                Option::Some(ci) => match &ms[ci].1 {
                    JsonValue::UintNum(u) => {
                        if *u <= i64::MAX as u64 {
                            code = *u as i64;
                        } else {
                            return Result::Err(
                                Error::ResponseError("error object carries an oversized code"),
                            );
                        }
                    },
                    JsonValue::IntNum(i) => {
                        code = *i;
                    },
                    _ => {
                        return Result::Err(
                            Error::ResponseError("error object carries no integer code"),
                        );
                    },
                },
                Option::None => {
                    return Result::Err(
                        Error::ResponseError("error object carries no integer code"),
                    );
                },
            }
            let message: String;
            match find_member(&ms, &"message".to_owned()) {
                Option::Some(mi) => match &ms[mi].1 {
                    JsonValue::Str(s) => {
                        message = s.clone();
                    },
                    _ => {
                        return Result::Err(
                            Error::ResponseError("error object carries no string message"),
                        );
                    },
                },
                Option::None => {
                    return Result::Err(
                        Error::ResponseError("error object carries no string message"),
                    );
                },
            }
            let data: Option<JsonValue> = match find_member(&ms, &"data".to_owned()) {
                Option::Some(di) => {
                    let m = ms.remove(di);
                    Option::Some(m.1)
                },
                Option::None => Option::None,
            };
            Result::Err(Error::JsonRpcError(code, message, data))
        },
        _ => Result::Err(Error::ResponseError("error member is not an object")),
    }
}

/// Classifies a parsed response document against the id the request
/// carried. The id is validated on the success path: a missing or
/// different id is a `ResponseError`. An error envelope is passed
/// through whatever id it names, since servers answer unreadable
/// requests with a null id.
pub fn parse_response(v: JsonValue, expected: &Id) -> (r: Result<JsonValue, Error>)
    ensures
        classified(jdata(v), *expected, r),
{
    match v {
        JsonValue::Obj(mut members) => {
            let ghost d = JsonData::Obj(jdata_members(members@));
            let result_found = find_member(&members, &"result".to_owned());
            let error_found = find_member(&members, &"error".to_owned());
            match (result_found, error_found) {
                (Option::Some(ri), Option::None) => {
                    match find_member(&members, &"id".to_owned()) {
                        Option::Some(ii) => {
                            if id_matches(&members[ii].1, expected) {
                                let m = members.remove(ri);
                                Result::Ok(m.1)
                            } else {
                                Result::Err(
                                    Error::ResponseError(
                                        "response id does not match the request id",
                                    ),
                                )
                            }
                        },
                        Option::None => Result::Err(Error::ResponseError("response carries no id")),
                    }
                },
                (Option::None, Option::Some(ei)) => {
                    let m = members.remove(ei);
                    classify_error(m.1)
                },
                (Option::Some(ri), Option::Some(ei)) => Result::Err(
                    Error::ResponseError("response carries both result and error"),
                ),
                (Option::None, Option::None) => Result::Err(
                    Error::ResponseError("response carries neither result nor error"),
                ),
            }
        },
        _ => Result::Err(Error::ResponseError("response is not a JSON object")),
    }
}

/// What the bytes of a response parse to as a JSON document, if they are
/// well-formed JSON whose numbers the integer model can carry.
pub uninterp spec fn parsed_doc(bytes: Seq<u8>) -> Option<JsonData>;

/// Relies on `serde_json::from_slice::<serde_json::Value>`: parses the
/// bytes as one JSON document, accepting exactly the documents the JSON
/// grammar allows; the result is a function of the bytes alone.
/// `convert_value` then carries the document into the library's model.
#[verifier::external_body]
pub(crate) fn parse_json(bytes: &Vec<u8>) -> (r: Result<JsonValue, ()>)
    ensures
        match r {
            Result::Ok(v) => parsed_doc(bytes@) == Option::Some(jdata(v)),
            Result::Err(u) => parsed_doc(bytes@) is None,
        },
{
    match serde_json::from_slice::<serde_json::Value>(bytes.as_slice()) {
        Result::Ok(v) => convert_value(v),
        Result::Err(_) => Result::Err(()),
    }
}

/// Declares `serde_json::Value`, the outside type the parse wrapper and
/// its conversion half pass between them.
#[verifier::external_type_specification]
#[verifier::external_body]
pub struct ExValue(serde_json::Value);

/// Relies on `serde_json::Value` pattern access alone; this is the
/// conversion half of `parse_json`, a separate function only because it
/// recurses, and it is called from nowhere else. A number that fits
/// neither `u64` nor `i64` has no place in the model and fails the whole
/// conversion.
#[verifier::external_body]
fn convert_value(v: serde_json::Value) -> Result<JsonValue, ()> {
    match v {
        serde_json::Value::Null => Ok(JsonValue::Null),
        serde_json::Value::Bool(b) => Ok(JsonValue::Bool(b)),
        serde_json::Value::String(s) => Ok(JsonValue::Str(s)),
        serde_json::Value::Number(n) => n.as_u64().map(JsonValue::UintNum).or_else(|| n.as_i64().map(JsonValue::IntNum)).ok_or(()),
        serde_json::Value::Array(a) => a.into_iter().map(convert_value).collect::<Result<_, _>>().map(JsonValue::Arr),
        serde_json::Value::Object(o) => o.into_iter().map(|(k, m)| convert_value(m).map(|c| (k, c))).collect::<Result<_, _>>().map(JsonValue::Obj),
    }
}

} // verus!
