//! Building a JSON-RPC 2.0 request envelope and its wire bytes.
//!
//! The arguments of a call arrive already turned into a JSON value; the
//! params mapping rule decides how that value appears in the envelope:
//! `null` drops the field, an array is taken as positional params, an
//! object as named params, and any other value is wrapped into a
//! one-element positional array.

use vstd::prelude::*;

use crate::json::{
    encoded, jdata, jdata_members, jdata_seq, json_to_bytes, lemma_jdata_members, lookup,
    JsonData, JsonValue,
};

verus! {

/// A request id, as JSON-RPC 2.0 allows it: a number, a string, or null.
/// The id of a request is allocated by the transport, never by this core.
#[derive(Debug, PartialEq, Eq)]
pub enum Id {
    Num(u64),
    Str(String),
    Null,
}

/// The JSON value that carries an id on the wire.
pub open spec fn id_data(id: Id) -> JsonData {
    match id {
        Id::Num(n) => JsonData::Num(n as int),
        Id::Str(s) => JsonData::Str(s@),
        Id::Null => JsonData::Null,
    }
}

/// The params mapping rule on the serialized argument value.
pub open spec fn params_data(args: JsonData) -> Option<JsonData> {
    match args {
        JsonData::Null => Option::None,
        JsonData::Arr(items) => Option::Some(args),
        JsonData::Obj(members) => Option::Some(args),
        _ => Option::Some(JsonData::Arr(seq![args])),
    }
}

/// The members of the request envelope, in wire order: the protocol
/// version, the method, the params when the mapping rule keeps them,
/// and the id.
pub open spec fn request_members(id: Id, method: Seq<char>, args: JsonData) -> Seq<
    (Seq<char>, JsonData),
> {
    match params_data(args) {
        Option::None => seq![
            ("jsonrpc"@, JsonData::Str("2.0"@)),
            ("method"@, JsonData::Str(method)),
            ("id"@, id_data(id)),
        ],
        Option::Some(p) => seq![
            ("jsonrpc"@, JsonData::Str("2.0"@)),
            ("method"@, JsonData::Str(method)),
            ("params"@, p),
            ("id"@, id_data(id)),
        ],
    }
}

/// The whole request envelope as a JSON value.
pub open spec fn request_data(id: Id, method: Seq<char>, args: JsonData) -> JsonData {
    JsonData::Obj(request_members(id, method, args))
}

/// The id as a JSON value, ready for the envelope.
pub fn id_to_json(id: &Id) -> (r: JsonValue)
    ensures
        jdata(r) == id_data(*id),
{
    match id {
        Id::Num(n) => JsonValue::UintNum(*n),
        Id::Str(s) => JsonValue::Str(s.clone()),
        Id::Null => JsonValue::Null,
    }
}

/// Builds the request envelope for `method` with the given id and
/// arguments and encodes it to canonical JSON bytes. The arguments are
/// placed by the params mapping rule; the member order on the wire is
/// always version, method, params, id.
pub fn serialize_request(id: &Id, method: &String, args: JsonValue) -> (r: Vec<u8>)
    ensures
        r@ == encoded(request_data(*id, method@, jdata(args))),
{
    let ghost args_data = jdata(args);
    let params: Option<JsonValue> = match args {
        JsonValue::Null => Option::None,
        JsonValue::Arr(items) => Option::Some(JsonValue::Arr(items)),
        JsonValue::Obj(members) => Option::Some(JsonValue::Obj(members)),
        other => {
            let mut wrapped: Vec<JsonValue> = Vec::new();
            let ghost other_data = jdata(other);
            wrapped.push(other);
            proof {
                reveal_with_fuel(jdata_seq, 2);
                assert(wrapped@ =~= seq![wrapped@[0]]);
                assert(jdata_seq(wrapped@) =~= seq![other_data]);
            }
            Option::Some(JsonValue::Arr(wrapped))
        },
    };
    proof {
        if params is Some {
            assert(params_data(args_data) == Option::Some(jdata(params->Some_0)));
        } else {
            assert(params_data(args_data) is None);
        }
    }
    let mut members: Vec<(String, JsonValue)> = Vec::new();
    members.push(("jsonrpc".to_owned(), JsonValue::Str("2.0".to_owned())));
    members.push(("method".to_owned(), JsonValue::Str(method.clone())));
    match params {
        Option::Some(p) => members.push(("params".to_owned(), p)),
        Option::None => {},
    }
    members.push(("id".to_owned(), id_to_json(id)));
    let envelope = JsonValue::Obj(members);
    proof {
        reveal_with_fuel(jdata_members, 6);
        lemma_jdata_members(envelope->Obj_0@);
        assert(jdata_members(envelope->Obj_0@) =~~= request_members(*id, method@, args_data));
        assert(jdata(envelope) == request_data(*id, method@, args_data));
    }
    json_to_bytes(&envelope)
}

/// The envelope's `jsonrpc` member is always the literal protocol version.
pub proof fn lemma_request_version(id: Id, method: Seq<char>, args: JsonData)
    ensures
        lookup(request_members(id, method, args), "jsonrpc"@) == Option::Some(
            JsonData::Str("2.0"@),
        ),
{
    reveal_with_fuel(lookup, 5);
}

/// The envelope's `method` member is exactly the requested method name.
pub proof fn lemma_request_method(id: Id, method: Seq<char>, args: JsonData)
    ensures
        lookup(request_members(id, method, args), "method"@) == Option::Some(
            JsonData::Str(method),
        ),
{
    reveal_with_fuel(lookup, 5);
    lemma_request_keys_distinct();
    let ms = request_members(id, method, args);
    assert(ms.drop_first() =~= ms.subrange(1, ms.len() as int));
}

/// The envelope's `id` member is exactly the id handed in: the core never
/// renumbers what the transport's allocator produced.
pub proof fn lemma_request_id(id: Id, method: Seq<char>, args: JsonData)
    ensures
        lookup(request_members(id, method, args), "id"@) == Option::Some(id_data(id)),
{
    reveal_with_fuel(lookup, 5);
    lemma_request_keys_distinct();
}

/// Arguments that serialize to an array are carried verbatim as
/// positional params.
pub proof fn lemma_array_params(id: Id, method: Seq<char>, items: Seq<JsonData>)
    ensures
        lookup(request_members(id, method, JsonData::Arr(items)), "params"@) == Option::Some(
            JsonData::Arr(items),
        ),
{
    reveal_with_fuel(lookup, 5);
    lemma_request_keys_distinct();
}

/// Arguments that serialize to an object are carried verbatim as named
/// params.
pub proof fn lemma_object_params(id: Id, method: Seq<char>, members: Seq<(Seq<char>, JsonData)>)
    ensures
        lookup(request_members(id, method, JsonData::Obj(members)), "params"@) == Option::Some(
            JsonData::Obj(members),
        ),
{
    reveal_with_fuel(lookup, 5);
    lemma_request_keys_distinct();
}

/// Arguments that serialize to null leave no params member at all.
pub proof fn lemma_null_params(id: Id, method: Seq<char>)
    ensures
        lookup(request_members(id, method, JsonData::Null), "params"@) is None,
{
    reveal_with_fuel(lookup, 5);
    lemma_request_keys_distinct();
}

/// Any other argument value, a scalar, is wrapped into a one-element
/// positional array.
pub proof fn lemma_scalar_params(id: Id, method: Seq<char>, args: JsonData)
    requires
        !(args is Arr),
        !(args is Obj),
        !(args is Null),
    ensures
        lookup(request_members(id, method, args), "params"@) == Option::Some(
            JsonData::Arr(seq![args]),
        ),
{
    reveal_with_fuel(lookup, 5);
    lemma_request_keys_distinct();
}

/// Whatever the arguments were, the envelope carries at most one params
/// shape: its `params` member is absent exactly on null arguments, and
/// where present it is a positional array or a named object, never a
/// bare scalar.
pub proof fn lemma_params_shape(id: Id, method: Seq<char>, args: JsonData)
    ensures
        lookup(request_members(id, method, args), "params"@) is None <==> args is Null,
        match lookup(request_members(id, method, args), "params"@) {
            Option::None => args is Null,
            Option::Some(p) => p is Arr || p is Obj,
        },
{
    if args is Null {
        lemma_null_params(id, method);
    } else if args is Arr {
        lemma_array_params(id, method, args->Arr_0);
    } else if args is Obj {
        lemma_object_params(id, method, args->Obj_0);
    } else {
        lemma_scalar_params(id, method, args);
    }
}

/// The four envelope keys are pairwise distinct character sequences.
pub proof fn lemma_request_keys_distinct()
    ensures
        "jsonrpc"@ != "params"@,
        "jsonrpc"@ != "method"@,
        "jsonrpc"@ != "id"@,
        "method"@ != "params"@,
        "method"@ != "id"@,
        "params"@ != "id"@,
{
    reveal_strlit("jsonrpc");
    reveal_strlit("method");
    reveal_strlit("params");
    reveal_strlit("id");
    assert("jsonrpc"@.len() == 7);
    assert("method"@.len() == 6);
    assert("params"@.len() == 6);
    assert("id"@.len() == 2);
    assert("method"@[0] == 'm' && "params"@[0] == 'p');
}

} // verus!
