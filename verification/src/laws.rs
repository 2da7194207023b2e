//! What holds of the codec as a whole.

use crate::code::ErrorCode;
use crate::decode::{has_version, DecodeError};
use crate::error::{decode_error, encode_error, error_for, settled_error, ErrorModel};
use crate::json::{lookup, JsonModel, Members};
use crate::request::{
    decode_request, encode_request, known_members, request_key, settled_request, RequestModel,
};
use crate::response::{decode_response, encode_response, settled_response, ResponseModel};
use crate::settle::{
    member_after_push, settle, settled, settled_after_push, settled_values,
    settled_values_are_settled, settling_keeps_keys, settling_keeps_lookups,
    settling_keeps_leaves,
};
use crate::version::{decode_version, version_doc, Version2};
use vstd::prelude::*;

verus! {

/// The keys that can stand together in an envelope differ from each other,
/// and so do those of an error object.
pub proof fn keys_differ()
    ensures
        "jsonrpc"@ != "method"@,
        "jsonrpc"@ != "params"@,
        "jsonrpc"@ != "id"@,
        "jsonrpc"@ != "result"@,
        "jsonrpc"@ != "error"@,
        "method"@ != "params"@,
        "method"@ != "id"@,
        "params"@ != "id"@,
        "result"@ != "error"@,
        "result"@ != "id"@,
        "error"@ != "id"@,
        "code"@ != "message"@,
        "code"@ != "data"@,
        "message"@ != "data"@,
{
    reveal_strlit("jsonrpc");
    reveal_strlit("method");
    reveal_strlit("params");
    reveal_strlit("id");
    reveal_strlit("result");
    reveal_strlit("error");
    reveal_strlit("code");
    reveal_strlit("message");
    reveal_strlit("data");
    assert("jsonrpc"@.len() == 7 && "message"@.len() == 7);
    assert("method"@.len() == 6 && "params"@.len() == 6 && "result"@.len() == 6);
    assert("error"@.len() == 5);
    assert("code"@.len() == 4 && "data"@.len() == 4);
    assert("id"@.len() == 2);
    assert("method"@[0] == 'm' && "params"@[0] == 'p' && "result"@[0] == 'r');
    assert("code"@[0] == 'c' && "data"@[0] == 'd');
}

/// What each key finds in the document of an error object: `code` and
/// `message` their values, `data` the data unless it is `null`, and any other
/// key nothing.
pub proof fn error_document_members(e: ErrorModel, key: Seq<char>)
    ensures
        lookup(encode_error(e), key) == if key == "data"@ && !(e.data is Null) {
            Some(e.data)
        } else if key == "message"@ {
            Some(JsonModel::String(e.message))
        } else if key == "code"@ {
            Some(JsonModel::Int(e.code as i64))
        } else {
            None
        },
{
    keys_differ();
    let m0: Members = seq![];
    let m1 = m0.push(("code"@, JsonModel::Int(e.code as i64)));
    let m2 = m1.push(("message"@, JsonModel::String(e.message)));
    let m3 = if e.data is Null {
        m2
    } else {
        m2.push(("data"@, e.data))
    };
    assert(encode_error(e)->Object_0 =~= m3);
    member_after_push(m0, "code"@, JsonModel::Int(e.code as i64), key);
    member_after_push(m1, "message"@, JsonModel::String(e.message), key);
    if !(e.data is Null) {
        member_after_push(m2, "data"@, e.data, key);
    }
}

/// An error object that is written as a document and read again is the same
/// error object.
pub proof fn error_round_trip(e: ErrorModel)
    ensures
        decode_error(encode_error(e)) == Ok::<ErrorModel, DecodeError>(e),
{
    keys_differ();
    error_document_members(e, "code"@);
    error_document_members(e, "message"@);
    error_document_members(e, "data"@);
}

/// What each key finds in the document of a request: `jsonrpc` the version,
/// `method` the method, `params` and `id` their values where the request has
/// them, and any other key nothing.
pub proof fn request_document_members(q: RequestModel, key: Seq<char>)
    ensures
        lookup(encode_request(q), key) == if key == "id"@ {
            match q.id {
                Some(i) => Some(JsonModel::String(i)),
                None => None,
            }
        } else if key == "params"@ {
            q.params
        } else if key == "method"@ {
            Some(JsonModel::String(q.method))
        } else if key == "jsonrpc"@ {
            Some(version_doc())
        } else {
            None
        },
{
    keys_differ();
    let m0: Members = seq![];
    let m1 = m0.push(("jsonrpc"@, version_doc()));
    let m2 = m1.push(("method"@, JsonModel::String(q.method)));
    let m3 = match q.params {
        Some(p) => m2.push(("params"@, p)),
        None => m2,
    };
    let m4 = match q.id {
        Some(i) => m3.push(("id"@, JsonModel::String(i))),
        None => m3,
    };
    assert(encode_request(q)->Object_0 =~= m4);
    member_after_push(m0, "jsonrpc"@, version_doc(), key);
    member_after_push(m1, "method"@, JsonModel::String(q.method), key);
    if q.params is Some {
        member_after_push(m2, "params"@, q.params->0, key);
    }
    if q.id is Some {
        member_after_push(m3, "id"@, JsonModel::String(q.id->0), key);
    }
}

/// A request that is written as a document and read again is the same
/// request.
pub proof fn request_round_trip(q: RequestModel)
    ensures
        decode_request(encode_request(q)) == Ok::<RequestModel, DecodeError>(q),
{
    keys_differ();
    request_document_members(q, "jsonrpc"@);
    request_document_members(q, "method"@);
    request_document_members(q, "params"@);
    request_document_members(q, "id"@);
    assert(known_members(encode_request(q)->Object_0));
}

/// What each key finds in the document of a response: `jsonrpc` the version,
/// `result` or `error` what the response holds, `id` its value where the
/// response has one, and any other key nothing.
pub proof fn response_document_members(r: ResponseModel, key: Seq<char>)
    ensures
        lookup(encode_response(r), key) == if key == "id"@ {
            match r {
                ResponseModel::Result { id: Some(i), .. } => Some(JsonModel::String(i)),
                ResponseModel::Error { id: Some(i), .. } => Some(JsonModel::String(i)),
                _ => None,
            }
        } else if key == "result"@ {
            match r {
                ResponseModel::Result { result, .. } => Some(result),
                _ => None,
            }
        } else if key == "error"@ {
            match r {
                ResponseModel::Error { error, .. } => Some(encode_error(error)),
                _ => None,
            }
        } else if key == "jsonrpc"@ {
            Some(version_doc())
        } else {
            None
        },
{
    keys_differ();
    let (name, body, id) = match r {
        ResponseModel::Result { result, id } => ("result"@, result, id),
        ResponseModel::Error { error, id } => ("error"@, encode_error(error), id),
    };
    let m0: Members = seq![];
    let m1 = m0.push(("jsonrpc"@, version_doc()));
    let m2 = m1.push((name, body));
    let m3 = match id {
        Some(i) => m2.push(("id"@, JsonModel::String(i))),
        None => m2,
    };
    assert(encode_response(r)->Object_0 =~= m3);
    member_after_push(m0, "jsonrpc"@, version_doc(), key);
    member_after_push(m1, name, body, key);
    if id is Some {
        member_after_push(m2, "id"@, JsonModel::String(id->0), key);
    }
}

/// A response that is written as a document and read again is the same
/// response.
pub proof fn response_round_trip(r: ResponseModel)
    ensures
        decode_response(encode_response(r)) == Ok::<ResponseModel, DecodeError>(r),
{
    response_document_members(r, "jsonrpc"@);
    response_document_members(r, "result"@);
    response_document_members(r, "error"@);
    response_document_members(r, "id"@);
    keys_differ();
    if r is Error {
        error_round_trip(r->error);
    }
}

/// The version that is written as a document and read again is the version.
pub proof fn version_round_trip()
    ensures
        decode_version(version_doc()) == Ok::<Version2, DecodeError>(Version2),
{
}

/// Only the string `"2.0"` is read as the version: no other string, and no
/// number.
pub proof fn only_the_version_is_read(doc: JsonModel)
    ensures
        decode_version(doc) is Ok <==> doc == version_doc(),
        doc != version_doc() ==> decode_version(doc) == Err::<Version2, DecodeError>(
            DecodeError::BadVersion,
        ),
        JsonModel::String("1.0"@) != version_doc(),
        doc is Int || doc is Number ==> doc != version_doc(),
{
    reveal_strlit("1.0");
    reveal_strlit("2.0");
    assert("1.0"@[0] != "2.0"@[0]);
}

/// A document whose member `jsonrpc` is absent, or is anything but the string
/// `"2.0"`, is neither a request nor a response: both refuse it with
/// `BadVersion`, whatever else it holds.
pub proof fn version_is_strict(doc: JsonModel)
    requires
        lookup(doc, "jsonrpc"@) != Some(version_doc()),
    ensures
        decode_request(doc) == Err::<RequestModel, DecodeError>(DecodeError::BadVersion),
        decode_response(doc) == Err::<ResponseModel, DecodeError>(DecodeError::BadVersion),
{
}

/// The document of a request has a member `id` exactly where the request is
/// no notification.  The document of a notification holds no member with
/// that key at all.
pub proof fn notification_has_no_id(q: RequestModel)
    ensures
        (q.id is None) <==> (lookup(encode_request(q), "id"@) is None),
        q.id is None ==> forall|i: int|
            0 <= i < encode_request(q)->Object_0.len() ==> (
            #[trigger] encode_request(q)->Object_0[i]).0 != "id"@,
{
    request_document_members(q, "id"@);
    keys_differ();
}

/// A reserved code speaks for itself: an error object built for it carries
/// its canonical message, whatever message the caller offers.  Any other code
/// carries the caller's message.
pub proof fn reserved_codes_force_their_message(code: i32, fallback: Seq<char>)
    ensures
        match ErrorCode::reserved(code as int) {
            Some(c) => error_for(code, fallback).message == c.text(),
            None => error_for(code, fallback).message == fallback,
        },
        error_for(code, fallback).code == code,
        error_for(code, fallback).data is Null,
{
}

/// The document of an error object without data has the two members `code`
/// and `message` and no other: `data` is left out, not written as `null`.
/// With data it has `data` as its third member.
pub proof fn null_data_is_omitted(e: ErrorModel)
    ensures
        e.data is Null ==> encode_error(e) == JsonModel::Object(
            seq![
                ("code"@, JsonModel::Int(e.code as i64)),
                ("message"@, JsonModel::String(e.message)),
            ],
        ),
        e.data is Null <==> lookup(encode_error(e), "data"@) is None,
        !(e.data is Null) ==> lookup(encode_error(e), "data"@) == Some(e.data),
{
    keys_differ();
    error_document_members(e, "data"@);
}

/// Which of the members `result` and `error` is there decides what a
/// document with the right version is read as: with `result` alone it is no
/// error response, with `error` alone it is no result response, and with
/// both or neither it is refused as ambiguous.
pub proof fn response_is_told_apart_by_its_members(doc: JsonModel)
    requires
        has_version(doc),
    ensures
        match (lookup(doc, "result"@), lookup(doc, "error"@)) {
            (Some(result), None) => match decode_response(doc) {
                Ok(r) => r is Result && r->result == result,
                Err(e) => e == DecodeError::TypeMismatch,
            },
            (None, Some(error)) => match decode_response(doc) {
                Ok(r) => r is Error && decode_error(error) == Ok::<ErrorModel, DecodeError>(
                    r->error,
                ),
                Err(e) => e == DecodeError::TypeMismatch,
            },
            _ => decode_response(doc) == Err::<ResponseModel, DecodeError>(
                DecodeError::AmbiguousResponse,
            ),
        },
{
}

/// A document with the right version that has a member which a request may
/// not have is refused with `UnknownField`.
pub proof fn unknown_member_is_refused(doc: JsonModel, i: int)
    requires
        has_version(doc),
        0 <= i < doc->Object_0.len(),
        !request_key(doc->Object_0[i].0),
    ensures
        decode_request(doc) == Err::<RequestModel, DecodeError>(DecodeError::UnknownField),
{
}

/// Settling the document of a request settles its parameters and nothing
/// else: the members of the envelope stay as they are.
pub proof fn request_document_is_settled(q: RequestModel)
    ensures
        settled(encode_request(q)) == encode_request(settled_request(q)),
{
    keys_differ();
    let c = settled_request(q);
    let m0: Members = seq![];
    let m1 = m0.push(("jsonrpc"@, version_doc()));
    let m2 = m1.push(("method"@, JsonModel::String(c.method)));
    let m3 = match c.params {
        Some(p) => m2.push(("params"@, p)),
        None => m2,
    };
    let m4 = match c.id {
        Some(i) => m3.push(("id"@, JsonModel::String(i))),
        None => m3,
    };
    assert(encode_request(c)->Object_0 =~= m4);
    settled_values_are_settled(encode_request(q)->Object_0);
    assert(settled_values(encode_request(q)->Object_0) =~= m4);
    assert(settle(m0) == m0);
    settled_after_push(m0, "jsonrpc"@, version_doc());
    member_after_push(m0, "jsonrpc"@, version_doc(), "method"@);
    settled_after_push(m1, "method"@, JsonModel::String(c.method));
    member_after_push(m0, "jsonrpc"@, version_doc(), "params"@);
    member_after_push(m1, "method"@, JsonModel::String(c.method), "params"@);
    if c.params is Some {
        settled_after_push(m2, "params"@, c.params->0);
    }
    request_document_members(c, "id"@);
    if c.id is Some {
        member_after_push(m0, "jsonrpc"@, version_doc(), "id"@);
        member_after_push(m1, "method"@, JsonModel::String(c.method), "id"@);
        if c.params is Some {
            member_after_push(m2, "params"@, c.params->0, "id"@);
        }
        settled_after_push(m3, "id"@, JsonModel::String(c.id->0));
    }
}

/// Settling the document of an error object settles its data and nothing
/// else.
pub proof fn error_document_is_settled(e: ErrorModel)
    ensures
        settled(encode_error(e)) == encode_error(settled_error(e)),
{
    keys_differ();
    let c = settled_error(e);
    let m0: Members = seq![];
    let m1 = m0.push(("code"@, JsonModel::Int(c.code as i64)));
    let m2 = m1.push(("message"@, JsonModel::String(c.message)));
    let m3 = if c.data is Null {
        m2
    } else {
        m2.push(("data"@, c.data))
    };
    assert(encode_error(c)->Object_0 =~= m3);
    settled_values_are_settled(encode_error(e)->Object_0);
    assert(settled_values(encode_error(e)->Object_0) =~= m3);
    assert(settle(m0) == m0);
    settled_after_push(m0, "code"@, JsonModel::Int(c.code as i64));
    member_after_push(m0, "code"@, JsonModel::Int(c.code as i64), "message"@);
    settled_after_push(m1, "message"@, JsonModel::String(c.message));
    if !(c.data is Null) {
        member_after_push(m0, "code"@, JsonModel::Int(c.code as i64), "data"@);
        member_after_push(m1, "message"@, JsonModel::String(c.message), "data"@);
        settled_after_push(m2, "data"@, c.data);
    }
}

/// Settling the document of a response settles what it holds and nothing
/// else.
pub proof fn response_document_is_settled(r: ResponseModel)
    ensures
        settled(encode_response(r)) == encode_response(settled_response(r)),
{
    keys_differ();
    let c = settled_response(r);
    let (name, body, id) = match c {
        ResponseModel::Result { result, id } => ("result"@, result, id),
        ResponseModel::Error { error, id } => ("error"@, encode_error(error), id),
    };
    if r is Error {
        error_document_is_settled(r->error);
    }
    let m0: Members = seq![];
    let m1 = m0.push(("jsonrpc"@, version_doc()));
    let m2 = m1.push((name, body));
    let m3 = match id {
        Some(i) => m2.push(("id"@, JsonModel::String(i))),
        None => m2,
    };
    assert(encode_response(c)->Object_0 =~= m3);
    settled_values_are_settled(encode_response(r)->Object_0);
    assert(settled_values(encode_response(r)->Object_0) =~= m3);
    assert(settle(m0) == m0);
    settled_after_push(m0, "jsonrpc"@, version_doc());
    member_after_push(m0, "jsonrpc"@, version_doc(), name);
    settled_after_push(m1, name, body);
    if id is Some {
        member_after_push(m0, "jsonrpc"@, version_doc(), "id"@);
        member_after_push(m1, name, body, "id"@);
        settled_after_push(m2, "id"@, JsonModel::String(id->0));
    }
}

/// Reading a settled document as an error object gives what reading the
/// document gives, with its data settled.
pub proof fn settling_keeps_errors(doc: JsonModel)
    ensures
        decode_error(settled(doc)) == match decode_error(doc) {
            Ok(e) => Ok::<ErrorModel, DecodeError>(settled_error(e)),
            Err(e) => Err(e),
        },
{
    settling_keeps_lookups(doc, "code"@);
    settling_keeps_lookups(doc, "message"@);
    settling_keeps_lookups(doc, "data"@);
    if lookup(doc, "code"@) is Some {
        settling_keeps_leaves(lookup(doc, "code"@)->0);
    }
    if lookup(doc, "message"@) is Some {
        settling_keeps_leaves(lookup(doc, "message"@)->0);
    }
}

/// Reading a settled document as a request gives what reading the document
/// gives, with its parameters settled: a request is read alike before and
/// after its text is written.
pub proof fn settling_keeps_requests(doc: JsonModel)
    ensures
        decode_request(settled(doc)) == match decode_request(doc) {
            Ok(q) => Ok::<RequestModel, DecodeError>(settled_request(q)),
            Err(e) => Err(e),
        },
{
    settling_keeps_lookups(doc, "jsonrpc"@);
    settling_keeps_lookups(doc, "method"@);
    settling_keeps_lookups(doc, "params"@);
    settling_keeps_lookups(doc, "id"@);
    if lookup(doc, "jsonrpc"@) is Some {
        settling_keeps_leaves(lookup(doc, "jsonrpc"@)->0);
    }
    if lookup(doc, "method"@) is Some {
        settling_keeps_leaves(lookup(doc, "method"@)->0);
    }
    if lookup(doc, "id"@) is Some {
        settling_keeps_leaves(lookup(doc, "id"@)->0);
    }
    if doc is Object {
        let before = doc->Object_0;
        let after = settled(doc)->Object_0;
        assert(known_members(after) <==> known_members(before)) by {
            if known_members(before) {
                assert forall|i: int| 0 <= i < after.len() implies request_key(
                    #[trigger] after[i].0,
                ) by {
                    settling_keeps_keys(before, after[i].0);
                    let j = choose|j: int| 0 <= j < before.len() && (#[trigger] before[j]).0
                        == after[i].0;
                    assert(request_key(before[j].0));
                }
            }
            if known_members(after) {
                assert forall|i: int| 0 <= i < before.len() implies request_key(
                    #[trigger] before[i].0,
                ) by {
                    settling_keeps_keys(before, before[i].0);
                    let j = choose|j: int| 0 <= j < after.len() && (#[trigger] after[j]).0
                        == before[i].0;
                    assert(request_key(after[j].0));
                }
            }
        }
    }
}

/// Reading a settled document as a response gives what reading the document
/// gives, with what it holds settled.
pub proof fn settling_keeps_responses(doc: JsonModel)
    ensures
        decode_response(settled(doc)) == match decode_response(doc) {
            Ok(r) => Ok::<ResponseModel, DecodeError>(settled_response(r)),
            Err(e) => Err(e),
        },
{
    settling_keeps_lookups(doc, "jsonrpc"@);
    settling_keeps_lookups(doc, "result"@);
    settling_keeps_lookups(doc, "error"@);
    settling_keeps_lookups(doc, "id"@);
    if lookup(doc, "jsonrpc"@) is Some {
        settling_keeps_leaves(lookup(doc, "jsonrpc"@)->0);
    }
    if lookup(doc, "id"@) is Some {
        settling_keeps_leaves(lookup(doc, "id"@)->0);
    }
    if lookup(doc, "error"@) is Some {
        settling_keeps_errors(lookup(doc, "error"@)->0);
    }
}

} // verus!
