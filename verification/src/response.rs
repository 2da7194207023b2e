//! The response envelope.

use crate::decode::{
    check_version, copy_id, decode_id, has_version, read_id, text_view, DecodeError,
};
use crate::error::{decode_error, encode_error, settled_error, Error, ErrorModel};
use crate::json::{lookup, members_view, object_view, Json, JsonModel, Members};
use crate::laws::response_document_is_settled;
use crate::settle::settled;
use crate::text::{parsed, printed};
use crate::version::{version_doc, Version2};
use vstd::prelude::*;

verus! {

/// The answer to a request: what the method returned, or what went wrong.
/// On the wire the two are told apart by which of the members `result` and
/// `error` is there.
#[derive(Debug, PartialEq)]
pub enum Response {
    Result { jsonrpc: Version2, result: Json, id: Option<String> },
    Error { jsonrpc: Version2, error: Error, id: Option<String> },
}

/// The mathematical value of a [`Response`].
pub enum ResponseModel {
    Result { result: JsonModel, id: Option<Seq<char>> },
    Error { error: ErrorModel, id: Option<Seq<char>> },
}

impl View for Response {
    type V = ResponseModel;

    open spec fn view(&self) -> ResponseModel {
        match self {
            Response::Result { result, id, .. } => ResponseModel::Result {
                result: result@,
                id: text_view(*id),
            },
            Response::Error { error, id, .. } => ResponseModel::Error {
                error: error@,
                id: text_view(*id),
            },
        }
    }
}

/// The member `id`, only where it is present.
pub open spec fn id_member(id: Option<Seq<char>>) -> Members {
    match id {
        Some(i) => seq![("id"@, JsonModel::String(i))],
        None => seq![],
    }
}

/// The response as a document: `jsonrpc`, then `result` or `error`, then
/// `id` where it is present.
pub open spec fn encode_response(r: ResponseModel) -> JsonModel {
    match r {
        ResponseModel::Result { result, id } => JsonModel::Object(
            seq![("jsonrpc"@, version_doc()), ("result"@, result)] + id_member(id),
        ),
        ResponseModel::Error { error, id } => JsonModel::Object(
            seq![("jsonrpc"@, version_doc()), ("error"@, encode_error(error))] + id_member(id),
        ),
    }
}

/// The response that a document stands for.  The version is looked at first.
/// Then exactly one of `result` and `error` must be there, and it decides the
/// variant.  Members that the protocol does not define are passed over.
pub open spec fn decode_response(doc: JsonModel) -> Result<ResponseModel, DecodeError> {
    if !has_version(doc) {
        Err(DecodeError::BadVersion)
    } else {
        match (lookup(doc, "result"@), lookup(doc, "error"@)) {
            (Some(result), None) => match decode_id(doc) {
                Ok(id) => Ok(ResponseModel::Result { result, id }),
                Err(e) => Err(e),
            },
            (None, Some(e)) => match (decode_error(e), decode_id(doc)) {
                (Ok(error), Ok(id)) => Ok(ResponseModel::Error { error, id }),
                _ => Err(DecodeError::TypeMismatch),
            },
            _ => Err(DecodeError::AmbiguousResponse),
        }
    }
}

/// The response with what it holds settled.
pub open spec fn settled_response(r: ResponseModel) -> ResponseModel {
    match r {
        ResponseModel::Result { result, id } => ResponseModel::Result {
            result: settled(result),
            id,
        },
        ResponseModel::Error { error, id } => ResponseModel::Error {
            error: settled_error(error),
            id,
        },
    }
}

impl Clone for Response {
    fn clone(&self) -> (r: Response)
        ensures
            r@ == self@,
    {
        match self {
            Response::Result { result, id, .. } => Response::Result {
                jsonrpc: Version2,
                result: result.clone(),
                id: copy_id(id),
            },
            Response::Error { error, id, .. } => Response::Error {
                jsonrpc: Version2,
                error: error.clone(),
                id: copy_id(id),
            },
        }
    }
}

impl Response {
    /// The `id` of the request that this response answers, where it is known.
    pub fn id(&self) -> (r: &Option<String>)
        ensures
            text_view(*r) == match self@ {
                ResponseModel::Result { id, .. } => id,
                ResponseModel::Error { id, .. } => id,
            },
    {
        match self {
            Response::Result { id, .. } => id,
            Response::Error { id, .. } => id,
        }
    }

    /// The response as a document.
    pub fn encode(&self) -> (doc: Json)
        ensures
            doc@ == encode_response(self@),
    {
        let mut members: Vec<(String, Json)> = Vec::new();
        members.push(("jsonrpc".to_owned(), Version2.encode()));
        match self {
            Response::Result { result, .. } => {
                members.push(("result".to_owned(), result.clone()));
            },
            Response::Error { error, .. } => {
                members.push(("error".to_owned(), error.encode()));
            },
        }
        match self.id() {
            Some(i) => {
                members.push(("id".to_owned(), Json::String(i.clone())));
            },
            None => {},
        }
        proof {
            object_view(members);
            assert(members_view(members@) =~= encode_response(self@)->Object_0);
        }
        Json::Object(members)
    }

    /// Reads a response from a document.
    pub fn decode(doc: &Json) -> (r: Result<Response, DecodeError>)
        ensures
            match r {
                Ok(p) => decode_response(doc@) == Ok::<ResponseModel, DecodeError>(p@),
                Err(e) => decode_response(doc@) == Err::<ResponseModel, DecodeError>(e),
            },
    {
        if !check_version(doc) {
            return Err(DecodeError::BadVersion);
        }
        match (doc.get("result"), doc.get("error")) {
            (Some(result), None) => {
                match read_id(doc) {
                    Ok(id) => Ok(
                        Response::Result { jsonrpc: Version2, result: result.clone(), id },
                    ),
                    Err(e) => Err(e),
                }
            },
            (None, Some(e)) => {
                match (Error::decode(e), read_id(doc)) {
                    (Ok(error), Ok(id)) => Ok(Response::Error { jsonrpc: Version2, error, id }),
                    _ => Err(DecodeError::TypeMismatch),
                }
            },
            _ => Err(DecodeError::AmbiguousResponse),
        }
    }

    /// The response as JSON text: its document, with what it holds
    /// settled.
    pub fn to_text(&self) -> (s: String)
        ensures
            s@ == printed(encode_response(settled_response(self@))),
    {
        proof {
            response_document_is_settled(self@);
        }
        self.encode().to_text()
    }

    /// Reads a response from JSON text.
    pub fn from_text(text: &str) -> (r: Result<Response, DecodeError>)
        ensures
            match r {
                Ok(p) => parsed(text@) matches Some(doc) && decode_response(doc) == Ok::<
                    ResponseModel,
                    DecodeError,
                >(p@),
                Err(e) => match parsed(text@) {
                    Some(doc) => decode_response(doc) == Err::<ResponseModel, DecodeError>(e),
                    None => e == DecodeError::InvalidJson,
                },
            },
    {
        match Json::parse(text) {
            Ok(doc) => Response::decode(&doc),
            Err(e) => Err(e),
        }
    }
}

} // verus!
