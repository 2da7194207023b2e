//! The request envelope.

use crate::decode::{
    check_version, copy_id, decode_id, has_version, read_id, text_view, DecodeError,
};
use crate::json::{lookup, members_view, object_view, same_text, Json, JsonModel, Members};
use crate::laws::request_document_is_settled;
use crate::settle::settled;
use crate::text::{parsed, printed};
use crate::version::{version_doc, Version2};
use vstd::prelude::*;

verus! {

/// A call of a method.  Without an `id` it is a notification, to which no
/// response is sent.
#[derive(Debug, PartialEq)]
pub struct Request {
    pub jsonrpc: Version2,
    pub method: String,
    pub params: Option<Json>,
    pub id: Option<String>,
}

/// The mathematical value of a [`Request`].
pub struct RequestModel {
    pub method: Seq<char>,
    pub params: Option<JsonModel>,
    pub id: Option<Seq<char>>,
}

impl View for Request {
    type V = RequestModel;

    open spec fn view(&self) -> RequestModel {
        RequestModel {
            method: self.method@,
            params: match self.params {
                Some(p) => Some(p@),
                None => None,
            },
            id: text_view(self.id),
        }
    }
}

/// Whether `key` is one of the four members that a request may have.
pub open spec fn request_key(key: Seq<char>) -> bool {
    key == "jsonrpc"@ || key == "method"@ || key == "params"@ || key == "id"@
}

/// Whether every member is one that a request may have.
pub open spec fn known_members(members: Members) -> bool {
    forall|i: int| 0 <= i < members.len() ==> request_key(#[trigger] members[i].0)
}

/// The members `params` and `id`, each only where it is present.
pub open spec fn optional_members(params: Option<JsonModel>, id: Option<Seq<char>>) -> Members {
    let first: Members = match params {
        Some(p) => seq![("params"@, p)],
        None => seq![],
    };
    match id {
        Some(i) => first.push(("id"@, JsonModel::String(i))),
        None => first,
    }
}

/// The request as a document: `jsonrpc`, `method`, then `params` and `id`,
/// each only where it is present.
pub open spec fn encode_request(q: RequestModel) -> JsonModel {
    JsonModel::Object(
        seq![("jsonrpc"@, version_doc()), ("method"@, JsonModel::String(q.method))]
            + optional_members(q.params, q.id),
    )
}

/// The request that a document stands for.  The version is looked at first,
/// then the keys, then `method` and `id`.
pub open spec fn decode_request(doc: JsonModel) -> Result<RequestModel, DecodeError> {
    if !has_version(doc) {
        Err(DecodeError::BadVersion)
    } else if !known_members(doc->Object_0) {
        Err(DecodeError::UnknownField)
    } else {
        match (lookup(doc, "method"@), decode_id(doc)) {
            (Some(JsonModel::String(m)), Ok(id)) => Ok(
                RequestModel { method: m, params: lookup(doc, "params"@), id },
            ),
            _ => Err(DecodeError::TypeMismatch),
        }
    }
}

/// The request with its parameters settled.
pub open spec fn settled_request(q: RequestModel) -> RequestModel {
    RequestModel {
        params: match q.params {
            Some(p) => Some(settled(p)),
            None => None,
        },
        ..q
    }
}

/// Whether `key` is one of the four members that a request may have.
fn is_request_key(key: &String) -> (r: bool)
    ensures
        r == request_key(key@),
{
    same_text(key, "jsonrpc") || same_text(key, "method") || same_text(key, "params") || same_text(
        key,
        "id",
    )
}

/// Whether every member of the document is one that a request may have.  A
/// document that is no object has no members.
fn check_members(doc: &Json) -> (r: bool)
    ensures
        doc@ is Object ==> r == known_members(doc@->Object_0),
{
    match doc {
        Json::Object(members) => {
            proof {
                object_view(*members);
            }
            let mut i: usize = 0;
            while i < members.len()
                invariant
                    i <= members.len(),
                    doc@ == JsonModel::Object(members_view(members@)),
                    forall|k: int|
                        0 <= k < i ==> request_key(#[trigger] members_view(members@)[k].0),
                decreases members.len() - i,
            {
                if !is_request_key(&members[i].0) {
                    assert(!request_key(members_view(members@)[i as int].0));
                    return false;
                }
                i += 1;
            }
            true
        },
        _ => true,
    }
}

impl Clone for Request {
    fn clone(&self) -> (r: Request)
        ensures
            r@ == self@,
    {
        Request {
            jsonrpc: Version2,
            method: self.method.clone(),
            params: match &self.params {
                Some(p) => Some(p.clone()),
                None => None,
            },
            id: copy_id(&self.id),
        }
    }
}

impl Request {
    /// Whether this is a notification: a request without an `id`.
    pub fn is_notification(&self) -> (r: bool)
        ensures
            r == (self@.id is None),
    {
        self.id.is_none()
    }

    /// The request as a document.
    pub fn encode(&self) -> (doc: Json)
        ensures
            doc@ == encode_request(self@),
    {
        let mut members: Vec<(String, Json)> = Vec::new();
        members.push(("jsonrpc".to_owned(), self.jsonrpc.encode()));
        members.push(("method".to_owned(), Json::String(self.method.clone())));
        match &self.params {
            Some(p) => {
                members.push(("params".to_owned(), p.clone()));
            },
            None => {},
        }
        match &self.id {
            Some(i) => {
                members.push(("id".to_owned(), Json::String(i.clone())));
            },
            None => {},
        }
        proof {
            object_view(members);
            assert(members_view(members@) =~= encode_request(self@)->Object_0);
        }
        Json::Object(members)
    }

    /// Reads a request from a document.
    pub fn decode(doc: &Json) -> (r: Result<Request, DecodeError>)
        ensures
            match r {
                Ok(q) => decode_request(doc@) == Ok::<RequestModel, DecodeError>(q@),
                Err(e) => decode_request(doc@) == Err::<RequestModel, DecodeError>(e),
            },
    {
        if !check_version(doc) {
            return Err(DecodeError::BadVersion);
        }
        if !check_members(doc) {
            return Err(DecodeError::UnknownField);
        }
        let method = match doc.get("method") {
            Some(Json::String(m)) => m.clone(),
            _ => {
                return Err(DecodeError::TypeMismatch);
            },
        };
        let id = match read_id(doc) {
            Ok(id) => id,
            Err(e) => {
                return Err(e);
            },
        };
        let params = match doc.get("params") {
            Some(p) => Some(p.clone()),
            None => None,
        };
        Ok(Request { jsonrpc: Version2, method, params, id })
    }

    /// The request as JSON text: its document, with the parameters
    /// settled.
    pub fn to_text(&self) -> (s: String)
        ensures
            s@ == printed(encode_request(settled_request(self@))),
    {
        proof {
            request_document_is_settled(self@);
        }
        self.encode().to_text()
    }

    /// Reads a request from JSON text.
    pub fn from_text(text: &str) -> (r: Result<Request, DecodeError>)
        ensures
            match r {
                Ok(q) => parsed(text@) matches Some(doc) && decode_request(doc) == Ok::<
                    RequestModel,
                    DecodeError,
                >(q@),
                Err(e) => match parsed(text@) {
                    Some(doc) => decode_request(doc) == Err::<RequestModel, DecodeError>(e),
                    None => e == DecodeError::InvalidJson,
                },
            },
    {
        match Json::parse(text) {
            Ok(doc) => Request::decode(&doc),
            Err(e) => Err(e),
        }
    }
}

} // verus!
