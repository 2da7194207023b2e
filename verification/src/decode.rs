//! Why a document is refused, and the parts of decoding that requests and
//! responses share.

use crate::code::ErrorCode;
use crate::json::{lookup, Json, JsonModel};
use crate::version::{version_doc, Version2};
use vstd::prelude::*;

verus! {

/// Why a text or a document is no envelope.
#[derive(Clone, Copy, Debug, PartialEq, Eq, Structural)]
pub enum DecodeError {
    /// The text is no JSON document.
    InvalidJson,
    /// The member `jsonrpc` is absent, as it is in every document that is no
    /// object, or is not the string `"2.0"`.
    BadVersion,
    /// A request has a member that the protocol does not define.
    UnknownField,
    /// A member is absent where one is needed, or has the wrong shape.
    TypeMismatch,
    /// A response has both `result` and `error`, or neither.
    AmbiguousResponse,
}

impl DecodeError {
    /// The reserved code under which this failure is reported to the peer:
    /// `ParseError` for a text that is no JSON, `InvalidRequest` for a
    /// document that is no envelope.
    pub fn code(self) -> (c: ErrorCode)
        ensures
            c == if self == DecodeError::InvalidJson {
                ErrorCode::ParseError
            } else {
                ErrorCode::InvalidRequest
            },
    {
        match self {
            DecodeError::InvalidJson => ErrorCode::ParseError,
            _ => ErrorCode::InvalidRequest,
        }
    }
}

/// Whether the document has the member `jsonrpc` with the version in it.
pub open spec fn has_version(doc: JsonModel) -> bool {
    lookup(doc, "jsonrpc"@) == Some(version_doc())
}

/// The `id` of an envelope: absent, or a string.  A member `id` of any other
/// shape, `null` included, is a `TypeMismatch`.
pub open spec fn decode_id(doc: JsonModel) -> Result<Option<Seq<char>>, DecodeError> {
    match lookup(doc, "id"@) {
        None => Ok(None),
        Some(JsonModel::String(s)) => Ok(Some(s)),
        Some(_) => Err(DecodeError::TypeMismatch),
    }
}

/// The characters of an optional text.
pub open spec fn text_view(text: Option<String>) -> Option<Seq<char>> {
    match text {
        Some(s) => Some(s@),
        None => None,
    }
}

/// A copy of an optional text.
pub(crate) fn copy_id(id: &Option<String>) -> (r: Option<String>)
    ensures
        text_view(r) == text_view(*id),
{
    match id {
        Some(i) => Some(i.clone()),
        None => None,
    }
}

/// Whether the document has the member `jsonrpc` with the version in it.
pub(crate) fn check_version(doc: &Json) -> (r: bool)
    ensures
        r == has_version(doc@),
{
    match doc.get("jsonrpc") {
        Some(v) => Version2::decode(v).is_ok(),
        None => false,
    }
}

/// Reads the `id` of an envelope.
pub(crate) fn read_id(doc: &Json) -> (r: Result<Option<String>, DecodeError>)
    ensures
        match r {
            Ok(id) => decode_id(doc@) == Ok::<Option<Seq<char>>, DecodeError>(text_view(id)),
            Err(e) => decode_id(doc@) == Err::<Option<Seq<char>>, DecodeError>(e),
        },
{
    match doc.get("id") {
        None => Ok(None),
        Some(Json::String(s)) => Ok(Some(s.clone())),
        Some(_) => Err(DecodeError::TypeMismatch),
    }
}

} // verus!
