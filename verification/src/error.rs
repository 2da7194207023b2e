//! The error object of a response.

use crate::code::{
    in_server_range, message_for, ErrorCode, ErrorKind, SERVER_ERROR_END, SERVER_ERROR_START,
};
use crate::decode::DecodeError;
use crate::json::{lookup, members_view, object_view, Json, JsonModel};
use crate::laws::error_document_is_settled;
use crate::settle::settled;
use crate::text::{parsed, printed};
use vstd::prelude::*;

verus! {

/// What went wrong with a call: a code, a message, and optional data, where
/// `null` stands for none.
#[derive(Debug, PartialEq)]
pub struct Error {
    code: i32,
    message: String,
    data: Json,
}

/// The mathematical value of an [`Error`].
pub struct ErrorModel {
    pub code: i32,
    pub message: Seq<char>,
    pub data: JsonModel,
}

impl View for Error {
    type V = ErrorModel;

    closed spec fn view(&self) -> ErrorModel {
        ErrorModel { code: self.code, message: self.message@, data: self.data@ }
    }
}

/// The error object that is built for `code` where the caller offers the
/// message `fallback`: a reserved code takes its canonical message instead,
/// and there is no data.
pub open spec fn error_for(code: i32, fallback: Seq<char>) -> ErrorModel {
    ErrorModel { code, message: message_for(code as int, fallback), data: JsonModel::Null }
}

/// Whether the protocol defines the code: it is one of the five predefined
/// codes or lies in the server-defined range.
pub open spec fn is_defined(code: int) -> bool {
    ErrorCode::reserved(code) is Some || in_server_range(code)
}

/// The error object as a document: `code`, `message`, and `data` unless it
/// is `null`.
pub open spec fn encode_error(e: ErrorModel) -> JsonModel {
    let head = seq![
        ("code"@, JsonModel::Int(e.code as i64)),
        ("message"@, JsonModel::String(e.message)),
    ];
    if e.data is Null {
        JsonModel::Object(head)
    } else {
        JsonModel::Object(head.push(("data"@, e.data)))
    }
}

/// The error object that a document stands for: an object whose `code` is an
/// integer that fits 32 bits and whose `message` is a string; `data` is
/// `null` where the member is absent.  Other members are passed over.
pub open spec fn decode_error(doc: JsonModel) -> Result<ErrorModel, DecodeError> {
    match (lookup(doc, "code"@), lookup(doc, "message"@)) {
        (Some(JsonModel::Int(c)), Some(JsonModel::String(m))) => {
            if i32::MIN <= c <= i32::MAX {
                Ok(
                    ErrorModel {
                        code: c as i32,
                        message: m,
                        data: match lookup(doc, "data"@) {
                            Some(d) => d,
                            None => JsonModel::Null,
                        },
                    },
                )
            } else {
                Err(DecodeError::TypeMismatch)
            }
        },
        _ => Err(DecodeError::TypeMismatch),
    }
}

/// The error object with its data settled.
pub open spec fn settled_error(e: ErrorModel) -> ErrorModel {
    ErrorModel { data: settled(e.data), ..e }
}

/// The error object of a reserved code: its integer, its canonical message,
/// and no data.
pub open spec fn reserved_error(code: ErrorCode) -> ErrorModel {
    ErrorModel { code: code.value() as i32, message: code.text(), data: JsonModel::Null }
}

impl From<ErrorCode> for Error {
    /// The error object of a reserved code, with its canonical message.
    fn from(code: ErrorCode) -> (e: Error)
        ensures
            e@ == reserved_error(code),
    {
        Error { code: code.code(), message: code.message().to_owned(), data: Json::Null }
    }
}

/// What `from` returns is stated on `from` itself, over the model: an
/// `Error` holds a `String`, of which contracts see the characters only.
impl vstd::std_specs::convert::FromSpecImpl<ErrorCode> for Error {
    open spec fn obeys_from_spec() -> bool {
        false
    }

    open spec fn from_spec(code: ErrorCode) -> Error {
        choose|e: Error| e@ == reserved_error(code)
    }
}

impl Clone for Error {
    fn clone(&self) -> (r: Error)
        ensures
            r@ == self@,
    {
        Error { code: self.code, message: self.message.clone(), data: self.data.clone() }
    }
}

impl Error {
    /// An error object with the given code.  A reserved code takes its
    /// canonical message, whatever `msg` says; any other code takes `msg`.
    pub fn new(code: i32, msg: &str) -> (e: Error)
        ensures
            e@ == error_for(code, msg@),
    {
        let message = match ErrorCode::from_code(code) {
            Some(c) => c.message().to_owned(),
            None => msg.to_owned(),
        };
        Error { code, message, data: Json::Null }
    }

    /// The error object of a reserved code, with its canonical message.
    pub fn from_code(code: ErrorCode) -> (e: Error)
        ensures
            e@ == reserved_error(code),
    {
        Error::from(code)
    }

    /// The error object for text that is no JSON.
    pub fn parse_error() -> (e: Error)
        ensures
            e@ == (ErrorModel {
                code: -32700i32,
                message: "parse error"@,
                data: JsonModel::Null,
            }),
    {
        Error::from_code(ErrorCode::ParseError)
    }

    /// The error object for a document that is no request.
    pub fn invalid_request() -> (e: Error)
        ensures
            e@ == (ErrorModel {
                code: -32600i32,
                message: "invalid request"@,
                data: JsonModel::Null,
            }),
    {
        Error::from_code(ErrorCode::InvalidRequest)
    }

    /// The error object for a method that does not exist.
    pub fn method_not_found() -> (e: Error)
        ensures
            e@ == (ErrorModel {
                code: -32601i32,
                message: "method not found"@,
                data: JsonModel::Null,
            }),
    {
        Error::from_code(ErrorCode::MethodNotFound)
    }

    /// The error object for parameters that the method does not take.
    pub fn invalid_params() -> (e: Error)
        ensures
            e@ == (ErrorModel {
                code: -32602i32,
                message: "invalid params"@,
                data: JsonModel::Null,
            }),
    {
        Error::from_code(ErrorCode::InvalidParams)
    }

    /// The error object for a failure inside the server.
    pub fn internal_error() -> (e: Error)
        ensures
            e@ == (ErrorModel {
                code: -32603i32,
                message: "internal error"@,
                data: JsonModel::Null,
            }),
    {
        Error::from_code(ErrorCode::InternalError)
    }

    /// A server-defined error.  The code must lie in the server-defined
    /// range, whose two ends have canonical messages of their own; every
    /// other code of the range says `server error`.
    pub fn server_error(code: i32) -> (r: Result<Error, ErrorKind>)
        ensures
            match r {
                Ok(e) => in_server_range(code as int) && e@ == error_for(code, "server error"@),
                Err(k) => !in_server_range(code as int) && k == ErrorKind::OutOfRange,
            },
    {
        if SERVER_ERROR_START <= code && code <= SERVER_ERROR_END {
            Ok(Error::new(code, "server error"))
        } else {
            Err(ErrorKind::OutOfRange)
        }
    }

    /// The error object of a code that the protocol defines: one of the five
    /// predefined codes, or a code of the server-defined range.  Any other
    /// integer is `OutOfRange`.
    pub fn predefined(code: i64) -> (r: Result<Error, ErrorKind>)
        ensures
            match r {
                Ok(e) => is_defined(code as int) && e@ == error_for(
                    code as i32,
                    "server error"@,
                ),
                Err(k) => !is_defined(code as int) && k == ErrorKind::OutOfRange,
            },
    {
        if code < -2147483648 || code > 2147483647 {
            return Err(ErrorKind::OutOfRange);
        }
        let code = code as i32;
        match ErrorCode::from_code(code) {
            Some(c) => Ok(Error::from_code(c)),
            None => Error::server_error(code),
        }
    }

    /// The same error with `data` in place of its data.  `null` is no data.
    pub fn with_data(self, data: Json) -> (e: Error)
        ensures
            e@ == (ErrorModel { data: data@, ..self@ }),
    {
        Error { code: self.code, message: self.message, data }
    }

    /// The code.
    pub fn code(&self) -> (c: i32)
        ensures
            c == self@.code,
    {
        self.code
    }

    /// The message.
    pub fn message(&self) -> (m: &str)
        ensures
            m@ == self@.message,
    {
        self.message.as_str()
    }

    /// The data: `null` where there is none.
    pub fn data(&self) -> (d: &Json)
        ensures
            d@ == self@.data,
    {
        &self.data
    }

    /// The error object as a document.
    pub fn encode(&self) -> (doc: Json)
        ensures
            doc@ == encode_error(self@),
    {
        let mut members: Vec<(String, Json)> = Vec::new();
        members.push(("code".to_owned(), Json::Int(self.code as i64)));
        members.push(("message".to_owned(), Json::String(self.message.clone())));
        match &self.data {
            Json::Null => {},
            data => {
                members.push(("data".to_owned(), data.clone()));
            },
        }
        proof {
            object_view(members);
            assert(members_view(members@) =~= encode_error(self@)->Object_0);
        }
        Json::Object(members)
    }

    /// Reads an error object from a document.
    pub fn decode(doc: &Json) -> (r: Result<Error, DecodeError>)
        ensures
            match r {
                Ok(e) => decode_error(doc@) == Ok::<ErrorModel, DecodeError>(e@),
                Err(k) => decode_error(doc@) == Err::<ErrorModel, DecodeError>(k),
            },
    {
        let code: i32 = match doc.get("code") {
            Some(c) => match c.as_i64() {
                Some(i) => {
                    if -2147483648 <= i && i <= 2147483647 {
                        i as i32
                    } else {
                        return Err(DecodeError::TypeMismatch);
                    }
                },
                None => {
                    return Err(DecodeError::TypeMismatch);
                },
            },
            None => {
                return Err(DecodeError::TypeMismatch);
            },
        };
        let message = match doc.get("message") {
            Some(Json::String(m)) => m.clone(),
            _ => {
                return Err(DecodeError::TypeMismatch);
            },
        };
        let data = match doc.get("data") {
            Some(d) => d.clone(),
            None => Json::Null,
        };
        Ok(Error { code, message, data })
    }

    /// The error object as JSON text: its document, with the data settled.
    pub fn to_text(&self) -> (s: String)
        ensures
            s@ == printed(encode_error(settled_error(self@))),
    {
        proof {
            error_document_is_settled(self@);
        }
        self.encode().to_text()
    }

    /// Reads an error object from JSON text.
    pub fn from_text(text: &str) -> (r: Result<Error, DecodeError>)
        ensures
            match r {
                Ok(e) => parsed(text@) matches Some(doc) && decode_error(doc) == Ok::<
                    ErrorModel,
                    DecodeError,
                >(e@),
                Err(k) => match parsed(text@) {
                    Some(doc) => decode_error(doc) == Err::<ErrorModel, DecodeError>(k),
                    None => k == DecodeError::InvalidJson,
                },
            },
    {
        match Json::parse(text) {
            Ok(doc) => Error::decode(&doc),
            Err(e) => Err(e),
        }
    }
}

} // verus!
