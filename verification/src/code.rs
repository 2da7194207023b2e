//! The error codes that JSON-RPC 2.0 reserves, and their canonical messages.

use vstd::prelude::*;

verus! {

/// Lowest code of the range that is left to server-defined errors.
pub const SERVER_ERROR_START: i32 = -32099;

/// Highest code of the range that is left to server-defined errors.
pub const SERVER_ERROR_END: i32 = -32000;

/// A code with a meaning fixed by the protocol: the five predefined errors and
/// the two ends of the server-defined range.
#[derive(Clone, Copy, Debug, PartialEq, Eq, Structural)]
#[non_exhaustive]
pub enum ErrorCode {
    ParseError,
    InvalidRequest,
    MethodNotFound,
    InvalidParams,
    InternalError,
    ServerErrorStart,
    ServerErrorEnd,
}

/// Why an error object could not be built.
#[derive(Clone, Copy, Debug, PartialEq, Eq, Structural)]
pub enum ErrorKind {
    /// The code lies outside the server-defined range.
    OutOfRange,
}

/// Whether `code` lies in the range left to server-defined errors.
pub open spec fn in_server_range(code: int) -> bool {
    SERVER_ERROR_START <= code <= SERVER_ERROR_END
}

impl ErrorCode {
    /// The integer that stands for this code on the wire.
    pub open spec fn value(self) -> int {
        match self {
            ErrorCode::ParseError => -32700,
            ErrorCode::InvalidRequest => -32600,
            ErrorCode::MethodNotFound => -32601,
            ErrorCode::InvalidParams => -32602,
            ErrorCode::InternalError => -32603,
            ErrorCode::ServerErrorStart => -32099,
            ErrorCode::ServerErrorEnd => -32000,
        }
    }

    /// The canonical message of this code.
    pub open spec fn text(self) -> Seq<char> {
        match self {
            ErrorCode::ParseError => "parse error"@,
            ErrorCode::InvalidRequest => "invalid request"@,
            ErrorCode::MethodNotFound => "method not found"@,
            ErrorCode::InvalidParams => "invalid params"@,
            ErrorCode::InternalError => "internal error"@,
            ErrorCode::ServerErrorStart => "server error start"@,
            ErrorCode::ServerErrorEnd => "server error end"@,
        }
    }

    /// The reserved code that `code` stands for, if it stands for one.
    pub open spec fn reserved(code: int) -> Option<ErrorCode> {
        if code == -32700 {
            Some(ErrorCode::ParseError)
        } else if code == -32600 {
            Some(ErrorCode::InvalidRequest)
        } else if code == -32601 {
            Some(ErrorCode::MethodNotFound)
        } else if code == -32602 {
            Some(ErrorCode::InvalidParams)
        } else if code == -32603 {
            Some(ErrorCode::InternalError)
        } else if code == -32099 {
            Some(ErrorCode::ServerErrorStart)
        } else if code == -32000 {
            Some(ErrorCode::ServerErrorEnd)
        } else {
            None
        }
    }

    /// The integer that stands for this code on the wire.
    pub fn code(self) -> (c: i32)
        ensures
            c == self.value(),
    {
        match self {
            ErrorCode::ParseError => -32700,
            ErrorCode::InvalidRequest => -32600,
            ErrorCode::MethodNotFound => -32601,
            ErrorCode::InvalidParams => -32602,
            ErrorCode::InternalError => -32603,
            ErrorCode::ServerErrorStart => SERVER_ERROR_START,
            ErrorCode::ServerErrorEnd => SERVER_ERROR_END,
        }
    }

    /// The canonical message of this code.
    pub fn message(self) -> (s: &'static str)
        ensures
            s@ == self.text(),
    {
        match self {
            ErrorCode::ParseError => "parse error",
            ErrorCode::InvalidRequest => "invalid request",
            ErrorCode::MethodNotFound => "method not found",
            ErrorCode::InvalidParams => "invalid params",
            ErrorCode::InternalError => "internal error",
            ErrorCode::ServerErrorStart => "server error start",
            ErrorCode::ServerErrorEnd => "server error end",
        }
    }

    /// Recognises a reserved code: `Some` exactly for the seven integers that
    /// have a canonical message.
    pub fn from_code(code: i32) -> (r: Option<ErrorCode>)
        ensures
            r == Self::reserved(code as int),
    {
        if code == -32700 {
            Some(ErrorCode::ParseError)
        } else if code == -32600 {
            Some(ErrorCode::InvalidRequest)
        } else if code == -32601 {
            Some(ErrorCode::MethodNotFound)
        } else if code == -32602 {
            Some(ErrorCode::InvalidParams)
        } else if code == -32603 {
            Some(ErrorCode::InternalError)
        } else if code == SERVER_ERROR_START {
            Some(ErrorCode::ServerErrorStart)
        } else if code == SERVER_ERROR_END {
            Some(ErrorCode::ServerErrorEnd)
        } else {
            None
        }
    }
}

/// The message that an error object with this code carries: the canonical one
/// where the code is reserved, the caller's otherwise.
pub open spec fn message_for(code: int, fallback: Seq<char>) -> Seq<char> {
    match ErrorCode::reserved(code) {
        Some(c) => c.text(),
        None => fallback,
    }
}

/// Every reserved code is recognised from its own integer, and from no other.
pub proof fn reserved_codes_are_recognised(c: ErrorCode, n: int)
    ensures
        ErrorCode::reserved(c.value()) == Some(c),
        ErrorCode::reserved(n) == Some(c) ==> n == c.value(),
        ErrorCode::reserved(n) is None ==> n != c.value(),
{
}

} // verus!
