//! The protocol version tag.

use crate::decode::DecodeError;
use crate::json::{same_text, Json, JsonModel};
use crate::settle::settled;
use crate::text::{parsed, printed};
use vstd::prelude::*;
use vstd::string::StringExecFns;

verus! {

/// The version of the protocol.  Its only wire form is the string `"2.0"`.
#[derive(Clone, Copy, Debug, PartialEq, Eq, Structural)]
pub struct Version2;

/// The document that stands for the version: the string `"2.0"`.
pub open spec fn version_doc() -> JsonModel {
    JsonModel::String("2.0"@)
}

/// The version that a document stands for: the document must be the string
/// `"2.0"`.
pub open spec fn decode_version(doc: JsonModel) -> Result<Version2, DecodeError> {
    if doc == version_doc() {
        Ok(Version2)
    } else {
        Err(DecodeError::BadVersion)
    }
}

impl Version2 {
    /// The version as a document: always the string `"2.0"`.
    pub fn encode(&self) -> (doc: Json)
        ensures
            doc@ == version_doc(),
    {
        Json::String("2.0".to_owned())
    }

    /// Reads the version from a document.  Succeeds exactly on the string
    /// `"2.0"`; any other string, and any document that is no string, is a
    /// `BadVersion`.
    pub fn decode(doc: &Json) -> (r: Result<Version2, DecodeError>)
        ensures
            r == decode_version(doc@),
    {
        match doc {
            Json::String(s) => {
                if same_text(s, "2.0") {
                    Ok(Version2)
                } else {
                    Err(DecodeError::BadVersion)
                }
            },
            _ => Err(DecodeError::BadVersion),
        }
    }

    /// What to say of a document that was refused as the version: what was
    /// expected, and the document that stood there.
    pub fn mismatch(doc: &Json) -> (s: String)
        ensures
            s@ == "expected \"2.0\", got "@ + printed(settled(doc@)),
    {
        "expected \"2.0\", got ".to_owned().concat(doc.to_text().as_str())
    }

    /// The version as JSON text.
    pub fn to_text(&self) -> (s: String)
        ensures
            s@ == printed(version_doc()),
    {
        self.encode().to_text()
    }

    /// Reads the version from JSON text.
    pub fn from_text(text: &str) -> (r: Result<Version2, DecodeError>)
        ensures
            r == match parsed(text@) {
                Some(doc) => decode_version(doc),
                None => Err(DecodeError::InvalidJson),
            },
    {
        match Json::parse(text) {
            Ok(doc) => Version2::decode(&doc),
            Err(e) => Err(e),
        }
    }
}

} // verus!
