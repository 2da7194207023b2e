//! Data model and codec for JSON-RPC 2.0 message envelopes.
//!
//! Requests, notifications, responses and error objects are plain values that
//! encode to, and decode from, JSON documents.  Every function is verified
//! against a mathematical model of the value it handles, and [`laws`] proves
//! what holds of the codec as a whole: that what is written is read back,
//! that the version is strict, and how envelopes are told apart.
//!
//! JSON text is read and written by `serde_json`.  What is taken on trust
//! from it is declared in [`number`] and [`text`], and nowhere else.

pub mod code;
pub mod decode;
pub mod error;
pub mod json;
pub mod laws;
pub mod number;
pub mod request;
pub mod response;
pub mod settle;
pub mod text;
pub mod version;

pub use code::ErrorCode;
pub use code::ErrorKind;
pub use decode::DecodeError;
pub use error::Error;
pub use error::ErrorModel;
pub use json::Json;
pub use json::JsonModel;
pub use request::Request;
pub use request::RequestModel;
pub use response::Response;
pub use response::ResponseModel;
pub use version::Version2;
