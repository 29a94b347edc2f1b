//! The error type of the ChatGuru client.

use vstd::prelude::*;

verus! {

/// What can go wrong in the ChatGuru client. Each kind carries a description.
#[derive(Debug)]
pub enum ChatGuruError {
    /// The network or the HTTP transport failed.
    NetworkError(String),
    /// The ChatGuru service answered with a failure.
    ApiError(String),
    /// Structured data could not be read or written.
    SerializationError(String),
    /// A caller handed over invalid data.
    ValidationError(String),
    /// The client itself is in a state it should not be in.
    InternalError(String),
}

/// `serde_json::Error`: an error of the JSON reader, carried as it is.
#[verifier::external_type_specification]
#[verifier::external_body]
pub struct ExSerdeJsonError(serde_json::Error);

/// `reqwest::Error`: an error of the HTTP client, carried as it is.
#[verifier::external_type_specification]
#[verifier::external_body]
pub struct ExReqwestError(reqwest::Error);

/// `serde_json::Error`'s `Display`, through `to_string`: the error's description.
#[verifier::external_body]
fn serde_json_error_text(err: &serde_json::Error) -> (text: String) {
    err.to_string()
}

/// `reqwest::Error`'s `Display`, through `to_string`: the error's description.
#[verifier::external_body]
fn reqwest_error_text(err: &reqwest::Error) -> (text: String) {
    err.to_string()
}

impl ChatGuruError {
    /// The description that the error carries.
    pub open spec fn message(self) -> Seq<char> {
        match self {
            ChatGuruError::NetworkError(m) => m@,
            ChatGuruError::ApiError(m) => m@,
            ChatGuruError::SerializationError(m) => m@,
            ChatGuruError::ValidationError(m) => m@,
            ChatGuruError::InternalError(m) => m@,
        }
    }

    /// What the rendering of each kind of error starts with.
    pub open spec fn prefix(self) -> Seq<char> {
        match self {
            ChatGuruError::NetworkError(_) => "Network error: "@,
            ChatGuruError::ApiError(_) => "ChatGuru API error: "@,
            ChatGuruError::SerializationError(_) => "Serialization error: "@,
            ChatGuruError::ValidationError(_) => "Validation error: "@,
            ChatGuruError::InternalError(_) => "Internal error: "@,
        }
    }

    /// The description that the error carries.
    pub fn detail(&self) -> (text: &String)
        ensures
            text@ == self.message(),
    {
        match self {
            ChatGuruError::NetworkError(m) => m,
            ChatGuruError::ApiError(m) => m,
            ChatGuruError::SerializationError(m) => m,
            ChatGuruError::ValidationError(m) => m,
            ChatGuruError::InternalError(m) => m,
        }
    }

    /// The error as text: the prefix of its kind, then its description.
    pub fn to_string(&self) -> (text: String)
        ensures
            text@ == self.prefix() + self.message(),
    {
        match self {
            ChatGuruError::NetworkError(m) => String::from_str("Network error: ").concat(m.as_str()),
            ChatGuruError::ApiError(m) => String::from_str("ChatGuru API error: ").concat(m.as_str()),
            ChatGuruError::SerializationError(m) => String::from_str("Serialization error: ").concat(
                m.as_str(),
            ),
            ChatGuruError::ValidationError(m) => String::from_str("Validation error: ").concat(
                m.as_str(),
            ),
            ChatGuruError::InternalError(m) => String::from_str("Internal error: ").concat(m.as_str()),
        }
    }
}

impl From<serde_json::Error> for ChatGuruError {
    /// An error of the JSON reader is a `SerializationError` with the
    /// description that the error gives of itself.
    fn from(err: serde_json::Error) -> (e: ChatGuruError)
        ensures
            e is SerializationError,
    {
        ChatGuruError::SerializationError(serde_json_error_text(&err))
    }
}

/// The description of an error of the JSON reader has no model here, so the
/// conversion is bound by no spec function: `from` itself states the kind of
/// the error that it gives.
impl vstd::std_specs::convert::FromSpecImpl<serde_json::Error> for ChatGuruError {
    open spec fn obeys_from_spec() -> bool {
        false
    }

    open spec fn from_spec(err: serde_json::Error) -> ChatGuruError {
        arbitrary()
    }
}

impl From<reqwest::Error> for ChatGuruError {
    /// An error of the HTTP client is a `NetworkError` with the description
    /// that the error gives of itself.
    fn from(err: reqwest::Error) -> (e: ChatGuruError)
        ensures
            e is NetworkError,
    {
        ChatGuruError::NetworkError(reqwest_error_text(&err))
    }
}

/// The description of an error of the HTTP client has no model here, so the
/// conversion is bound by no spec function: `from` itself states the kind of
/// the error that it gives.
impl vstd::std_specs::convert::FromSpecImpl<reqwest::Error> for ChatGuruError {
    open spec fn obeys_from_spec() -> bool {
        false
    }

    open spec fn from_spec(err: reqwest::Error) -> ChatGuruError {
        arbitrary()
    }
}

} // verus!
