//! The ways in which building a client or carrying out a call can fail.

use vstd::prelude::*;
use vstd::string::*;

use crate::decimal::{decimal, push_decimal};

verus! {

/// Why a client could not be built, or a call did not give its result.
///
/// No variant carries a key or a secret, so an error can be logged as it is.
#[derive(Debug, PartialEq, Eq)]
pub enum OvhError {
    /// The endpoint identifier is not one of the known ones.
    UnknownEndpoint,
    /// The configuration lacks the key of this name.
    MissingConfigKey(String),
    /// The request did not reach the server, or no answer came back.
    NetworkError,
    /// The server answered with a status outside 200 to 299; the status and
    /// the body of its answer.
    ApiError(u16, String),
    /// A payload could not be encoded. What the library encodes itself is
    /// made of texts and numbers, which always can be; the variant is for a
    /// caller that encodes a value of its own.
    SerializationError,
    /// An answer, or a configuration text, was not in the expected form.
    ParseError,
    /// A clock reading or a length is beyond what the signing protocol's
    /// integers can hold.
    OutOfRange,
}

/// An [`OvhError`] with its texts as character sequences.
pub enum OvhErrorView {
    UnknownEndpoint,
    MissingConfigKey(Seq<char>),
    NetworkError,
    ApiError(u16, Seq<char>),
    SerializationError,
    ParseError,
    OutOfRange,
}

impl View for OvhError {
    type V = OvhErrorView;

    open spec fn view(&self) -> OvhErrorView {
        match self {
            OvhError::UnknownEndpoint => OvhErrorView::UnknownEndpoint,
            OvhError::MissingConfigKey(key) => OvhErrorView::MissingConfigKey(key@),
            OvhError::NetworkError => OvhErrorView::NetworkError,
            OvhError::ApiError(status, body) => OvhErrorView::ApiError(*status, body@),
            OvhError::SerializationError => OvhErrorView::SerializationError,
            OvhError::ParseError => OvhErrorView::ParseError,
            OvhError::OutOfRange => OvhErrorView::OutOfRange,
        }
    }
}

impl OvhErrorView {
    /// The line of text that describes the error.
    pub open spec fn message(self) -> Seq<char> {
        match self {
            OvhErrorView::UnknownEndpoint => "unknown endpoint"@,
            OvhErrorView::MissingConfigKey(key) => "missing key `"@ + key + "`"@,
            OvhErrorView::NetworkError => "network issue"@,
            OvhErrorView::ApiError(status, body) => "api error "@ + decimal(status as nat) + ": "@
                + body,
            OvhErrorView::SerializationError => "serialization issue"@,
            OvhErrorView::ParseError => "parse issue"@,
            OvhErrorView::OutOfRange => "value out of range"@,
        }
    }
}

impl Clone for OvhError {
    fn clone(&self) -> (copy: Self)
        ensures
            copy@ == self@,
    {
        match self {
            OvhError::UnknownEndpoint => OvhError::UnknownEndpoint,
            OvhError::MissingConfigKey(key) => OvhError::MissingConfigKey(key.clone()),
            OvhError::NetworkError => OvhError::NetworkError,
            OvhError::ApiError(status, body) => OvhError::ApiError(*status, body.clone()),
            OvhError::SerializationError => OvhError::SerializationError,
            OvhError::ParseError => OvhError::ParseError,
            OvhError::OutOfRange => OvhError::OutOfRange,
        }
    }
}

impl OvhError {
    /// The line of text that describes the error.
    pub fn message(&self) -> (text: String)
        ensures
            text@ == self@.message(),
    {
        match self {
            OvhError::UnknownEndpoint => String::from_str("unknown endpoint"),
            OvhError::MissingConfigKey(key) => {
                let mut text = String::from_str("missing key `");
                text.append(key.as_str());
                text.append("`");
                text
            },
            OvhError::NetworkError => String::from_str("network issue"),
            OvhError::ApiError(status, body) => {
                let mut text = String::from_str("api error ");
                push_decimal(&mut text, *status as u64);
                text.append(": ");
                text.append(body.as_str());
                text
            },
            OvhError::SerializationError => String::from_str("serialization issue"),
            OvhError::ParseError => String::from_str("parse issue"),
            OvhError::OutOfRange => String::from_str("value out of range"),
        }
    }
}

} // verus!
