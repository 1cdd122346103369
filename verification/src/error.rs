//! The failures that the bridge reports, and the message of each.

use vstd::prelude::*;
use vstd::string::*;

verus! {

/// Why an operation failed.
#[derive(Debug, PartialEq, Eq)]
pub enum BridgeError {
    /// An input buffer is not valid UTF-8; the text says where.
    Encoding(String),
    /// An input is not well-formed JSON; the text is the parser's message.
    Parse(String),
    /// The configuration has the wrong shape: the key of the offending field,
    /// or `None` where the document itself is not an object.
    InvalidConfig(Option<String>),
    /// Options that are well-formed but not what the operation accepts.
    InvalidOption(String),
    /// No token was given and none was found in the environment.
    MissingToken,
    /// The operation was called without a handle.
    NullHandle,
    /// The execution context or the connection could not be set up.
    Connect(String),
    /// The store's client reported a failure; the text is its own.
    Client(String),
    /// A result could not be written as a buffer.
    Serialize(String),
}

/// The mathematical value of a [`BridgeError`].
pub enum ErrorValue {
    Encoding(Seq<char>),
    Parse(Seq<char>),
    InvalidConfig(Option<Seq<char>>),
    InvalidOption(Seq<char>),
    MissingToken,
    NullHandle,
    Connect(Seq<char>),
    Client(Seq<char>),
    Serialize(Seq<char>),
}

impl View for BridgeError {
    type V = ErrorValue;

    open spec fn view(&self) -> ErrorValue {
        match self {
            BridgeError::Encoding(d) => ErrorValue::Encoding(d@),
            BridgeError::Parse(d) => ErrorValue::Parse(d@),
            BridgeError::InvalidConfig(Some(f)) => ErrorValue::InvalidConfig(Some(f@)),
            BridgeError::InvalidConfig(None) => ErrorValue::InvalidConfig(None),
            BridgeError::InvalidOption(d) => ErrorValue::InvalidOption(d@),
            BridgeError::MissingToken => ErrorValue::MissingToken,
            BridgeError::NullHandle => ErrorValue::NullHandle,
            BridgeError::Connect(d) => ErrorValue::Connect(d@),
            BridgeError::Client(d) => ErrorValue::Client(d@),
            BridgeError::Serialize(d) => ErrorValue::Serialize(d@),
        }
    }
}

/// The value of a result that may fail with a [`BridgeError`].
pub open spec fn result_value<T: View>(r: Result<T, BridgeError>) -> Result<T::V, ErrorValue> {
    match r {
        Ok(v) => Ok(v@),
        Err(e) => Err(e@),
    }
}

/// The message of a failure.
pub open spec fn message_of(e: ErrorValue) -> Seq<char> {
    match e {
        ErrorValue::Encoding(d) => "invalid utf-8: "@ + d,
        ErrorValue::Parse(d) => "invalid json: "@ + d,
        ErrorValue::InvalidConfig(Some(f)) => "invalid config: "@ + f,
        ErrorValue::InvalidConfig(None) => "config must be a JSON object"@,
        ErrorValue::InvalidOption(d) => d,
        ErrorValue::MissingToken => "token is required"@,
        ErrorValue::NullHandle => "handle is null"@,
        ErrorValue::Connect(d) => d,
        ErrorValue::Client(d) => d,
        ErrorValue::Serialize(d) => d,
    }
}

impl BridgeError {
    /// The human-readable message of the failure.
    pub fn message(&self) -> (m: String)
        ensures
            m@ == message_of(self@),
    {
        match self {
            BridgeError::Encoding(d) => String::from_str("invalid utf-8: ").concat(d.as_str()),
            BridgeError::Parse(d) => String::from_str("invalid json: ").concat(d.as_str()),
            BridgeError::InvalidConfig(Some(f)) => String::from_str("invalid config: ").concat(
                f.as_str(),
            ),
            BridgeError::InvalidConfig(None) => String::from_str("config must be a JSON object"),
            BridgeError::InvalidOption(d) => d.clone(),
            BridgeError::MissingToken => String::from_str("token is required"),
            BridgeError::NullHandle => String::from_str("handle is null"),
            BridgeError::Connect(d) => d.clone(),
            BridgeError::Client(d) => d.clone(),
            BridgeError::Serialize(d) => d.clone(),
        }
    }
}

} // verus!
