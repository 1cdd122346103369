//! What crosses the boundary on the way out: buffers that a C string can
//! hold, and the outcome of an operation.
//!
//! A buffer is handed out once and belongs to the caller from then on. An
//! operation ends with exactly one of two things: a result buffer, or a
//! message in the error slot.

use crate::error::{message_of, result_value, BridgeError, ErrorValue};
use crate::text::{contains_nul, has_nul};
use vstd::prelude::*;
use vstd::string::*;

verus! {

/// A text that a C string can hold: it is free of NUL.
#[derive(Debug, PartialEq, Eq)]
pub struct Buffer {
    text: String,
}

impl View for Buffer {
    type V = Seq<char>;

    closed spec fn view(&self) -> Seq<char> {
        self.text@
    }
}

impl Buffer {
    #[verifier::type_invariant]
    closed spec fn nul_free(&self) -> bool {
        !has_nul(self.text@)
    }

    /// The buffer that holds the text, or the text back where it holds a NUL.
    pub fn new(text: String) -> (r: Result<Buffer, String>)
        ensures
            match r {
                Ok(buffer) => buffer@ == text@ && !has_nul(text@),
                Err(refused) => refused@ == text@ && has_nul(text@),
            },
    {
        if contains_nul(text.as_str()) {
            Err(text)
        } else {
            Ok(Buffer { text })
        }
    }

    /// The text of the buffer.
    pub fn as_str(&self) -> (text: &str)
        ensures
            text@ == self@,
            !has_nul(text@),
    {
        proof {
            use_type_invariant(self);
        }
        self.text.as_str()
    }

    /// The text of the buffer, which gives the buffer up.
    pub fn into_string(self) -> (text: String)
        ensures
            text@ == self@,
            !has_nul(text@),
    {
        proof {
            use_type_invariant(&self);
        }
        self.text
    }
}

/// What an operation hands back across the boundary: the result buffer and the
/// content of the error slot.
#[derive(Debug, PartialEq, Eq)]
pub struct Outcome {
    /// The buffer that the caller owns from now on, or `None` for a null result.
    pub buffer: Option<Buffer>,
    /// The message written into the error slot, or `None` where the slot stays
    /// cleared.
    pub error: Option<Buffer>,
}

/// The mathematical value of an [`Outcome`].
pub struct OutcomeValue {
    pub buffer: Option<Seq<char>>,
    pub error: Option<Seq<char>>,
}

/// The value of an optional buffer.
pub open spec fn buffer_option(buffer: Option<Buffer>) -> Option<Seq<char>> {
    match buffer {
        Some(b) => Some(b@),
        None => None,
    }
}

impl View for Outcome {
    type V = OutcomeValue;

    open spec fn view(&self) -> OutcomeValue {
        OutcomeValue { buffer: buffer_option(self.buffer), error: buffer_option(self.error) }
    }
}

/// The message as it is written into the error slot: a message that a C string
/// cannot hold gives way to a fixed one.
pub open spec fn slot_text(message: Seq<char>) -> Seq<char> {
    if has_nul(message) {
        "ffi error"@
    } else {
        message
    }
}

/// The outcome of an operation that ended with the given result: a success
/// hands its buffer over and leaves the error slot cleared; a failure hands
/// nothing over and leaves its message in the slot.
pub open spec fn outcome_of(result: Result<Seq<char>, ErrorValue>) -> OutcomeValue {
    match result {
        Ok(text) => OutcomeValue { buffer: Some(text), error: None },
        Err(e) => OutcomeValue { buffer: None, error: Some(slot_text(message_of(e))) },
    }
}

/// The message that is written into the error slot for a failure.
pub fn slot_message(error: &BridgeError) -> (r: Buffer)
    ensures
        r@ == slot_text(message_of(error@)),
{
    match Buffer::new(error.message()) {
        Ok(message) => message,
        Err(_) => {
            let text = String::from_str("ffi error");
            proof {
                reveal_strlit("ffi error");
            }
            Buffer { text }
        },
    }
}

/// Settles an operation: exactly one of the buffer and the error message is
/// there, the buffer on success and the message on failure.
pub fn settle(result: Result<Buffer, BridgeError>) -> (o: Outcome)
    ensures
        o@ == outcome_of(result_value(result)),
        o.buffer is Some != o.error is Some,
        o.buffer is Some == result is Ok,
{
    match result {
        Ok(buffer) => Outcome { buffer: Some(buffer), error: None },
        Err(e) => Outcome { buffer: None, error: Some(slot_message(&e)) },
    }
}

} // verus!
