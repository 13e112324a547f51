//! The ways in which an operation on a time lock can fail.

use vstd::prelude::*;

verus! {

/// What is wrong with an instruction buffer that does not decode.
#[derive(Clone, Copy, Debug, PartialEq, Eq, Structural)]
pub enum MalformedKind {
    /// The buffer is empty, its tag is unknown, or its length does not fit the tag.
    InstructionData,
    /// The tag and the length are right, but the secret is not UTF-8 text.
    SecretNotUtf8,
}

/// Failure to decode an instruction buffer.
#[derive(Clone, Copy, Debug, PartialEq, Eq, Structural)]
pub enum DecodeError {
    Malformed(MalformedKind),
}

/// Failure to create a lock.
#[derive(Clone, Copy, Debug, PartialEq, Eq, Structural)]
pub enum CreateError {
    /// The unlock timestamp is not strictly later than the current time.
    TimestampNotInFuture,
}

/// Failure to reach a stored lock before the time gate is evaluated.
#[derive(Clone, Copy, Debug, PartialEq, Eq, Structural)]
pub enum UnlockError {
    /// The stored record is not held by the expected authority.
    IncorrectOwner,
    /// The stored bytes are not the serialized form of a lock record.
    DeserializationFailure,
}

} // verus!
