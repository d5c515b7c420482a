//! Error types: engine-level failures of transaction lifecycle operations
//! and codec failures raised while decoding raw bytes.

use vstd::prelude::*;

verus! {

/// An error reported by the storage engine for a transaction lifecycle
/// operation. Engine errors are always returned to the caller, never
/// swallowed.
#[derive(Clone, Copy, Debug, PartialEq, Eq, Structural)]
pub enum EngineError {
    /// A read-write transaction is already open on this environment; only
    /// one may be live at a time.
    WriterBusy,
    /// The parent read-write transaction has a live child; the parent may
    /// not be used until the child has committed or aborted.
    ChildActive,
    /// The environment was not configured to allow read-only transactions
    /// nested inside a write transaction.
    NestedReadUnsupported,
}

impl EngineError {
    /// A human-readable description of the error.
    pub fn message(&self) -> (r: &'static str)
        ensures
            r@ == (match *self {
                EngineError::WriterBusy => "a read-write transaction is already open on this environment"@,
                EngineError::ChildActive => "the transaction has a live child transaction"@,
                EngineError::NestedReadUnsupported => "the environment does not support nested read transactions"@,
            }),
    {
        match self {
            EngineError::WriterBusy => "a read-write transaction is already open on this environment",
            EngineError::ChildActive => "the transaction has a live child transaction",
            EngineError::NestedReadUnsupported => "the environment does not support nested read transactions",
        }
    }
}

/// The slice of bytes is non-empty and therefore is not a unit `()` type.
#[derive(Debug, Clone, Copy, PartialEq, Eq, Hash, Structural)]
pub struct NonEmptyError;

impl NonEmptyError {
    /// A human-readable description of the error.
    pub fn message(&self) -> (r: &'static str)
        ensures
            r@ == "the slice of bytes is non-empty and therefore is not a unit `()` type"@,
    {
        "the slice of bytes is non-empty and therefore is not a unit `()` type"
    }
}

/// An error raised while encoding an item to bytes or decoding an item
/// from bytes. Decoders reject malformed input deterministically: they
/// return one of these variants and never panic.
#[derive(Clone, Copy, Debug, PartialEq, Eq, Structural)]
pub enum CodecError {
    /// The input slice's length differs from the fixed size the codec expects.
    WrongLength {
        /// The length the codec expects.
        expected: usize,
        /// The length of the input that was handed to the codec.
        found: usize,
    },
    /// The input slice is not valid UTF-8.
    InvalidUtf8,
    /// The input slice is non-empty where the unit codec expects no bytes.
    NonEmpty(NonEmptyError),
    /// A serialization library rejected the item or the input bytes.
    Serialization,
}

impl CodecError {
    /// A human-readable description of the error.
    pub fn message(&self) -> (r: &'static str)
        ensures
            r@ == (match *self {
                CodecError::WrongLength { .. } => "the input slice's length differs from the codec's fixed size"@,
                CodecError::InvalidUtf8 => "the input slice is not valid UTF-8"@,
                CodecError::NonEmpty(_) => "the slice of bytes is non-empty and therefore is not a unit `()` type"@,
                CodecError::Serialization => "a serialization library rejected the value"@,
            }),
    {
        match self {
            CodecError::WrongLength { .. } => "the input slice's length differs from the codec's fixed size",
            CodecError::InvalidUtf8 => "the input slice is not valid UTF-8",
            CodecError::NonEmpty(e) => e.message(),
            CodecError::Serialization => "a serialization library rejected the value",
        }
    }
}

} // verus!
