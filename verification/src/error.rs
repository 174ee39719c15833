//! Error kinds surfaced by the codec.
//!
//! The kinds are semantic: each names the stage of the pipeline that failed.
//! Cryptographic and configuration failures are reported by their own kinds
//! and otherwise passed through untouched.

use vstd::prelude::*;

verus! {

/// What went wrong inside the codec.
#[derive(Clone, Copy, Debug, PartialEq, Eq, Structural)]
pub enum CodecError {
    /// A value could not be written out as JSON, or an empty message list
    /// reached the newer-protocol agent-prepare path.
    SerializationError,
    /// A MessagePack tree could not be built or read back.
    InvalidMsgpack,
    /// A JSON tree could not be read back, or a required field was missing or
    /// ill-typed.
    InvalidJson,
    /// The outer envelope of the older protocol could not be written out.
    UnknownError,
    /// A required configuration entry was absent from the settings snapshot.
    InvalidConfiguration,
    /// A builder was handed an ill-formed identifier.
    InvalidDid,
    /// A builder was handed an ill-formed verification key.
    InvalidVerkey,
}

} // verus!
