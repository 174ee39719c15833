//! Agent-to-agent message codec and envelope pipeline.
//!
//! An edge client talks to a remote agency, and through it to a paired
//! agent, in typed messages serialized under one of two protocol versions:
//! the older one frames MessagePack bundles with a signed-byte tolerance,
//! the newer one JSON with packed authenticated encryption.  This crate
//! holds the codec itself: the message-type registry, the string codecs for
//! status codes and remote kinds, the bundle container, the tagged-union
//! message model dispatched on its embedded `@type`, the inner-payload
//! envelope, the forward-wrapping pipeline steps and the request builders.
//!
//! Serializing a tree to bytes and the authenticated-encryption primitives
//! stand outside the crate: every function here works on plain values and
//! on [`json::Json`] trees, and states exactly what it returns.

pub mod a2a;
pub mod builder;
pub mod bundle;
pub mod error;
pub mod field;
pub mod json;
pub mod message_type;
pub mod messages;
pub mod payload;
pub mod pipeline;
pub mod settings;
pub mod status;
