//! Typed access layer for a declarative, resource-oriented HTTP API.
//!
//! The crate binds an opaque resource type to a CRUD + watch operation set:
//! a scoped handle plans each operation as a request descriptor, a
//! serialization adapter normalizes payloads to bytes, a deletion resolver
//! tags ambiguous delete responses, and a watch decoder turns a framed byte
//! stream into typed lifecycle events. The transport that executes the
//! requests is an external collaborator and lives outside this crate.
#![allow(non_snake_case)]

use vstd::prelude::*;

pub mod bytes;
pub mod custom;
pub mod raw;
pub mod resolver;
pub mod resource;
pub mod status;
pub mod typed;
pub mod watch;

verus! {

/// The error kinds an operation can surface.
///
/// A caller either gets a fully typed result or one of these; never a
/// partial object.
#[derive(Debug, PartialEq, Eq)]
pub enum Error {
    /// The handle's scope or the object name is invalid; nothing was sent.
    ConfigError,
    /// The payload could not be encoded; nothing was sent.
    SerializationError,
    /// The transport failed below the HTTP layer.
    NetworkError,
    /// The server answered with a non-2xx code, possibly with a status body.
    HttpStatusError(u16, Option<crate::status::Status>),
    /// The response body matches no expected shape.
    DecodeError,
}

} // verus!
