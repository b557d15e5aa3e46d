//! Read-path interpretation of response bodies: decoding a single-object
//! response, and resolving the ambiguous shape of a delete response.

use vstd::prelude::*;

use crate::resource::KubeObject;
use crate::status::Status;
use crate::Error;

verus! {

/// The two shapes a successful delete response can take. The tag is
/// determined at decode time from the response shape, never guessed by the
/// caller.
#[derive(Debug, PartialEq, Eq)]
pub enum DeletionOutcome<K> {
    /// The server deleted at once and returned the removed object.
    Object(K),
    /// The server returned an operation status instead (for instance, a
    /// pending graceful deletion).
    Status(Status),
}

/// Interprets a single-object response body: the object on a body of the
/// expected shape, a decode error on any other.
pub fn interpret_object<K: KubeObject>(body: &[u8]) -> (r: Result<K, Error>)
    ensures
        match K::decode_of(body@) {
            Some(v) => (r matches Ok(k) && k@ == v),
            None => r == Err::<K, Error>(Error::DecodeError),
        },
{
    match K::decode(body) {
        Some(k) => Ok(k),
        None => Err(Error::DecodeError),
    }
}

/// Decides whether a delete (or delete-collection) response body carries
/// the deleted object or an operation status, and tags it accordingly.
///
/// Decoding as the domain object is attempted first; only if that fails is
/// the body decoded as an operation status, whose `"kind":"Status"` member
/// discriminates it; only when both fail is a decode error surfaced.
pub fn resolve_deletion<K: KubeObject>(body: &[u8]) -> (r: Result<DeletionOutcome<K>, Error>)
    ensures
        match K::decode_of(body@) {
            Some(v) => (r matches Ok(DeletionOutcome::Object(k)) && k@ == v),
            None => match <Status as KubeObject>::decode_of(body@) {
                Some(sv) => (r matches Ok(DeletionOutcome::Status(st)) && st@ == sv),
                None => r == Err::<DeletionOutcome<K>, Error>(Error::DecodeError),
            },
        },
{
    match K::decode(body) {
        Some(k) => Ok(DeletionOutcome::Object(k)),
        None => match <Status as KubeObject>::decode(body) {
            Some(st) => Ok(DeletionOutcome::Status(st)),
            None => Err(Error::DecodeError),
        },
    }
}

} // verus!
