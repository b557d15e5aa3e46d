//! The interface between the generic operation set and a concrete resource
//! kind: every resource type states how its values look on the wire, and the
//! serialization adapter normalizes either raw bytes or a typed object into
//! a transmittable payload.

use vstd::prelude::*;

use crate::status::Status;
use crate::Error;

verus! {

/// A resource kind usable with the typed operation set.
///
/// A concrete type describes its wire codec abstractly (over its view) and
/// provides the executable encoder and decoder, together with two laws:
/// decoded objects are valid, and decoding inverts encoding.
pub trait KubeObject: View + Sized {
    /// Which abstract objects are valid, that is, encodable.
    spec fn obj_wf(v: Self::V) -> bool;

    /// The wire bytes of a valid abstract object.
    spec fn encode_of(v: Self::V) -> Seq<u8>;

    /// The abstract object a byte string decodes to, if any.
    spec fn decode_of(s: Seq<u8>) -> Option<Self::V>;

    /// Encodes the object, or reports that it cannot be serialized.
    fn encode(&self) -> (r: Result<Vec<u8>, Error>)
        ensures
            Self::obj_wf(self@) ==> (r matches Ok(b) && b@ == Self::encode_of(self@)),
            !Self::obj_wf(self@) ==> r == Err::<Vec<u8>, Error>(Error::SerializationError),
    ;

    /// Decodes a response body into an object of this kind, if it is one.
    fn decode(s: &[u8]) -> (r: Option<Self>)
        ensures
            match r {
                Some(k) => Self::decode_of(s@) == Some(k@),
                None => Self::decode_of(s@) is None,
            },
    ;

    /// Law: every object a byte string decodes to is valid.
    proof fn lemma_decode_wf(s: Seq<u8>)
        ensures
            Self::decode_of(s) matches Some(v) ==> Self::obj_wf(v),
    ;

    /// Law: decoding inverts encoding on valid objects.
    proof fn lemma_round_trip(v: Self::V)
        requires
            Self::obj_wf(v),
        ensures
            Self::decode_of(Self::encode_of(v)) == Some(v),
    ;
}

/// Compatibility adapter that lets an operation accept both an untyped,
/// pre-encoded payload (raw bytes) and a typed object.
///
/// Not meant to be implemented outside this crate.
pub trait SerializeKubeObject<K: KubeObject>: Sized {
    /// Whether this payload can be turned into bytes.
    spec fn serializable(self) -> bool;

    /// The bytes the adapter hands to the request builder.
    spec fn payload_bytes(self) -> Seq<u8>;

    /// Normalizes the payload into transmittable bytes, or fails with a
    /// serialization error before anything is sent.
    fn serialize_kube_object(self) -> (r: Result<Vec<u8>, Error>)
        ensures
            self.serializable() ==> (r matches Ok(b) && b@ == self.payload_bytes()),
            !self.serializable() ==> r == Err::<Vec<u8>, Error>(Error::SerializationError),
    ;
}

/// A pre-encoded payload passes through unchanged.
impl<K: KubeObject> SerializeKubeObject<K> for Vec<u8> {
    open spec fn serializable(self) -> bool {
        true
    }

    open spec fn payload_bytes(self) -> Seq<u8> {
        self@
    }

    fn serialize_kube_object(self) -> (r: Result<Vec<u8>, Error>) {
        Ok(self)
    }
}

/// A typed object is encoded exactly as its own encoder encodes it.
impl<'a, K: KubeObject> SerializeKubeObject<K> for &'a K {
    open spec fn serializable(self) -> bool {
        K::obj_wf(self@)
    }

    open spec fn payload_bytes(self) -> Seq<u8> {
        K::encode_of(self@)
    }

    fn serialize_kube_object(self) -> (r: Result<Vec<u8>, Error>) {
        self.encode()
    }
}

/// An ordered collection of objects plus list-level metadata: the resource
/// version marker a subsequent watch can start from, and an optional
/// continuation token for pagination.
#[derive(Debug)]
pub struct ObjectList<K> {
    /// The matching objects, in server order.
    pub items: Vec<K>,
    /// Version snapshot usable as a watch starting point.
    pub resource_version: String,
    /// Continuation token, present when the list is paginated.
    pub continue_token: Option<String>,
}

/// One typed lifecycle event from a watch stream.
#[derive(Debug, PartialEq, Eq)]
pub enum WatchEvent<K> {
    /// An object appeared.
    Added(K),
    /// An object changed.
    Modified(K),
    /// An object went away.
    Deleted(K),
    /// The server reported a stream-level problem.
    Error(Status),
}

/// The abstract value of a watch event, over the object's view.
pub enum WatchEventView<V> {
    /// An object appeared.
    Added(V),
    /// An object changed.
    Modified(V),
    /// An object went away.
    Deleted(V),
    /// The server reported a stream-level problem.
    Error(crate::status::StatusView),
}

impl<K: View> View for WatchEvent<K> {
    type V = WatchEventView<K::V>;

    open spec fn view(&self) -> WatchEventView<K::V> {
        match self {
            WatchEvent::Added(k) => WatchEventView::Added(k@),
            WatchEvent::Modified(k) => WatchEventView::Modified(k@),
            WatchEvent::Deleted(k) => WatchEventView::Deleted(k@),
            WatchEvent::Error(s) => WatchEventView::Error(s@),
        }
    }
}

} // verus!
