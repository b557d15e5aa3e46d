//! The typed resource handle: the generic binding of a resource type to a
//! request-builder configuration and a transport client reference, exposing
//! the CRUD + watch operation set.
//!
//! Operations here plan requests (and normalize write payloads through the
//! serialization adapter); executing a plan and feeding the response body
//! back through [`crate::resolver`] or [`crate::watch`] is the caller's
//! loop around the external transport.

use core::marker::PhantomData;
use vstd::prelude::*;

use crate::raw::{
    DeleteParams, ListParams, Method, OpOptions, PatchParams, PostParams, RawApi, Request,
};
use crate::resource::{KubeObject, SerializeKubeObject};
use crate::Error;

verus! {

/// The transport collaborator's configuration handle.
///
/// The transport itself (HTTP, TLS, credentials) lives outside this crate;
/// this value only carries the injected configuration that identifies it.
#[derive(Debug)]
pub struct APIClient {
    /// Base URL the transport addresses.
    pub base_url: String,
}

impl APIClient {
    /// A client configuration for the given base URL.
    pub fn new(base_url: &str) -> (r: Self)
        ensures
            r.base_url@ == base_url@,
    {
        APIClient { base_url: base_url.to_owned() }
    }
}

/// A typed handle binding the resource type `K` to a request-builder
/// configuration and a transport client.
///
/// Every operation on one handle encodes and decodes with the same `K`.
/// Scoping calls are pure transformations: each returns a new handle with
/// one scoping field overridden.
#[derive(Debug)]
pub struct Api<K> {
    /// The request creator object.
    pub api: RawApi,
    /// The transport client configuration to plan requests for.
    pub client: APIClient,
    /// Marks the resource type the handle decodes and encodes with.
    pub phantom: PhantomData<K>,
}

impl<K> Api<K> {
    /// Returns the handle scoped to the given namespace; a previous
    /// namespace is overridden (last write wins), never kept alongside.
    pub fn within(self, ns: &str) -> (r: Self)
        ensures
            r.api.ns_view() == Some(ns@),
            r.api.resource@ == self.api.resource@,
            r.api.group@ == self.api.group@,
            r.api.version@ == self.api.version@,
            r.client.base_url@ == self.client.base_url@,
    {
        Api { api: self.api.within(ns), client: self.client, phantom: PhantomData }
    }

    /// Returns the handle with the API group overridden.
    pub fn group(self, group: &str) -> (r: Self)
        ensures
            r.api.group@ == group@,
            r.api.resource@ == self.api.resource@,
            r.api.version@ == self.api.version@,
            r.api.ns_view() == self.api.ns_view(),
            r.client.base_url@ == self.client.base_url@,
    {
        Api { api: self.api.group(group), client: self.client, phantom: PhantomData }
    }

    /// Returns the handle with the API version overridden.
    pub fn version(self, version: &str) -> (r: Self)
        ensures
            r.api.version@ == version@,
            r.api.resource@ == self.api.resource@,
            r.api.group@ == self.api.group@,
            r.api.ns_view() == self.api.ns_view(),
            r.client.base_url@ == self.client.base_url@,
    {
        Api { api: self.api.version(version), client: self.client, phantom: PhantomData }
    }
}

impl<K: KubeObject> Api<K> {
    /// Constructor for custom resources: builds a handle from only the
    /// resource-kind name, with no schema dependency.
    pub fn customResource(client: APIClient, name: &str) -> (r: Self)
        ensures
            r.api.resource@ == name@,
            r.api.group@.len() == 0,
            r.api.version@ == seq!['v', '1'],
            r.api.namespace is None,
            r.client.base_url@ == client.base_url@,
    {
        Api { api: RawApi::customResource(name), client, phantom: PhantomData }
    }

    /// Plans a single-object read; the response body decodes with `K`.
    pub fn get(&self, name: &str) -> (r: Result<Request, Error>)
        ensures
            (r is Ok) <==> (self.api.valid_scope() && name@.len() > 0),
            r matches Ok(req) ==> {
                &&& req.scoped_as(&self.api)
                &&& req.method == Method::Get
                &&& req.name_view() == Some(name@)
                &&& req.options == OpOptions::Bare
                &&& req.start_view() is None
                &&& req.body_view() is None
            },
            r is Err ==> r == Err::<Request, Error>(Error::ConfigError),
    {
        self.api.get(name)
    }

    /// Plans a create: the payload — raw bytes or a typed object — is
    /// normalized by the serialization adapter before the request exists,
    /// and an encoding failure is surfaced before anything is sent.
    pub fn create<S: SerializeKubeObject<K>>(&self, pp: &PostParams, data: S) -> (r: Result<
        Request,
        Error,
    >)
        ensures
            (r is Ok) <==> (data.serializable() && self.api.valid_scope()),
            r matches Ok(req) ==> {
                &&& req.scoped_as(&self.api)
                &&& req.method == Method::Post
                &&& req.name_view() is None
                &&& req.options == OpOptions::Post(*pp)
                &&& req.start_view() is None
                &&& req.body_view() == Some(data.payload_bytes())
            },
            !data.serializable() ==> r == Err::<Request, Error>(Error::SerializationError),
            data.serializable() && !self.api.valid_scope() ==> r == Err::<Request, Error>(
                Error::ConfigError,
            ),
    {
        let bytes = match data.serialize_kube_object() {
            Ok(b) => b,
            Err(e) => {
                return Err(e);
            },
        };
        self.api.create(pp, bytes)
    }

    /// Plans a single-object delete; the response body routes through the
    /// deletion result resolver.
    pub fn delete(&self, name: &str, dp: &DeleteParams) -> (r: Result<Request, Error>)
        ensures
            (r is Ok) <==> (self.api.valid_scope() && name@.len() > 0),
            r matches Ok(req) ==> {
                &&& req.scoped_as(&self.api)
                &&& req.method == Method::Delete
                &&& req.name_view() == Some(name@)
                &&& req.options == OpOptions::Delete(*dp)
                &&& req.start_view() is None
                &&& req.body_view() is None
            },
            r is Err ==> r == Err::<Request, Error>(Error::ConfigError),
    {
        self.api.delete(name, dp)
    }

    /// Plans a list of all matching objects at the handle's scope.
    pub fn list(&self, lp: &ListParams) -> (r: Result<Request, Error>)
        ensures
            (r is Ok) <==> self.api.valid_scope(),
            r matches Ok(req) ==> {
                &&& req.scoped_as(&self.api)
                &&& req.method == Method::Get
                &&& req.name_view() is None
                &&& req.options == OpOptions::List(*lp)
                &&& req.start_view() is None
                &&& req.body_view() is None
            },
            r is Err ==> r == Err::<Request, Error>(Error::ConfigError),
    {
        self.api.list(lp)
    }

    /// Plans the bulk analogue of delete, over the whole collection; the
    /// aggregate response routes through the deletion result resolver.
    pub fn delete_collection(&self, lp: &ListParams) -> (r: Result<Request, Error>)
        ensures
            (r is Ok) <==> self.api.valid_scope(),
            r matches Ok(req) ==> {
                &&& req.scoped_as(&self.api)
                &&& req.method == Method::Delete
                &&& req.name_view() is None
                &&& req.options == OpOptions::List(*lp)
                &&& req.start_view() is None
                &&& req.body_view() is None
            },
            r is Err ==> r == Err::<Request, Error>(Error::ConfigError),
    {
        self.api.delete_collection(lp)
    }

    /// Plans a patch from raw patch bytes, passed through unchanged.
    ///
    /// This is a legacy, non-type-safe path: the caller is responsible for
    /// patch-format correctness. It is retained for compatibility and not
    /// extended with typed variants.
    pub fn patch(&self, name: &str, pp: &PatchParams, patch: Vec<u8>) -> (r: Result<Request, Error>)
        ensures
            (r is Ok) <==> (self.api.valid_scope() && name@.len() > 0),
            r matches Ok(req) ==> {
                &&& req.scoped_as(&self.api)
                &&& req.method == Method::Patch
                &&& req.name_view() == Some(name@)
                &&& req.options == OpOptions::Patch(*pp)
                &&& req.start_view() is None
                &&& req.body_view() == Some(patch@)
            },
            r is Err ==> r == Err::<Request, Error>(Error::ConfigError),
    {
        self.api.patch(name, pp, patch)
    }

    /// Plans a full-object overwrite; the payload is normalized like
    /// `create`'s.
    pub fn replace<S: SerializeKubeObject<K>>(&self, name: &str, pp: &PostParams, data: S) -> (r:
        Result<Request, Error>)
        ensures
            (r is Ok) <==> (data.serializable() && self.api.valid_scope() && name@.len() > 0),
            r matches Ok(req) ==> {
                &&& req.scoped_as(&self.api)
                &&& req.method == Method::Put
                &&& req.name_view() == Some(name@)
                &&& req.options == OpOptions::Post(*pp)
                &&& req.start_view() is None
                &&& req.body_view() == Some(data.payload_bytes())
            },
            !data.serializable() ==> r == Err::<Request, Error>(Error::SerializationError),
            data.serializable() && !(self.api.valid_scope() && name@.len() > 0) ==> r == Err::<
                Request,
                Error,
            >(Error::ConfigError),
    {
        let bytes = match data.serialize_kube_object() {
            Ok(b) => b,
            Err(e) => {
                return Err(e);
            },
        };
        self.api.replace(name, pp, bytes)
    }

    /// Plans a watch of the collection starting at exactly the given
    /// resource version (typically the marker a preceding list returned);
    /// the streamed response body routes through the watch decoder.
    pub fn watch(&self, lp: &ListParams, version: &str) -> (r: Result<Request, Error>)
        ensures
            (r is Ok) <==> self.api.valid_scope(),
            r matches Ok(req) ==> {
                &&& req.scoped_as(&self.api)
                &&& req.method == Method::Get
                &&& req.name_view() is None
                &&& req.options == OpOptions::Watch(*lp)
                &&& req.start_view() == Some(version@)
                &&& req.body_view() is None
            },
            r is Err ==> r == Err::<Request, Error>(Error::ConfigError),
    {
        self.api.watch(lp, version)
    }
}

/// Law: creating a valid object and fetching it back yields an equal
/// object. The body a `create` plan carries for a typed payload is the
/// adapter's bytes, which are the object's own encoding, and that encoding
/// decodes back to the very same abstract object — so a transport that
/// persists the created body answers a following `get` with an equal
/// object.
pub proof fn lemma_create_get_round_trip<K: KubeObject>(v: K::V)
    requires
        K::obj_wf(v),
    ensures
        K::decode_of(K::encode_of(v)) == Some(v),
{
    K::lemma_round_trip(v);
}

/// Law: the serialization adapter passes a pre-encoded byte payload
/// through unchanged, and encodes a typed object exactly as the object's
/// own encoder does.
pub proof fn lemma_adapter_normalization<K: KubeObject>(raw: Vec<u8>, k: &K)
    ensures
        <Vec<u8> as SerializeKubeObject<K>>::serializable(raw),
        <Vec<u8> as SerializeKubeObject<K>>::payload_bytes(raw) == raw@,
        <&K as SerializeKubeObject<K>>::payload_bytes(k) == K::encode_of(k@),
        <&K as SerializeKubeObject<K>>::serializable(k) == K::obj_wf(k@),
{
}

} // verus!
