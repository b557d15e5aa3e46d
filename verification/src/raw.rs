//! The request-creator configuration and the planned request description.
//!
//! A [`RawApi`] holds the resource kind and the (group, version, namespace)
//! scope; its builder methods plan one [`Request`] per operation. Rendering
//! a request into a concrete URL, and executing it, is the external request
//! builder and transport collaborators' work.

use vstd::prelude::*;

use crate::Error;

verus! {

/// HTTP method of a planned request.
#[derive(Debug, Clone, Copy, PartialEq, Eq, Structural)]
pub enum Method {
    /// Read a single object, a list, or a watch stream.
    Get,
    /// Create an object.
    Post,
    /// Replace an object.
    Put,
    /// Delete an object or a collection.
    Delete,
    /// Patch an object.
    Patch,
}

/// Options for create and replace.
#[derive(Debug, Clone, Copy, PartialEq, Eq)]
pub struct PostParams {
    /// Validate the call without persisting anything.
    pub dry_run: bool,
}

impl Default for PostParams {
    fn default() -> (r: Self)
        ensures
            r == (PostParams { dry_run: false }),
    {
        PostParams { dry_run: false }
    }
}

/// Options for list, delete-collection and watch.
#[derive(Debug, Clone, Copy, PartialEq, Eq)]
pub struct ListParams {
    /// Server-side timeout for the call, in seconds.
    pub timeout_seconds: Option<u32>,
    /// Whether objects not yet initialized are included.
    pub include_uninitialized: bool,
}

impl Default for ListParams {
    fn default() -> (r: Self)
        ensures
            r == (ListParams { timeout_seconds: None, include_uninitialized: false }),
    {
        ListParams { timeout_seconds: None, include_uninitialized: false }
    }
}

/// Options for delete and delete-collection.
#[derive(Debug, Clone, Copy, PartialEq, Eq)]
pub struct DeleteParams {
    /// Seconds the object is given to terminate gracefully.
    pub grace_period_seconds: Option<u32>,
    /// Whether dependent objects are orphaned rather than collected.
    pub orphan_dependents: bool,
}

impl Default for DeleteParams {
    fn default() -> (r: Self)
        ensures
            r == (DeleteParams { grace_period_seconds: None, orphan_dependents: false }),
    {
        DeleteParams { grace_period_seconds: None, orphan_dependents: false }
    }
}

/// Options for patch.
#[derive(Debug, Clone, Copy, PartialEq, Eq)]
pub struct PatchParams {
    /// Validate the call without persisting anything.
    pub dry_run: bool,
}

impl Default for PatchParams {
    fn default() -> (r: Self)
        ensures
            r == (PatchParams { dry_run: false }),
    {
        PatchParams { dry_run: false }
    }
}

/// The option set a planned request carries, by operation family.
#[derive(Debug, Clone, Copy, PartialEq, Eq)]
pub enum OpOptions {
    /// A plain single-object read.
    Bare,
    /// A create or replace.
    Post(PostParams),
    /// A list or delete-collection.
    List(ListParams),
    /// A single-object delete.
    Delete(DeleteParams),
    /// A patch.
    Patch(PatchParams),
    /// A watch, alongside its starting version.
    Watch(ListParams),
}

/// The abstract value of an optional owned string.
pub open spec fn opt_str_view(s: Option<String>) -> Option<Seq<char>> {
    match s {
        Option::Some(x) => Some(x@),
        Option::None => None,
    }
}

/// Copies an optional owned string.
fn clone_opt_string(s: &Option<String>) -> (r: Option<String>)
    ensures
        opt_str_view(r) == opt_str_view(*s),
{
    match s {
        Option::Some(x) => Some(x.clone()),
        Option::None => None,
    }
}

/// A planned request description, handed to the transport: method, address
/// (scope plus optional object name), operation options, starting version
/// for a watch, and an optional body payload.
#[derive(Debug)]
pub struct Request {
    /// HTTP method.
    pub method: Method,
    /// Plural name of the resource kind addressed.
    pub resource: String,
    /// API group; empty selects the core group.
    pub group: String,
    /// API version.
    pub version: String,
    /// Namespace scope; cluster-wide when absent.
    pub namespace: Option<String>,
    /// Object name, for single-object operations.
    pub name: Option<String>,
    /// The operation's option set.
    pub options: OpOptions,
    /// Starting resource version, for a watch.
    pub start_version: Option<String>,
    /// Encoded body payload, for write operations.
    pub body: Option<Vec<u8>>,
}

impl Request {
    /// The request addresses exactly the scope configured on `api`.
    pub open spec fn scoped_as(&self, api: &RawApi) -> bool {
        &&& self.resource@ == api.resource@
        &&& self.group@ == api.group@
        &&& self.version@ == api.version@
        &&& opt_str_view(self.namespace) == opt_str_view(api.namespace)
    }

    /// The abstract object name the request addresses.
    pub open spec fn name_view(&self) -> Option<Seq<char>> {
        opt_str_view(self.name)
    }

    /// The abstract starting version the request carries.
    pub open spec fn start_view(&self) -> Option<Seq<char>> {
        opt_str_view(self.start_version)
    }

    /// The abstract body payload the request carries.
    pub open spec fn body_view(&self) -> Option<Seq<u8>> {
        match self.body {
            Option::Some(b) => Some(b@),
            Option::None => None,
        }
    }
}

/// The request-creator configuration: a resource kind plus its
/// (group, version, namespace) scope.
#[derive(Debug)]
pub struct RawApi {
    /// Plural name of the resource kind addressed.
    pub resource: String,
    /// API group; empty selects the core group.
    pub group: String,
    /// API version.
    pub version: String,
    /// Namespace scope; cluster-wide when absent.
    pub namespace: Option<String>,
}

impl RawApi {
    /// The abstract namespace scope.
    pub open spec fn ns_view(&self) -> Option<Seq<char>> {
        opt_str_view(self.namespace)
    }

    /// A scope requests can be built under: the resource kind and version
    /// are named, and a namespace, when set, is not empty.
    pub open spec fn valid_scope(&self) -> bool {
        &&& self.resource@.len() > 0
        &&& self.version@.len() > 0
        &&& (self.ns_view() matches Some(n) ==> n.len() > 0)
    }

    /// Checks the scope.
    pub fn check_scope(&self) -> (b: bool)
        ensures
            b == self.valid_scope(),
    {
        let res_ok = !self.resource.as_str().is_empty();
        let ver_ok = !self.version.as_str().is_empty();
        let ns_ok = match &self.namespace {
            Option::Some(n) => !n.as_str().is_empty(),
            Option::None => true,
        };
        res_ok && ver_ok && ns_ok
    }

    /// Constructor for a custom resource kind, from only its name: core
    /// (empty) group, version `v1`, cluster-wide scope.
    pub fn customResource(name: &str) -> (r: Self)
        ensures
            r.resource@ == name@,
            r.group@.len() == 0,
            r.version@ == seq!['v', '1'],
            r.namespace is None,
    {
        let r = RawApi {
            resource: name.to_owned(),
            group: String::new(),
            version: "v1".to_owned(),
            namespace: None,
        };
        proof {
            reveal_strlit("v1");
            assert(r.version@ =~= seq!['v', '1']);
        }
        r
    }

    /// Returns the configuration scoped to the given namespace; a previous
    /// namespace is overridden (last write wins).
    pub fn within(self, ns: &str) -> (r: Self)
        ensures
            r.ns_view() == Some(ns@),
            r.resource@ == self.resource@,
            r.group@ == self.group@,
            r.version@ == self.version@,
    {
        RawApi { namespace: Some(ns.to_owned()), ..self }
    }

    /// Returns the configuration with the API group overridden.
    pub fn group(self, group: &str) -> (r: Self)
        ensures
            r.group@ == group@,
            r.resource@ == self.resource@,
            r.version@ == self.version@,
            r.ns_view() == self.ns_view(),
    {
        RawApi { group: group.to_owned(), ..self }
    }

    /// Returns the configuration with the API version overridden.
    pub fn version(self, version: &str) -> (r: Self)
        ensures
            r.version@ == version@,
            r.resource@ == self.resource@,
            r.group@ == self.group@,
            r.ns_view() == self.ns_view(),
    {
        RawApi { version: version.to_owned(), ..self }
    }

    /// Plans a single-object read.
    pub fn get(&self, name: &str) -> (r: Result<Request, Error>)
        ensures
            (r is Ok) <==> (self.valid_scope() && name@.len() > 0),
            r matches Ok(req) ==> {
                &&& req.scoped_as(self)
                &&& req.method == Method::Get
                &&& req.name_view() == Some(name@)
                &&& req.options == OpOptions::Bare
                &&& req.start_view() is None
                &&& req.body_view() is None
            },
            r is Err ==> r == Err::<Request, Error>(Error::ConfigError),
    {
        if !self.check_scope() || name.is_empty() {
            return Err(Error::ConfigError);
        }
        Ok(
            Request {
                method: Method::Get,
                resource: self.resource.clone(),
                group: self.group.clone(),
                version: self.version.clone(),
                namespace: clone_opt_string(&self.namespace),
                name: Some(name.to_owned()),
                options: OpOptions::Bare,
                start_version: None,
                body: None,
            },
        )
    }

    /// Plans a create carrying an already-normalized body payload.
    pub fn create(&self, pp: &PostParams, data: Vec<u8>) -> (r: Result<Request, Error>)
        ensures
            (r is Ok) <==> self.valid_scope(),
            r matches Ok(req) ==> {
                &&& req.scoped_as(self)
                &&& req.method == Method::Post
                &&& req.name_view() is None
                &&& req.options == OpOptions::Post(*pp)
                &&& req.start_view() is None
                &&& req.body_view() == Some(data@)
            },
            r is Err ==> r == Err::<Request, Error>(Error::ConfigError),
    {
        if !self.check_scope() {
            return Err(Error::ConfigError);
        }
        Ok(
            Request {
                method: Method::Post,
                resource: self.resource.clone(),
                group: self.group.clone(),
                version: self.version.clone(),
                namespace: clone_opt_string(&self.namespace),
                name: None,
                options: OpOptions::Post(*pp),
                start_version: None,
                body: Some(data),
            },
        )
    }

    /// Plans a single-object delete.
    pub fn delete(&self, name: &str, dp: &DeleteParams) -> (r: Result<Request, Error>)
        ensures
            (r is Ok) <==> (self.valid_scope() && name@.len() > 0),
            r matches Ok(req) ==> {
                &&& req.scoped_as(self)
                &&& req.method == Method::Delete
                &&& req.name_view() == Some(name@)
                &&& req.options == OpOptions::Delete(*dp)
                &&& req.start_view() is None
                &&& req.body_view() is None
            },
            r is Err ==> r == Err::<Request, Error>(Error::ConfigError),
    {
        if !self.check_scope() || name.is_empty() {
            return Err(Error::ConfigError);
        }
        Ok(
            Request {
                method: Method::Delete,
                resource: self.resource.clone(),
                group: self.group.clone(),
                version: self.version.clone(),
                namespace: clone_opt_string(&self.namespace),
                name: Some(name.to_owned()),
                options: OpOptions::Delete(*dp),
                start_version: None,
                body: None,
            },
        )
    }

    /// Plans a list of the collection at the configured scope.
    pub fn list(&self, lp: &ListParams) -> (r: Result<Request, Error>)
        ensures
            (r is Ok) <==> self.valid_scope(),
            r matches Ok(req) ==> {
                &&& req.scoped_as(self)
                &&& req.method == Method::Get
                &&& req.name_view() is None
                &&& req.options == OpOptions::List(*lp)
                &&& req.start_view() is None
                &&& req.body_view() is None
            },
            r is Err ==> r == Err::<Request, Error>(Error::ConfigError),
    {
        if !self.check_scope() {
            return Err(Error::ConfigError);
        }
        Ok(
            Request {
                method: Method::Get,
                resource: self.resource.clone(),
                group: self.group.clone(),
                version: self.version.clone(),
                namespace: clone_opt_string(&self.namespace),
                name: None,
                options: OpOptions::List(*lp),
                start_version: None,
                body: None,
            },
        )
    }

    /// Plans a delete of the whole collection at the configured scope.
    pub fn delete_collection(&self, lp: &ListParams) -> (r: Result<Request, Error>)
        ensures
            (r is Ok) <==> self.valid_scope(),
            r matches Ok(req) ==> {
                &&& req.scoped_as(self)
                &&& req.method == Method::Delete
                &&& req.name_view() is None
                &&& req.options == OpOptions::List(*lp)
                &&& req.start_view() is None
                &&& req.body_view() is None
            },
            r is Err ==> r == Err::<Request, Error>(Error::ConfigError),
    {
        if !self.check_scope() {
            return Err(Error::ConfigError);
        }
        Ok(
            Request {
                method: Method::Delete,
                resource: self.resource.clone(),
                group: self.group.clone(),
                version: self.version.clone(),
                namespace: clone_opt_string(&self.namespace),
                name: None,
                options: OpOptions::List(*lp),
                start_version: None,
                body: None,
            },
        )
    }

    /// Plans a patch carrying the caller-provided patch bytes unchanged.
    pub fn patch(&self, name: &str, pp: &PatchParams, patch: Vec<u8>) -> (r: Result<Request, Error>)
        ensures
            (r is Ok) <==> (self.valid_scope() && name@.len() > 0),
            r matches Ok(req) ==> {
                &&& req.scoped_as(self)
                &&& req.method == Method::Patch
                &&& req.name_view() == Some(name@)
                &&& req.options == OpOptions::Patch(*pp)
                &&& req.start_view() is None
                &&& req.body_view() == Some(patch@)
            },
            r is Err ==> r == Err::<Request, Error>(Error::ConfigError),
    {
        if !self.check_scope() || name.is_empty() {
            return Err(Error::ConfigError);
        }
        Ok(
            Request {
                method: Method::Patch,
                resource: self.resource.clone(),
                group: self.group.clone(),
                version: self.version.clone(),
                namespace: clone_opt_string(&self.namespace),
                name: Some(name.to_owned()),
                options: OpOptions::Patch(*pp),
                start_version: None,
                body: Some(patch),
            },
        )
    }

    /// Plans a full-object replace carrying an already-normalized body.
    pub fn replace(&self, name: &str, pp: &PostParams, data: Vec<u8>) -> (r: Result<
        Request,
        Error,
    >)
        ensures
            (r is Ok) <==> (self.valid_scope() && name@.len() > 0),
            r matches Ok(req) ==> {
                &&& req.scoped_as(self)
                &&& req.method == Method::Put
                &&& req.name_view() == Some(name@)
                &&& req.options == OpOptions::Post(*pp)
                &&& req.start_view() is None
                &&& req.body_view() == Some(data@)
            },
            r is Err ==> r == Err::<Request, Error>(Error::ConfigError),
    {
        if !self.check_scope() || name.is_empty() {
            return Err(Error::ConfigError);
        }
        Ok(
            Request {
                method: Method::Put,
                resource: self.resource.clone(),
                group: self.group.clone(),
                version: self.version.clone(),
                namespace: clone_opt_string(&self.namespace),
                name: Some(name.to_owned()),
                options: OpOptions::Post(*pp),
                start_version: None,
                body: Some(data),
            },
        )
    }

    /// Plans a watch of the collection, starting at exactly the given
    /// resource version.
    pub fn watch(&self, lp: &ListParams, version: &str) -> (r: Result<Request, Error>)
        ensures
            (r is Ok) <==> self.valid_scope(),
            r matches Ok(req) ==> {
                &&& req.scoped_as(self)
                &&& req.method == Method::Get
                &&& req.name_view() is None
                &&& req.options == OpOptions::Watch(*lp)
                &&& req.start_view() == Some(version@)
                &&& req.body_view() is None
            },
            r is Err ==> r == Err::<Request, Error>(Error::ConfigError),
    {
        if !self.check_scope() {
            return Err(Error::ConfigError);
        }
        Ok(
            Request {
                method: Method::Get,
                resource: self.resource.clone(),
                group: self.group.clone(),
                version: self.version.clone(),
                namespace: clone_opt_string(&self.namespace),
                name: None,
                options: OpOptions::Watch(*lp),
                start_version: Some(version.to_owned()),
                body: None,
            },
        )
    }
}

} // verus!
