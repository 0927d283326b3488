//! Registered resources and the table that holds them by handle.

use vstd::prelude::*;
use std::collections::HashMap;
use crate::config::Configuration;
use crate::error::InternalFault;
use crate::handle::{Handle, ResourceKind};

verus! {

broadcast use vstd::std_specs::hash::group_hash_axioms;

/// A registered resource, tagged with its kind.
///
/// `R` is the native object behind a registry, a media engine, an API instance
/// or a peer connection. The table never looks inside it.
#[derive(Debug, PartialEq, Eq)]
pub enum Resource<R> {
    Configuration(Configuration),
    Registry(R),
    MediaEngine(R),
    Api(R),
    PeerConnection(R),
}

impl<R> Resource<R> {
    pub open spec fn spec_kind(&self) -> ResourceKind {
        match self {
            Resource::Configuration(_) => ResourceKind::Configuration,
            Resource::Registry(_) => ResourceKind::Registry,
            Resource::MediaEngine(_) => ResourceKind::MediaEngine,
            Resource::Api(_) => ResourceKind::Api,
            Resource::PeerConnection(_) => ResourceKind::PeerConnection,
        }
    }

    /// The kind this resource is tagged with.
    #[verifier::when_used_as_spec(spec_kind)]
    pub fn kind(&self) -> (kind: ResourceKind)
        ensures
            kind == self.spec_kind(),
    {
        match self {
            Resource::Configuration(_) => ResourceKind::Configuration,
            Resource::Registry(_) => ResourceKind::Registry,
            Resource::MediaEngine(_) => ResourceKind::MediaEngine,
            Resource::Api(_) => ResourceKind::Api,
            Resource::PeerConnection(_) => ResourceKind::PeerConnection,
        }
    }

    /// The native object of a resource that has one.
    pub open spec fn spec_native(&self) -> Option<R> {
        match self {
            Resource::Configuration(_) => None,
            Resource::Registry(native) => Some(*native),
            Resource::MediaEngine(native) => Some(*native),
            Resource::Api(native) => Some(*native),
            Resource::PeerConnection(native) => Some(*native),
        }
    }

    /// The configuration, where the resource is one.
    pub open spec fn spec_configuration(&self) -> Option<Configuration> {
        match self {
            Resource::Configuration(configuration) => Some(*configuration),
            _ => None,
        }
    }

    /// The native object behind this resource; a configuration has none.
    pub fn native(&self) -> (native: Option<&R>)
        ensures
            referent(native) == self.spec_native(),
    {
        match self {
            Resource::Configuration(_) => None,
            Resource::Registry(native) => Some(native),
            Resource::MediaEngine(native) => Some(native),
            Resource::Api(native) => Some(native),
            Resource::PeerConnection(native) => Some(native),
        }
    }

    /// The configuration, where this resource is one.
    pub fn configuration(&self) -> (configuration: Option<&Configuration>)
        ensures
            referent(configuration) == self.spec_configuration(),
    {
        match self {
            Resource::Configuration(configuration) => Some(configuration),
            _ => None,
        }
    }
}

/// The value behind an optional reference.
pub open spec fn referent<T>(reference: Option<&T>) -> Option<T> {
    match reference {
        Some(value) => Some(*value),
        None => None,
    }
}

/// `handle` refers to a live resource of kind `kind` among `entries`.
pub open spec fn holds<R>(entries: Map<Handle, Resource<R>>, handle: Handle, kind: ResourceKind) -> bool {
    entries.contains_key(handle) && entries[handle].spec_kind() == kind
}

/// The resource that `handle` refers to among `entries`, if it is live and of
/// kind `kind`.
pub open spec fn resource_at<R>(
    entries: Map<Handle, Resource<R>>,
    handle: Handle,
    kind: ResourceKind,
) -> Option<Resource<R>> {
    if holds(entries, handle, kind) {
        Some(entries[handle])
    } else {
        None
    }
}

/// The configuration that `handle` refers to among `entries`, if it refers to
/// one.
pub open spec fn configuration_at<R>(entries: Map<Handle, Resource<R>>, handle: Handle) -> Option<
    Configuration,
> {
    if holds(entries, handle, ResourceKind::Configuration) {
        entries[handle].spec_configuration()
    } else {
        None
    }
}

/// The map from handles to live resources.
///
/// An entry, once made, is never replaced or removed: what a handle refers to
/// is settled when the handle is registered.
pub struct ResourceTable<R> {
    entries: HashMap<u64, Resource<R>>,
}

impl<R> View for ResourceTable<R> {
    type V = Map<Handle, Resource<R>>;

    closed spec fn view(&self) -> Map<Handle, Resource<R>> {
        Map::new(
            |handle: Handle| self.entries@.contains_key(handle.raw),
            |handle: Handle| self.entries@[handle.raw],
        )
    }
}

impl<R> ResourceTable<R> {
    /// A table without entries.
    pub fn new() -> (table: ResourceTable<R>)
        ensures
            table@ == Map::<Handle, Resource<R>>::empty(),
    {
        let table = ResourceTable { entries: HashMap::new() };
        assert(table@ =~= Map::<Handle, Resource<R>>::empty());
        table
    }

    /// Registers `resource` under `handle`.
    ///
    /// A handle that is taken already is a fault of the caller's bookkeeping:
    /// the table is left as it was and the resource is dropped.
    pub fn insert(&mut self, handle: Handle, resource: Resource<R>) -> (result: Result<
        (),
        InternalFault,
    >)
        ensures
            match result {
                Ok(()) => !old(self)@.contains_key(handle) && final(self)@ == old(self)@.insert(
                    handle,
                    resource,
                ),
                Err(fault) => fault == InternalFault::DuplicateHandle && old(self)@.contains_key(
                    handle,
                ) && final(self)@ == old(self)@,
            },
    {
        if self.entries.contains_key(&handle.raw) {
            Err(InternalFault::DuplicateHandle)
        } else {
            self.entries.insert(handle.raw, resource);
            assert(self@ =~= old(self)@.insert(handle, resource));
            Ok(())
        }
    }

    /// Whether `handle` refers to a live resource of kind `kind`.
    ///
    /// A handle that was never registered, or that was registered for another
    /// kind, gives `false`.
    pub fn contains(&self, handle: Handle, kind: ResourceKind) -> (found: bool)
        ensures
            found == holds(self@, handle, kind),
    {
        match self.entries.get(&handle.raw) {
            Some(resource) => resource.kind() == kind,
            None => false,
        }
    }

    /// The resource that `handle` refers to, if it is live and of kind `kind`.
    pub fn lookup(&self, handle: Handle, kind: ResourceKind) -> (found: Option<&Resource<R>>)
        ensures
            referent(found) == resource_at(self@, handle, kind),
    {
        match self.entries.get(&handle.raw) {
            Some(resource) => if resource.kind() == kind {
                Some(resource)
            } else {
                None
            },
            None => None,
        }
    }

    /// The configuration that `handle` refers to, if it refers to one.
    pub fn get_config(&self, handle: Handle) -> (found: Option<&Configuration>)
        ensures
            referent(found) == configuration_at(self@, handle),
    {
        match self.entries.get(&handle.raw) {
            Some(Resource::Configuration(configuration)) => Some(configuration),
            _ => None,
        }
    }
}

} // verus!
