//! The registry state and the operations the host invokes on it.
//!
//! A resource is built in three steps: the handles it depends on are resolved,
//! the engine builds the native object from what they refer to, and the object
//! is registered under a fresh handle. The engine is not part of this crate.
//! [`State::construct`] takes it as a closure; an embedding that must not hold
//! the state while the engine works calls [`State::prepare`], lets the engine
//! run, and hands its outcome to [`State::complete`].

use vstd::prelude::*;
use crate::config::{Configuration, RawSettings};
use crate::error::{EngineFailure, InternalFault, RegistryError};
use crate::handle::{Handle, HandleAllocator, ResourceKind, FIRST_HANDLE};
use crate::table::{configuration_at, holds, referent, resource_at, Resource, ResourceTable};

verus! {

/// What is to be built, and from which handles.
#[derive(Clone, Copy, Debug, PartialEq, Eq)]
pub enum Blueprint {
    /// A registry. It stands alone.
    Registry,
    /// A media engine on top of a registry.
    MediaEngine { registry: Handle, settings: Option<Handle> },
    /// An API instance on top of a media engine.
    Api { media_engine: Handle, settings: Option<Handle> },
    /// A peer connection on top of an API instance.
    PeerConnection { api: Handle, settings: Option<Handle> },
}

impl Blueprint {
    pub open spec fn spec_kind(&self) -> ResourceKind {
        match self {
            Blueprint::Registry => ResourceKind::Registry,
            Blueprint::MediaEngine { .. } => ResourceKind::MediaEngine,
            Blueprint::Api { .. } => ResourceKind::Api,
            Blueprint::PeerConnection { .. } => ResourceKind::PeerConnection,
        }
    }

    /// The kind of the resource this blueprint describes.
    #[verifier::when_used_as_spec(spec_kind)]
    pub fn kind(&self) -> (kind: ResourceKind)
        ensures
            kind == self.spec_kind(),
    {
        match self {
            Blueprint::Registry => ResourceKind::Registry,
            Blueprint::MediaEngine { .. } => ResourceKind::MediaEngine,
            Blueprint::Api { .. } => ResourceKind::Api,
            Blueprint::PeerConnection { .. } => ResourceKind::PeerConnection,
        }
    }

    pub open spec fn spec_parent(&self) -> Option<(Handle, ResourceKind)> {
        match self {
            Blueprint::Registry => None,
            Blueprint::MediaEngine { registry, .. } => Some((*registry, ResourceKind::Registry)),
            Blueprint::Api { media_engine, .. } => Some((*media_engine, ResourceKind::MediaEngine)),
            Blueprint::PeerConnection { api, .. } => Some((*api, ResourceKind::Api)),
        }
    }

    /// The handle of the resource that the new one is built on, and the kind
    /// that resource must have.
    #[verifier::when_used_as_spec(spec_parent)]
    pub fn parent(&self) -> (parent: Option<(Handle, ResourceKind)>)
        ensures
            parent == self.spec_parent(),
    {
        match self {
            Blueprint::Registry => None,
            Blueprint::MediaEngine { registry, .. } => Some((*registry, ResourceKind::Registry)),
            Blueprint::Api { media_engine, .. } => Some((*media_engine, ResourceKind::MediaEngine)),
            Blueprint::PeerConnection { api, .. } => Some((*api, ResourceKind::Api)),
        }
    }

    pub open spec fn spec_settings(&self) -> Option<Handle> {
        match self {
            Blueprint::Registry => None,
            Blueprint::MediaEngine { settings, .. } => *settings,
            Blueprint::Api { settings, .. } => *settings,
            Blueprint::PeerConnection { settings, .. } => *settings,
        }
    }

    /// The handle of the configuration to build with; `None` asks for the
    /// engine's defaults.
    #[verifier::when_used_as_spec(spec_settings)]
    pub fn settings(&self) -> (settings: Option<Handle>)
        ensures
            settings == self.spec_settings(),
    {
        match self {
            Blueprint::Registry => None,
            Blueprint::MediaEngine { settings, .. } => *settings,
            Blueprint::Api { settings, .. } => *settings,
            Blueprint::PeerConnection { settings, .. } => *settings,
        }
    }

    /// The native object `native`, tagged with this blueprint's kind.
    pub open spec fn spec_tagged<R>(&self, native: R) -> Resource<R> {
        match self {
            Blueprint::Registry => Resource::Registry(native),
            Blueprint::MediaEngine { .. } => Resource::MediaEngine(native),
            Blueprint::Api { .. } => Resource::Api(native),
            Blueprint::PeerConnection { .. } => Resource::PeerConnection(native),
        }
    }

    /// Tags a freshly built native object with this blueprint's kind.
    pub fn tagged<R>(&self, native: R) -> (resource: Resource<R>)
        ensures
            resource == self.spec_tagged(native),
    {
        match self {
            Blueprint::Registry => Resource::Registry(native),
            Blueprint::MediaEngine { .. } => Resource::MediaEngine(native),
            Blueprint::Api { .. } => Resource::Api(native),
            Blueprint::PeerConnection { .. } => Resource::PeerConnection(native),
        }
    }
}

/// What the engine is handed to build from.
pub struct Inputs<'a, R> {
    /// The native object the new resource is built on.
    pub parent: Option<&'a R>,
    /// The configuration to build with.
    pub settings: Option<&'a Configuration>,
}

/// The registry state as mathematical values: the raw value of the next
/// handle, and the live resources by handle.
#[verifier::ext_equal]
pub struct Snapshot<R> {
    pub upcoming: u64,
    pub entries: Map<Handle, Resource<R>>,
}

impl<R> Snapshot<R> {
    /// The state before anything was registered.
    pub open spec fn empty() -> Snapshot<R> {
        Snapshot { upcoming: FIRST_HANDLE, entries: Map::empty() }
    }

    /// `handle` is one of the handles issued so far.
    pub open spec fn issued(self, handle: Handle) -> bool {
        FIRST_HANDLE <= handle.raw < self.upcoming
    }

    /// Every live handle was issued.
    pub open spec fn wf(self) -> bool {
        &&& self.upcoming >= FIRST_HANDLE
        &&& forall|handle: Handle| #[trigger]
            self.entries.contains_key(handle) ==> self.issued(handle)
    }

    /// No further handle can be issued.
    pub open spec fn exhausted(self) -> bool {
        self.upcoming == u64::MAX
    }

    /// The handle that the next registration returns.
    pub open spec fn next_handle(self) -> Handle {
        Handle { raw: self.upcoming }
    }

    /// `handle` refers to a live resource of kind `kind`.
    pub open spec fn live(self, handle: Handle, kind: ResourceKind) -> bool {
        holds(self.entries, handle, kind)
    }

    /// The resource that `handle` refers to, if it is live and of kind `kind`.
    pub open spec fn lookup(self, handle: Handle, kind: ResourceKind) -> Option<Resource<R>> {
        resource_at(self.entries, handle, kind)
    }

    /// The configuration that `handle` refers to, if it refers to one.
    pub open spec fn get_config(self, handle: Handle) -> Option<Configuration> {
        configuration_at(self.entries, handle)
    }

    /// Everything that is live here is live in `later`, unchanged, and
    /// `later` has issued every handle that was issued here.
    pub open spec fn extended_by(self, later: Snapshot<R>) -> bool {
        &&& self.upcoming <= later.upcoming
        &&& forall|handle: Handle| #[trigger]
            self.entries.contains_key(handle) ==> later.entries.contains_key(handle)
                && later.entries[handle] == self.entries[handle]
    }

    /// The state after `resource` was registered under the next handle.
    pub open spec fn registered(self, resource: Resource<R>) -> Snapshot<R> {
        Snapshot {
            upcoming: (self.upcoming + 1) as u64,
            entries: self.entries.insert(self.next_handle(), resource),
        }
    }

    /// What registering `resource` returns and leaves behind: the next handle
    /// and the extended state, or an internal fault and the same state when
    /// every handle has been issued.
    pub open spec fn enrolled(self, resource: Resource<R>) -> (Result<Handle, RegistryError>, Snapshot<R>) {
        if self.exhausted() {
            (Err(RegistryError::Internal(InternalFault::HandleSpaceExhausted)), self)
        } else {
            (Ok(self.next_handle()), self.registered(resource))
        }
    }

    /// The resource that `blueprint` builds on is live and of the right kind,
    /// or `blueprint` builds on none.
    pub open spec fn parent_resolves(self, blueprint: Blueprint) -> bool {
        match blueprint.spec_parent() {
            Some((handle, kind)) => self.live(handle, kind),
            None => true,
        }
    }

    /// The settings of `blueprint` refer to a live configuration, or
    /// `blueprint` names none.
    pub open spec fn settings_resolve(self, blueprint: Blueprint) -> bool {
        match blueprint.spec_settings() {
            Some(handle) => self.live(handle, ResourceKind::Configuration),
            None => true,
        }
    }

    /// The first dependency of `blueprint` that cannot be resolved, as the
    /// error that reports it: the resource to build on before the settings.
    pub open spec fn missing(self, blueprint: Blueprint) -> Option<RegistryError> {
        if !self.parent_resolves(blueprint) {
            match blueprint.spec_parent() {
                Some((handle, kind)) => Some(RegistryError::DependencyNotFound { handle, kind }),
                None => None,
            }
        } else if !self.settings_resolve(blueprint) {
            match blueprint.spec_settings() {
                Some(handle) => Some(
                    RegistryError::DependencyNotFound { handle, kind: ResourceKind::Configuration },
                ),
                None => None,
            }
        } else {
            None
        }
    }

    /// The native object that `blueprint` builds on.
    pub open spec fn parent_of(self, blueprint: Blueprint) -> Option<R> {
        match blueprint.spec_parent() {
            Some((handle, _)) => self.entries[handle].spec_native(),
            None => None,
        }
    }

    /// The configuration that `blueprint` builds with.
    pub open spec fn settings_of(self, blueprint: Blueprint) -> Option<Configuration> {
        match blueprint.spec_settings() {
            Some(handle) => self.entries[handle].spec_configuration(),
            None => None,
        }
    }

    /// `parent` and `settings` are what the engine is handed for `blueprint`:
    /// references to what the handles of `blueprint` refer to.
    pub open spec fn feeds(
        self,
        blueprint: Blueprint,
        parent: Option<&R>,
        settings: Option<&Configuration>,
    ) -> bool {
        &&& self.missing(blueprint) is None
        &&& referent(parent) == self.parent_of(blueprint)
        &&& referent(settings) == self.settings_of(blueprint)
    }

    /// The engine `build` can be called on whatever it is handed for
    /// `blueprint`.
    pub open spec fn can_build<F>(self, blueprint: Blueprint, build: F) -> bool where
        F: FnOnce(Option<&R>, Option<&Configuration>) -> Result<R, EngineFailure>,
     {
        forall|parent: Option<&R>, settings: Option<&Configuration>| #[trigger]
            self.feeds(blueprint, parent, settings) ==> call_requires(build, (parent, settings))
    }

    /// What a construction returns and leaves behind once the engine has
    /// answered with `outcome`.
    ///
    /// An unresolved dependency is reported first. Otherwise an engine failure
    /// is passed on, and a built object is registered under the next handle;
    /// every failure leaves the state as it was.
    pub open spec fn concluded(self, blueprint: Blueprint, outcome: Result<R, EngineFailure>) -> (
        Result<Handle, RegistryError>,
        Snapshot<R>,
    ) {
        match self.missing(blueprint) {
            Some(error) => (Err(error), self),
            None => match outcome {
                Err(failure) => (Err(RegistryError::Engine(failure)), self),
                Ok(native) => self.enrolled(blueprint.spec_tagged(native)),
            },
        }
    }

    /// `result` and `after` are what building `blueprint` with the engine
    /// `build` can return and leave behind.
    ///
    /// With an unresolved dependency they are its report and this state.
    /// Otherwise the engine was handed what the dependencies refer to, and
    /// they follow from one of its possible answers as
    /// [`Snapshot::concluded`] says.
    pub open spec fn built<F>(
        self,
        blueprint: Blueprint,
        build: F,
        result: Result<Handle, RegistryError>,
        after: Snapshot<R>,
    ) -> bool where F: FnOnce(Option<&R>, Option<&Configuration>) -> Result<R, EngineFailure> {
        match self.missing(blueprint) {
            Some(error) => result == Err::<Handle, RegistryError>(error) && after == self,
            None => exists|
                parent: Option<&R>,
                settings: Option<&Configuration>,
                outcome: Result<R, EngineFailure>,
            |
                {
                    &&& self.feeds(blueprint, parent, settings)
                    &&& #[trigger] call_ensures(build, (parent, settings), outcome)
                    &&& result == self.concluded(blueprint, outcome).0
                    &&& after == self.concluded(blueprint, outcome).1
                },
        }
    }
}

/// The registry: a handle allocator and the table of live resources.
pub struct State<R> {
    allocator: HandleAllocator,
    table: ResourceTable<R>,
}

impl<R> View for State<R> {
    type V = Snapshot<R>;

    closed spec fn view(&self) -> Snapshot<R> {
        Snapshot { upcoming: self.allocator.upcoming(), entries: self.table@ }
    }
}

impl<R> State<R> {
    /// The invariant of the registry: every live handle was issued by the
    /// allocator.
    #[verifier::type_invariant]
    pub open spec fn wf(&self) -> bool {
        self@.wf()
    }

    /// An empty registry whose first handle is [`FIRST_HANDLE`].
    pub fn init() -> (state: State<R>)
        ensures
            state.wf(),
            state@ == Snapshot::<R>::empty(),
    {
        let state = State { allocator: HandleAllocator::new(), table: ResourceTable::new() };
        assert(state@ =~= Snapshot::<R>::empty());
        state
    }

    /// An empty registry that issues its handles from `allocator`.
    pub fn with_allocator(allocator: HandleAllocator) -> (state: State<R>)
        ensures
            state.wf(),
            state@ == (Snapshot::<R> { upcoming: allocator.upcoming(), entries: Map::empty() }),
    {
        proof {
            use_type_invariant(&allocator);
        }
        let state = State { allocator, table: ResourceTable::new() };
        assert(state@ =~= (Snapshot::<R> { upcoming: allocator.upcoming(), entries: Map::empty() }));
        state
    }

    /// Whether every handle has been issued.
    pub fn is_exhausted(&self) -> (full: bool)
        ensures
            full == self@.exhausted(),
    {
        self.allocator.is_exhausted()
    }

    /// Registers `resource` under the next handle.
    fn register(&mut self, resource: Resource<R>) -> (result: Result<Handle, RegistryError>)
        ensures
            final(self).wf(),
            result == old(self)@.enrolled(resource).0,
            final(self)@ == old(self)@.enrolled(resource).1,
    {
        proof {
            use_type_invariant(&*self);
        }
        let handle = match self.allocator.allocate() {
            Some(handle) => handle,
            None => {
                return Err(RegistryError::Internal(InternalFault::HandleSpaceExhausted));
            },
        };
        let mut table = ResourceTable::new();
        std::mem::swap(&mut table, &mut self.table);
        let inserted = table.insert(handle, resource);
        std::mem::swap(&mut table, &mut self.table);
        assert(!old(self)@.issued(handle));
        match inserted {
            Err(fault) => Err(RegistryError::Internal(fault)),
            Ok(()) => {
                assert(self@ =~= old(self)@.registered(resource));
                Ok(handle)
            },
        }
    }

    /// Whether `handle` refers to a live resource of kind `kind`.
    pub fn resource_exists(&self, handle: Handle, kind: ResourceKind) -> (found: bool)
        ensures
            found == self@.live(handle, kind),
    {
        self.table.contains(handle, kind)
    }

    /// Whether `handle` refers to a live registry.
    pub fn registry_exists(&self, handle: Handle) -> (found: bool)
        ensures
            found == self@.live(handle, ResourceKind::Registry),
    {
        self.table.contains(handle, ResourceKind::Registry)
    }

    /// Whether `handle` refers to a live media engine.
    pub fn media_engine_exists(&self, handle: Handle) -> (found: bool)
        ensures
            found == self@.live(handle, ResourceKind::MediaEngine),
    {
        self.table.contains(handle, ResourceKind::MediaEngine)
    }

    /// The resource that `handle` refers to, if it is live and of kind `kind`.
    pub fn lookup(&self, handle: Handle, kind: ResourceKind) -> (found: Option<&Resource<R>>)
        ensures
            referent(found) == self@.lookup(handle, kind),
    {
        self.table.lookup(handle, kind)
    }

    /// The configuration that `handle` refers to, if it refers to one.
    pub fn get_config(&self, handle: Handle) -> (found: Option<&Configuration>)
        ensures
            referent(found) == self@.get_config(handle),
    {
        self.table.get_config(handle)
    }

    /// Validates `raw` and registers the configuration it describes.
    ///
    /// Settings that fail validation are reported and nothing is registered.
    /// Valid settings are registered under the next handle, unless every
    /// handle has been issued.
    pub fn new_config(&mut self, raw: RawSettings) -> (result: Result<Handle, RegistryError>)
        ensures
            final(self).wf(),
            result is Ok <==> raw@.valid() && !old(self)@.exhausted(),
            result is Err ==> final(self)@ == old(self)@,
            old(self)@.extended_by(final(self)@),
            match result {
                Ok(handle) => {
                    &&& handle == old(self)@.next_handle()
                    &&& exists|configuration: Configuration|
                        configuration@ == raw@ && final(self)@ == #[trigger] old(
                            self,
                        )@.registered(Resource::Configuration(configuration))
                },
                Err(RegistryError::Validation(error)) => raw@.violated_by(error),
                Err(RegistryError::Internal(fault)) => {
                    raw@.valid() && fault == InternalFault::HandleSpaceExhausted
                },
                Err(_) => false,
            },
    {
        proof {
            use_type_invariant(&*self);
        }
        match Configuration::validate(raw) {
            Err(error) => Err(RegistryError::Validation(error)),
            Ok(configuration) => {
                let ghost sealed = configuration;
                let result = self.register(Resource::Configuration(configuration));
                assert(result is Ok ==> self@ == old(self)@.registered(
                    Resource::Configuration(sealed),
                ));
                result
            },
        }
    }

    /// Registers a freshly built registry.
    pub fn new_registry(&mut self, native: R) -> (result: Result<Handle, RegistryError>)
        ensures
            final(self).wf(),
            result == old(self)@.enrolled(Resource::Registry(native)).0,
            final(self)@ == old(self)@.enrolled(Resource::Registry(native)).1,
    {
        self.register(Resource::Registry(native))
    }

    /// Resolves the handles that `blueprint` depends on.
    ///
    /// The first handle that does not refer to a live resource of the kind it
    /// must have is reported: the resource to build on before the settings.
    pub fn prepare(&self, blueprint: &Blueprint) -> (result: Result<Inputs<'_, R>, RegistryError>)
        ensures
            match result {
                Ok(inputs) => self@.feeds(*blueprint, inputs.parent, inputs.settings),
                Err(error) => self@.missing(*blueprint) == Some(error),
            },
    {
        let parent = match blueprint.parent() {
            None => None,
            Some((handle, kind)) => {
                match self.table.lookup(handle, kind) {
                    None => {
                        return Err(RegistryError::DependencyNotFound { handle, kind });
                    },
                    Some(resource) => resource.native(),
                }
            },
        };
        let settings = match blueprint.settings() {
            None => None,
            Some(handle) => {
                match self.table.get_config(handle) {
                    None => {
                        return Err(
                            RegistryError::DependencyNotFound {
                                handle,
                                kind: ResourceKind::Configuration,
                            },
                        );
                    },
                    Some(configuration) => Some(configuration),
                }
            },
        };
        Ok(Inputs { parent, settings })
    }

    /// Finishes a construction with the engine's outcome.
    ///
    /// The dependencies are resolved again, so that nothing is registered on
    /// top of a handle that is not live. A built object is registered under
    /// the next handle; a failure of any kind leaves the registry as it was.
    pub fn complete(&mut self, blueprint: &Blueprint, outcome: Result<R, EngineFailure>) -> (result:
        Result<Handle, RegistryError>)
        ensures
            final(self).wf(),
            result == old(self)@.concluded(*blueprint, outcome).0,
            final(self)@ == old(self)@.concluded(*blueprint, outcome).1,
    {
        proof {
            use_type_invariant(&*self);
        }
        match self.prepare(blueprint) {
            Err(error) => {
                return Err(error);
            },
            Ok(_) => {},
        }
        match outcome {
            Err(failure) => Err(RegistryError::Engine(failure)),
            Ok(native) => self.register(blueprint.tagged(native)),
        }
    }

    /// Builds the resource that `blueprint` describes with the engine `build`
    /// and registers it.
    ///
    /// The engine is called only when every dependency resolves, and it is
    /// handed what the dependencies refer to. Whatever it answers, the result
    /// and the registry afterwards are those of [`State::complete`].
    pub fn construct<F>(&mut self, blueprint: &Blueprint, build: F) -> (result: Result<
        Handle,
        RegistryError,
    >) where F: FnOnce(Option<&R>, Option<&Configuration>) -> Result<R, EngineFailure>
        requires
            old(self)@.can_build(*blueprint, build),
        ensures
            final(self).wf(),
            old(self)@.built(*blueprint, build, result, final(self)@),
    {
        proof {
            use_type_invariant(&*self);
        }
        let outcome = match self.prepare(blueprint) {
            Err(error) => {
                return Err(error);
            },
            Ok(inputs) => build(inputs.parent, inputs.settings),
        };
        self.complete(blueprint, outcome)
    }

    /// Builds a media engine on top of the registry `registry`.
    pub fn new_media_engine<F>(
        &mut self,
        registry: Handle,
        settings: Option<Handle>,
        build: F,
    ) -> (result: Result<Handle, RegistryError>) where
        F: FnOnce(Option<&R>, Option<&Configuration>) -> Result<R, EngineFailure>,

        requires
            old(self)@.can_build(Blueprint::MediaEngine { registry, settings }, build),
        ensures
            final(self).wf(),
            old(self)@.built(Blueprint::MediaEngine { registry, settings }, build, result, final(self)@),
    {
        self.construct(&Blueprint::MediaEngine { registry, settings }, build)
    }

    /// Builds an API instance on top of the media engine `media_engine`.
    pub fn new_api<F>(
        &mut self,
        media_engine: Handle,
        settings: Option<Handle>,
        build: F,
    ) -> (result: Result<Handle, RegistryError>) where
        F: FnOnce(Option<&R>, Option<&Configuration>) -> Result<R, EngineFailure>,

        requires
            old(self)@.can_build(Blueprint::Api { media_engine, settings }, build),
        ensures
            final(self).wf(),
            old(self)@.built(Blueprint::Api { media_engine, settings }, build, result, final(self)@),
    {
        self.construct(&Blueprint::Api { media_engine, settings }, build)
    }

    /// Builds a peer connection on top of the API instance `api`.
    pub fn new_peer_connection<F>(
        &mut self,
        api: Handle,
        settings: Option<Handle>,
        build: F,
    ) -> (result: Result<Handle, RegistryError>) where
        F: FnOnce(Option<&R>, Option<&Configuration>) -> Result<R, EngineFailure>,

        requires
            old(self)@.can_build(Blueprint::PeerConnection { api, settings }, build),
        ensures
            final(self).wf(),
            old(self)@.built(Blueprint::PeerConnection { api, settings }, build, result, final(self)@),
    {
        self.construct(&Blueprint::PeerConnection { api, settings }, build)
    }
}

} // verus!
