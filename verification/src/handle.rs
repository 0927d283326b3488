//! Handles, resource kinds and the allocator that issues handles.

use vstd::prelude::*;

verus! {

/// The raw value of the first handle that an allocator issues. Zero is never
/// a live handle.
pub const FIRST_HANDLE: u64 = 1;

/// An opaque identifier of one registered resource.
///
/// Two handles denote the same resource exactly when they are equal. The raw
/// value exists so that a handle can cross the host boundary as an integer;
/// nothing about a resource can be read from it.
#[derive(Clone, Copy, Debug, PartialEq, Eq, Structural, Hash)]
pub struct Handle {
    pub raw: u64,
}

impl Handle {
    /// Rebuilds a handle from the integer that the host sent back.
    pub fn from_raw(raw: u64) -> (handle: Handle)
        ensures
            handle.raw == raw,
    {
        Handle { raw }
    }

    /// The integer under which this handle crosses the host boundary.
    pub fn as_raw(&self) -> (raw: u64)
        ensures
            raw == self.raw,
    {
        self.raw
    }
}

/// The closed set of categories a registered resource belongs to.
#[derive(Clone, Copy, Debug, PartialEq, Eq, Structural, Hash)]
pub enum ResourceKind {
    Configuration,
    Registry,
    MediaEngine,
    Api,
    PeerConnection,
}

impl ResourceKind {
    pub open spec fn spec_label(self) -> Seq<char> {
        match self {
            ResourceKind::Configuration => "configuration"@,
            ResourceKind::Registry => "registry"@,
            ResourceKind::MediaEngine => "media_engine"@,
            ResourceKind::Api => "api"@,
            ResourceKind::PeerConnection => "peer_connection"@,
        }
    }

    /// The name under which the host sees this kind.
    pub fn label(self) -> (name: &'static str)
        ensures
            name@ == self.spec_label(),
    {
        match self {
            ResourceKind::Configuration => "configuration",
            ResourceKind::Registry => "registry",
            ResourceKind::MediaEngine => "media_engine",
            ResourceKind::Api => "api",
            ResourceKind::PeerConnection => "peer_connection",
        }
    }

    /// The kind that a resource of this kind is built from, if it has one.
    ///
    /// A peer connection is built from an API instance, an API instance from
    /// a media engine, a media engine from a registry. Registries and
    /// configurations stand alone.
    pub open spec fn spec_dependency(self) -> Option<ResourceKind> {
        match self {
            ResourceKind::Configuration => None,
            ResourceKind::Registry => None,
            ResourceKind::MediaEngine => Some(ResourceKind::Registry),
            ResourceKind::Api => Some(ResourceKind::MediaEngine),
            ResourceKind::PeerConnection => Some(ResourceKind::Api),
        }
    }

    #[verifier::when_used_as_spec(spec_dependency)]
    pub fn dependency(self) -> (parent: Option<ResourceKind>)
        ensures
            parent == self.spec_dependency(),
    {
        match self {
            ResourceKind::Configuration => None,
            ResourceKind::Registry => None,
            ResourceKind::MediaEngine => Some(ResourceKind::Registry),
            ResourceKind::Api => Some(ResourceKind::MediaEngine),
            ResourceKind::PeerConnection => Some(ResourceKind::Api),
        }
    }
}

/// Issues handles whose raw values count up from [`FIRST_HANDLE`].
///
/// A value is issued at most once: the counter only moves forward, and when
/// it reaches `u64::MAX` the allocator reports that it is exhausted instead
/// of wrapping around.
pub struct HandleAllocator {
    next: u64,
}

impl HandleAllocator {
    /// The raw value of the handle that the next successful `allocate` issues.
    pub closed spec fn upcoming(&self) -> u64 {
        self.next
    }

    /// The counter never lies below the first handle.
    #[verifier::type_invariant]
    pub open spec fn wf(&self) -> bool {
        self.upcoming() >= FIRST_HANDLE
    }

    /// No further handle can be issued.
    pub open spec fn exhausted(&self) -> bool {
        self.upcoming() == u64::MAX
    }

    /// `handle` is one of the handles issued so far.
    pub open spec fn has_issued(&self, handle: Handle) -> bool {
        FIRST_HANDLE <= handle.raw < self.upcoming()
    }

    /// An allocator that has issued nothing yet.
    pub fn new() -> (allocator: HandleAllocator)
        ensures
            allocator.upcoming() == FIRST_HANDLE,
    {
        HandleAllocator { next: FIRST_HANDLE }
    }

    /// An allocator whose first handle has the raw value `first`, or
    /// [`FIRST_HANDLE`] where `first` lies below it. It counts as having
    /// issued every handle below its first.
    pub fn starting_at(first: u64) -> (allocator: HandleAllocator)
        ensures
            allocator.upcoming() == if first < FIRST_HANDLE {
                FIRST_HANDLE
            } else {
                first
            },
    {
        if first < FIRST_HANDLE {
            HandleAllocator { next: FIRST_HANDLE }
        } else {
            HandleAllocator { next: first }
        }
    }

    /// Whether the handle space is used up.
    pub fn is_exhausted(&self) -> (full: bool)
        ensures
            full == self.exhausted(),
    {
        self.next == u64::MAX
    }

    /// The raw value that the next issued handle will carry.
    pub fn peek(&self) -> (raw: u64)
        ensures
            raw == self.upcoming(),
            self.wf(),
    {
        proof {
            use_type_invariant(self);
        }
        self.next
    }

    /// Issues the next handle, or `None` once the handle space is used up.
    ///
    /// Handles come out with strictly increasing raw values: the issued handle
    /// was never issued before, and every handle issued earlier stays issued.
    pub fn allocate(&mut self) -> (issued: Option<Handle>)
        ensures
            issued is None <==> old(self).exhausted(),
            issued is None ==> final(self).upcoming() == old(self).upcoming(),
            issued matches Some(handle) ==> {
                &&& handle.raw == old(self).upcoming()
                &&& final(self).upcoming() == old(self).upcoming() + 1
                &&& !old(self).has_issued(handle)
                &&& final(self).has_issued(handle)
                &&& forall|earlier: Handle| #[trigger]
                    old(self).has_issued(earlier) ==> final(self).has_issued(earlier)
            },
        no_unwind
    {
        proof {
            use_type_invariant(&*self);
        }
        if self.next == u64::MAX {
            None
        } else {
            let raw: u64 = self.next;
            self.next = raw + 1;
            Some(Handle { raw })
        }
    }
}

} // verus!
