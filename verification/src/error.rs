//! What can go wrong, sorted into the categories the host tells apart.

use vstd::prelude::*;
use crate::handle::{Handle, ResourceKind};

verus! {

/// Why raw settings were turned down.
#[derive(Clone, Copy, Debug, PartialEq, Eq, Structural)]
pub enum ConfigError {
    /// The ICE server URL at `index` is malformed; every URL before it is
    /// well formed.
    MalformedIceServer { index: usize },
    /// The settings allow relayed candidates only, yet name no relay server.
    RelayWithoutTurnServer,
}

/// The underlying engine refused to build a resource.
#[derive(Debug, PartialEq, Eq)]
pub struct EngineFailure {
    /// The engine's own account of the refusal, for diagnosis.
    pub detail: String,
}

/// A broken invariant of the registry itself.
#[derive(Clone, Copy, Debug, PartialEq, Eq, Structural)]
pub enum InternalFault {
    /// A handle was about to be registered twice.
    DuplicateHandle,
    /// Every handle has been issued.
    HandleSpaceExhausted,
}

/// The failure of a registry operation.
#[derive(Debug, PartialEq, Eq)]
pub enum RegistryError {
    /// The input settings are malformed or contradict each other.
    Validation(ConfigError),
    /// `handle` does not refer to a live resource of kind `kind`.
    DependencyNotFound { handle: Handle, kind: ResourceKind },
    /// The engine turned the construction down.
    Engine(EngineFailure),
    /// The registry found one of its own invariants broken.
    Internal(InternalFault),
}

/// The four categories of failure.
#[derive(Clone, Copy, Debug, PartialEq, Eq, Structural)]
pub enum ErrorCategory {
    Validation,
    DependencyNotFound,
    Engine,
    Internal,
}

impl ConfigError {
    pub open spec fn spec_label(self) -> Seq<char> {
        match self {
            ConfigError::MalformedIceServer { .. } => "malformed_ice_server"@,
            ConfigError::RelayWithoutTurnServer => "relay_without_turn_server"@,
        }
    }

    /// The name under which the host sees this rejection.
    pub fn label(self) -> (name: &'static str)
        ensures
            name@ == self.spec_label(),
    {
        match self {
            ConfigError::MalformedIceServer { .. } => "malformed_ice_server",
            ConfigError::RelayWithoutTurnServer => "relay_without_turn_server",
        }
    }
}

impl InternalFault {
    pub open spec fn spec_label(self) -> Seq<char> {
        match self {
            InternalFault::DuplicateHandle => "duplicate_handle"@,
            InternalFault::HandleSpaceExhausted => "handle_space_exhausted"@,
        }
    }

    /// The name under which the host sees this fault.
    pub fn label(self) -> (name: &'static str)
        ensures
            name@ == self.spec_label(),
    {
        match self {
            InternalFault::DuplicateHandle => "duplicate_handle",
            InternalFault::HandleSpaceExhausted => "handle_space_exhausted",
        }
    }
}

impl RegistryError {
    pub open spec fn spec_category(&self) -> ErrorCategory {
        match self {
            RegistryError::Validation(_) => ErrorCategory::Validation,
            RegistryError::DependencyNotFound { .. } => ErrorCategory::DependencyNotFound,
            RegistryError::Engine(_) => ErrorCategory::Engine,
            RegistryError::Internal(_) => ErrorCategory::Internal,
        }
    }

    /// The category this failure is reported under.
    #[verifier::when_used_as_spec(spec_category)]
    pub fn category(&self) -> (category: ErrorCategory)
        ensures
            category == self.spec_category(),
    {
        match self {
            RegistryError::Validation(_) => ErrorCategory::Validation,
            RegistryError::DependencyNotFound { .. } => ErrorCategory::DependencyNotFound,
            RegistryError::Engine(_) => ErrorCategory::Engine,
            RegistryError::Internal(_) => ErrorCategory::Internal,
        }
    }

    /// Whether the caller can mend the failure by changing what it sends.
    ///
    /// An internal fault is the only failure that no change of input mends.
    pub fn is_recoverable(&self) -> (recoverable: bool)
        ensures
            recoverable == (self.spec_category() != ErrorCategory::Internal),
    {
        match self {
            RegistryError::Internal(_) => false,
            _ => true,
        }
    }
}

impl ErrorCategory {
    pub open spec fn spec_label(self) -> Seq<char> {
        match self {
            ErrorCategory::Validation => "validation_error"@,
            ErrorCategory::DependencyNotFound => "dependency_not_found"@,
            ErrorCategory::Engine => "engine_error"@,
            ErrorCategory::Internal => "internal_error"@,
        }
    }

    /// The name under which the host sees this category.
    pub fn label(self) -> (name: &'static str)
        ensures
            name@ == self.spec_label(),
    {
        match self {
            ErrorCategory::Validation => "validation_error",
            ErrorCategory::DependencyNotFound => "dependency_not_found",
            ErrorCategory::Engine => "engine_error",
            ErrorCategory::Internal => "internal_error",
        }
    }
}

} // verus!
