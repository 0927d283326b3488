use specter_registry::error::{
    ConfigError, EngineFailure, ErrorCategory, InternalFault, RegistryError,
};
use specter_registry::handle::{Handle, ResourceKind};

#[test]
fn every_failure_has_its_category() {
    assert_eq!(
        RegistryError::Validation(ConfigError::RelayWithoutTurnServer).category(),
        ErrorCategory::Validation
    );
    assert_eq!(
        RegistryError::Validation(ConfigError::MalformedIceServer { index: 3 }).category(),
        ErrorCategory::Validation
    );
    assert_eq!(
        RegistryError::DependencyNotFound {
            handle: Handle::from_raw(9),
            kind: ResourceKind::Registry
        }
        .category(),
        ErrorCategory::DependencyNotFound
    );
    assert_eq!(
        RegistryError::Engine(EngineFailure { detail: "unsupported codec".to_string() }).category(),
        ErrorCategory::Engine
    );
    assert_eq!(
        RegistryError::Internal(InternalFault::DuplicateHandle).category(),
        ErrorCategory::Internal
    );
    assert_eq!(
        RegistryError::Internal(InternalFault::HandleSpaceExhausted).category(),
        ErrorCategory::Internal
    );
}

#[test]
fn categories_have_stable_labels() {
    assert_eq!(ErrorCategory::Validation.label(), "validation_error");
    assert_eq!(ErrorCategory::DependencyNotFound.label(), "dependency_not_found");
    assert_eq!(ErrorCategory::Engine.label(), "engine_error");
    assert_eq!(ErrorCategory::Internal.label(), "internal_error");
}

#[test]
fn only_internal_faults_are_beyond_the_caller() {
    assert!(RegistryError::Validation(ConfigError::RelayWithoutTurnServer).is_recoverable());
    assert!(RegistryError::DependencyNotFound {
        handle: Handle::from_raw(1),
        kind: ResourceKind::Api
    }
    .is_recoverable());
    assert!(RegistryError::Engine(EngineFailure { detail: String::new() }).is_recoverable());
    assert!(!RegistryError::Internal(InternalFault::HandleSpaceExhausted).is_recoverable());
    assert!(!RegistryError::Internal(InternalFault::DuplicateHandle).is_recoverable());
}

#[test]
fn rejections_and_faults_have_stable_labels() {
    assert_eq!(ConfigError::MalformedIceServer { index: 0 }.label(), "malformed_ice_server");
    assert_eq!(ConfigError::MalformedIceServer { index: 9 }.label(), "malformed_ice_server");
    assert_eq!(ConfigError::RelayWithoutTurnServer.label(), "relay_without_turn_server");
    assert_eq!(InternalFault::DuplicateHandle.label(), "duplicate_handle");
    assert_eq!(InternalFault::HandleSpaceExhausted.label(), "handle_space_exhausted");
}

#[test]
fn kinds_have_stable_labels() {
    assert_eq!(ResourceKind::Configuration.label(), "configuration");
    assert_eq!(ResourceKind::Registry.label(), "registry");
    assert_eq!(ResourceKind::MediaEngine.label(), "media_engine");
    assert_eq!(ResourceKind::Api.label(), "api");
    assert_eq!(ResourceKind::PeerConnection.label(), "peer_connection");
}
