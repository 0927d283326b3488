use specter_registry::config::{Configuration, RawSettings};
use specter_registry::error::ConfigError;

fn raw(urls: &[&str], relay_only: bool) -> RawSettings {
    RawSettings { ice_servers: urls.iter().map(|url| url.to_string()).collect(), relay_only }
}

#[test]
fn well_formed_settings_are_sealed_unchanged() {
    let configuration =
        Configuration::validate(raw(&["stun:stun.example.org:3478", "turn:turn.example.org"], false))
            .unwrap();
    assert_eq!(
        configuration.ice_servers(),
        &vec!["stun:stun.example.org:3478".to_string(), "turn:turn.example.org".to_string()]
    );
    assert!(!configuration.relay_only());
}

#[test]
fn settings_without_servers_are_valid() {
    let configuration = Configuration::validate(raw(&[], false)).unwrap();
    assert!(configuration.ice_servers().is_empty());
    assert!(!configuration.relay_only());
}

#[test]
fn malformed_url_is_reported_with_its_index() {
    let result = Configuration::validate(raw(&["stun:a", "stun:b", "nonsense", "stun:c"], false));
    assert_eq!(result, Err(ConfigError::MalformedIceServer { index: 2 }));
}

#[test]
fn the_first_of_several_malformed_urls_is_reported() {
    let result = Configuration::validate(raw(&["stun:a", "", "stun:", "turn:b"], false));
    assert_eq!(result, Err(ConfigError::MalformedIceServer { index: 1 }));
    let result = Configuration::validate(raw(&["stun:host:0"], true));
    assert_eq!(result, Err(ConfigError::MalformedIceServer { index: 0 }));
}

#[test]
fn relay_only_without_relay_server_is_contradictory() {
    let result = Configuration::validate(raw(&["stun:a", "stuns:b:5349"], true));
    assert_eq!(result, Err(ConfigError::RelayWithoutTurnServer));
    let result = Configuration::validate(raw(&[], true));
    assert_eq!(result, Err(ConfigError::RelayWithoutTurnServer));
}

#[test]
fn relay_only_with_a_relay_server_is_valid() {
    let configuration =
        Configuration::validate(raw(&["stun:a", "turns:relay.example.org:5349?transport=tcp"], true))
            .unwrap();
    assert!(configuration.relay_only());
    assert_eq!(configuration.ice_servers().len(), 2);
}

#[test]
fn a_malformed_url_is_reported_before_a_contradiction() {
    let result = Configuration::validate(raw(&["stun:a", "turn:"], true));
    assert_eq!(result, Err(ConfigError::MalformedIceServer { index: 1 }));
}

#[test]
fn validating_twice_gives_equal_configurations() {
    let first = Configuration::validate(raw(&["turn:relay"], true)).unwrap();
    let second = Configuration::validate(raw(&["turn:relay"], true)).unwrap();
    assert_eq!(first, second);
    assert_eq!(first.clone(), first);
}
