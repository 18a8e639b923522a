//! What the environment keys decide.

use unidpp_hub::config::hub_key_error;
use unidpp_hub::Config;

#[test]
fn unset_keys_take_the_defaults() {
    let config = Config::from_env_values(None, None, None);
    assert_eq!(config.bind, "127.0.0.1:8397");
    assert_eq!(config.hub_id, "unidpp-hub-1");
    assert_eq!(config.seed, None);
    assert_eq!(config.keyring_mode(), "seeded-dev");
    assert_eq!(config.key_seed(), "unidpp-hub");
    assert!(config.dev_mode_warning().unwrap().contains("UNIDPP_HUB_SEED"));
}

#[test]
fn blank_settings_keep_the_defaults_and_an_empty_seed_is_no_seed() {
    let config = Config::from_env_values(
        Some("  \t".into()),
        Some("\u{3000}".into()),
        Some("".into()),
    );
    assert_eq!(config.bind, "127.0.0.1:8397");
    assert_eq!(config.hub_id, "unidpp-hub-1");
    assert_eq!(config.seed, None);
}

#[test]
fn set_keys_are_taken_as_given() {
    let config = Config::from_env_values(
        Some(" 0.0.0.0:9000 ".into()),
        Some("hub-7".into()),
        Some(" ".into()),
    );
    assert_eq!(config.bind, " 0.0.0.0:9000 ");
    assert_eq!(config.hub_id, "hub-7");
    assert_eq!(config.seed.as_deref(), Some(" "));
    assert_eq!(config.keyring_mode(), "declared-seed");
    assert_eq!(config.key_seed(), " ");
    assert_eq!(config.dev_mode_warning(), None);
}

#[test]
fn the_env_keys_are_the_deployment_contract() {
    assert_eq!(
        Config::ENV_KEYS,
        ["UNIDPP_HUB_BIND", "UNIDPP_HUB_ID", "UNIDPP_HUB_SEED"]
    );
}

#[test]
fn a_key_failure_is_reported_with_its_detail() {
    assert_eq!(hub_key_error("bad seed"), "hub key: bad seed");
}
