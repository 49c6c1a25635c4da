use std::collections::BTreeMap;

use xxmapper::config::model::{AppConfig, ControllerConfig, CONFIG_VERSION};
use xxmapper::config::storage::{config_file_in, data_dir, mix_nonce, path_join, temp_file_name};
use xxmapper::controllers::identity::ControllerIdentity;
use xxmapper::mapping::model::{ControllerMapping, Layout};
use xxmapper::state::AppState;

fn sample_entry() -> ControllerConfig {
    ControllerConfig {
        identity: ControllerIdentity {
            vendor_id: "0079".into(),
            product_id: "0006".into(),
            serial: Some("SN123".into()),
            physical_path: None,
            name: "Pad".into(),
        },
        enabled: true,
        virtual_name: "Living Room Xbox".into(),
        layout: Layout::Ps3,
        mapping: ControllerMapping::default(),
    }
}

#[test]
fn default_config_is_current_and_empty() {
    let config = AppConfig::default();
    assert_eq!(config.version, CONFIG_VERSION);
    assert!(config.controllers.is_empty());
}

#[test]
fn migrate_keeps_current_version() {
    let mut config = AppConfig::default();
    config.migrate();
    assert_eq!(config.version, CONFIG_VERSION);
}

#[test]
fn migrate_upgrades_legacy_version_and_keeps_controllers() {
    let mut controllers = BTreeMap::new();
    controllers.insert("0079-0006-SN123".to_string(), sample_entry());
    let mut config = AppConfig {
        version: 0,
        controllers,
    };
    config.migrate();
    assert_eq!(config.version, 1);
    assert_eq!(config.controllers.len(), 1);
    assert_eq!(
        config.controllers["0079-0006-SN123"].virtual_name,
        "Living Room Xbox"
    );
}

#[test]
fn migrate_normalises_future_versions() {
    let mut config = AppConfig {
        version: 7,
        controllers: BTreeMap::new(),
    };
    config.migrate();
    assert_eq!(config.version, CONFIG_VERSION);
}

#[test]
fn data_dir_prefers_xdg_over_home() {
    assert_eq!(
        data_dir(Some("/tmp/xdg"), Some("/home/u")).unwrap(),
        "/tmp/xdg/XXMapper"
    );
    assert_eq!(
        data_dir(None, Some("/home/u")).unwrap(),
        "/home/u/.local/share/XXMapper"
    );
    assert_eq!(data_dir(None, None), None);
}

#[test]
fn path_join_inserts_one_separator() {
    assert_eq!(path_join("/a/b", "c"), "/a/b/c");
    assert_eq!(path_join("/a/b/", "c"), "/a/b/c");
    assert_eq!(path_join("", "c"), "c");
    assert_eq!(config_file_in("/data/XXMapper"), "/data/XXMapper/config.json");
}

#[test]
fn temp_file_names_are_hidden_and_numbered() {
    assert_eq!(temp_file_name("config.json", 0), ".config.json.tmp0");
    assert_eq!(temp_file_name("config.json", 1234), ".config.json.tmp1234");
    assert!(temp_file_name("config.json", 9).contains(".tmp"));
}

#[test]
fn nonce_mixes_counter_pid_and_clock() {
    assert_eq!(mix_nonce(0, 0, 5), 5);
    assert_eq!(mix_nonce(1, 0, 0), 1u64 << 48);
    assert_eq!(mix_nonce(0, 1, 0), 1u64 << 24);
    assert_eq!(mix_nonce(1, 1, 1), (1u64 << 48) ^ (1u64 << 24) ^ 1);
    // Bits shifted past the top are dropped.
    assert_eq!(mix_nonce(1u64 << 20, 0, 0), 0);
}

#[test]
fn app_state_reports_its_directory() {
    let state = AppState::new("/home/u/.local/share/XXMapper".to_string());
    assert_eq!(state.config_dir(), "/home/u/.local/share/XXMapper");
}

#[test]
fn path_join_follows_path_semantics() {
    assert_eq!(path_join("/a/b", "/etc/x"), "/etc/x");
    assert_eq!(path_join("/a/b", ""), "/a/b/");
    assert_eq!(path_join("", ""), "");
    assert_eq!(path_join("/a/", ""), "/a/");
}
