use komodo_core::entities::alert::SeverityLevel;
use komodo_core::entities::server::{
    default_address, default_auto_prune, default_enabled, default_send_alerts,
    default_stats_monitoring, default_timeout_seconds, RequestHeader, ServerActionState,
    ServerConfig, ServerHealth, ServerHealthState, ServerState,
};

#[test]
fn defaults_have_their_documented_values() {
    assert_eq!(default_address(), "https://periphery:8120");
    assert!(!default_enabled());
    assert_eq!(default_timeout_seconds(), 3);
    assert!(default_stats_monitoring());
    assert!(default_auto_prune());
    assert!(default_send_alerts());
}

#[test]
fn default_config_is_disabled_with_alerts_on() {
    let config = ServerConfig::default();
    assert_eq!(config.address, "https://periphery:8120");
    assert_eq!(config.access_client_id, "");
    assert_eq!(config.access_client_secret, "");
    assert_eq!(config.external_address, "");
    assert_eq!(config.region, "");
    assert!(!config.enabled);
    assert_eq!(config.timeout_seconds, 3);
    assert_eq!(config.passkey, "");
    assert!(config.request_headers.is_empty());
    assert!(config.ignore_mounts.is_empty());
    assert!(config.stats_monitoring);
    assert!(config.auto_prune);
    assert!(config.links.is_empty());
    assert!(config.send_unreachable_alerts);
    assert!(config.send_cpu_alerts);
    assert!(config.send_mem_alerts);
    assert!(config.send_disk_alerts);
    assert!(config.send_version_mismatch_alerts);
}

#[test]
fn builder_without_settings_builds_the_default() {
    let built = ServerConfig::builder().build().unwrap();
    let default = ServerConfig::default();
    assert_eq!(built.address, default.address);
    assert_eq!(built.enabled, default.enabled);
    assert_eq!(built.timeout_seconds, default.timeout_seconds);
    assert_eq!(built.passkey, default.passkey);
    assert_eq!(built.stats_monitoring, default.stats_monitoring);
    assert_eq!(built.auto_prune, default.auto_prune);
    assert_eq!(built.send_cpu_alerts, default.send_cpu_alerts);
    assert!(built.request_headers.is_empty());
}

#[test]
fn builder_keeps_what_was_set() {
    let mut builder = ServerConfig::builder();
    builder
        .address("https://h:8120".to_string())
        .enabled(true)
        .timeout_seconds(5)
        .passkey("own".to_string())
        .region("eu".to_string())
        .ignore_mounts(vec!["/boot".to_string(), "/snap".to_string()])
        .links(vec!["https://example.com".to_string()])
        .request_headers(vec![RequestHeader { name: "X-A".to_string(), value: "1".to_string() }])
        .send_cpu_alerts(false)
        .auto_prune(false);
    let built = builder.build().unwrap();
    assert_eq!(built.address, "https://h:8120");
    assert!(built.enabled);
    assert_eq!(built.timeout_seconds, 5);
    assert_eq!(built.passkey, "own");
    assert_eq!(built.region, "eu");
    assert_eq!(built.ignore_mounts, vec!["/boot", "/snap"]);
    assert_eq!(built.links, vec!["https://example.com"]);
    assert_eq!(built.request_headers.len(), 1);
    assert_eq!(built.request_headers[0].name, "X-A");
    assert_eq!(built.request_headers[0].value, "1");
    assert!(!built.send_cpu_alerts);
    assert!(!built.auto_prune);
    assert!(built.send_mem_alerts);
    assert!(built.stats_monitoring);
    assert_eq!(built.external_address, "");
    let mut again = builder;
    again.enabled(false);
    let rebuilt = again.build().unwrap();
    assert!(!rebuilt.enabled);
    assert_eq!(rebuilt.address, "https://h:8120");
}

#[test]
fn builder_sets_every_field() {
    let mut builder = ServerConfig::builder();
    builder
        .access_client_id("id".to_string())
        .access_client_secret("secret".to_string())
        .external_address("https://public".to_string())
        .stats_monitoring(false)
        .send_unreachable_alerts(false)
        .send_mem_alerts(false)
        .send_disk_alerts(false)
        .send_version_mismatch_alerts(false);
    let built = builder.build().unwrap();
    assert_eq!(built.access_client_id, "id");
    assert_eq!(built.access_client_secret, "secret");
    assert_eq!(built.external_address, "https://public");
    assert!(!built.stats_monitoring);
    assert!(!built.send_unreachable_alerts);
    assert!(!built.send_mem_alerts);
    assert!(!built.send_disk_alerts);
    assert!(!built.send_version_mismatch_alerts);
    assert!(built.send_cpu_alerts);
}

#[test]
fn copy_holds_the_same_settings() {
    let mut config = ServerConfig::default();
    config.enabled = true;
    config.passkey = "own".to_string();
    config.links = vec!["a".to_string(), "b".to_string()];
    config.request_headers = vec![RequestHeader { name: "X".to_string(), value: "y".to_string() }];
    let copy = config.copy();
    assert!(copy.enabled);
    assert_eq!(copy.passkey, "own");
    assert_eq!(copy.links, vec!["a", "b"]);
    assert_eq!(copy.request_headers[0].name, "X");
    assert_eq!(copy.request_headers[0].value, "y");
    assert_eq!(copy.address, config.address);
}

#[test]
fn server_state_is_named_in_kebab_case() {
    assert_eq!(ServerState::Okay.to_string(), "ok");
    assert_eq!(ServerState::NotOk.to_string(), "not-ok");
    assert_eq!(ServerState::Disabled.to_string(), "disabled");
}

#[test]
fn server_state_defaults_to_not_ok() {
    assert_eq!(ServerState::default(), ServerState::NotOk);
    assert!(ServerState::Okay < ServerState::NotOk);
    assert!(ServerState::NotOk < ServerState::Disabled);
}

#[test]
fn health_and_action_state_start_out_clear() {
    let health = ServerHealth::default();
    assert_eq!(health.cpu.level, SeverityLevel::Okay);
    assert!(!health.cpu.should_close_alert);
    assert_eq!(health.mem.level, SeverityLevel::Okay);
    assert!(health.disks.is_empty());
    let state = ServerHealthState::default();
    assert_eq!(state.level, SeverityLevel::default());
    let actions = ServerActionState::default();
    assert!(!actions.pruning_images);
    assert!(!actions.stopping_containers);
    assert!(SeverityLevel::Okay < SeverityLevel::Warning);
    assert!(SeverityLevel::Warning < SeverityLevel::Critical);
}
