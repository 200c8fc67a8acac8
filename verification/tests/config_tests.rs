use rbazel::config::{apply_partial, default_config, remote_cache_path, Config, ConfigPartial};

fn empty_layer() -> ConfigPartial {
    ConfigPartial {
        server_host: None,
        server_repo_dir: None,
        remote_cache_base: None,
        local_pull_base: None,
        remote_resource_path: None,
    }
}

#[test]
fn defaults_anchor_pull_base_under_current_dir() {
    let cfg = default_config("/work");
    assert_eq!(cfg.server_host, "ese-rs@192.168.43.177");
    assert_eq!(cfg.server_repo_dir, "/home/ese-rs/repositories/pennybot");
    assert_eq!(cfg.remote_cache_base, "/home/ese-rs/bazel_cache");
    assert_eq!(cfg.local_pull_base, "/work/_rbazel_artifacts");
    assert!(cfg.remote_resource_path.is_none());
}

#[test]
fn empty_layer_keeps_base() {
    let cfg = apply_partial(default_config("/work"), empty_layer());
    assert_eq!(cfg.server_host, "ese-rs@192.168.43.177");
    assert_eq!(cfg.local_pull_base, "/work/_rbazel_artifacts");
}

#[test]
fn layer_overrides_named_keys() {
    let layer = ConfigPartial {
        server_host: Some("me@host".to_string()),
        server_repo_dir: None,
        remote_cache_base: Some("/var/cache".to_string()),
        local_pull_base: None,
        remote_resource_path: Some("/override/path".to_string()),
    };
    let cfg = apply_partial(default_config("/work"), layer);
    assert_eq!(cfg.server_host, "me@host");
    assert_eq!(cfg.server_repo_dir, "/home/ese-rs/repositories/pennybot");
    assert_eq!(cfg.remote_cache_base, "/var/cache");
    assert_eq!(cfg.local_pull_base, "/work/_rbazel_artifacts");
    assert_eq!(cfg.remote_resource_path, Some("/override/path".to_string()));
}

#[test]
fn remote_cache_is_derived_from_base() {
    let cfg = Config {
        server_host: "h".to_string(),
        server_repo_dir: "/repo".to_string(),
        remote_cache_base: "/cache".to_string(),
        local_pull_base: "/pull".to_string(),
        remote_resource_path: None,
    };
    assert_eq!(remote_cache_path(&cfg), "/cache/pennybot");
}

#[test]
fn remote_cache_override_replaces_derived_path() {
    let cfg = Config {
        server_host: "h".to_string(),
        server_repo_dir: "/repo".to_string(),
        remote_cache_base: "/cache".to_string(),
        local_pull_base: "/pull".to_string(),
        remote_resource_path: Some("/elsewhere".to_string()),
    };
    assert_eq!(remote_cache_path(&cfg), "/elsewhere");
}
