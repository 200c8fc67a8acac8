//! Endpoint configuration: the four connection/location parameters, their
//! built-in defaults, the override order, and the derived remote cache
//! path.

use vstd::prelude::*;
use vstd::string::*;

verus! {

/// The resolved endpoint: server host, server repository path, remote
/// cache base path, local pull base path, and an optional override that
/// replaces the derived remote cache path entirely.
pub struct Config {
    pub server_host: String,
    pub server_repo_dir: String,
    pub remote_cache_base: String,
    pub local_pull_base: String,
    pub remote_resource_path: Option<String>,
}

/// One layer of overrides: a key left out keeps the value underneath.
pub struct ConfigPartial {
    pub server_host: Option<String>,
    pub server_repo_dir: Option<String>,
    pub remote_cache_base: Option<String>,
    pub local_pull_base: Option<String>,
    pub remote_resource_path: Option<String>,
}

/// The built-in defaults; the local pull base lives under the caller's
/// current directory, which is passed in explicitly.
pub fn default_config(current_dir: &str) -> (r: Config)
    ensures
        r.server_host@ == "ese-rs@192.168.43.177"@,
        r.server_repo_dir@ == "/home/ese-rs/repositories/pennybot"@,
        r.remote_cache_base@ == "/home/ese-rs/bazel_cache"@,
        r.local_pull_base@ == current_dir@ + "/_rbazel_artifacts"@,
        r.remote_resource_path is None,
{
    let base = String::from_str(current_dir);
    Config {
        server_host: String::from_str("ese-rs@192.168.43.177"),
        server_repo_dir: String::from_str("/home/ese-rs/repositories/pennybot"),
        remote_cache_base: String::from_str("/home/ese-rs/bazel_cache"),
        local_pull_base: base.concat("/_rbazel_artifacts"),
        remote_resource_path: None,
    }
}

/// Lays one override layer over a base configuration. The four endpoint
/// keys keep the base value where the layer leaves them out; the optional
/// remote resource path is taken from the layer as it stands.
pub fn apply_partial(base: Config, layer: ConfigPartial) -> (r: Config)
    ensures
        r.server_host == if layer.server_host is Some {
            layer.server_host->0
        } else {
            base.server_host
        },
        r.server_repo_dir == if layer.server_repo_dir is Some {
            layer.server_repo_dir->0
        } else {
            base.server_repo_dir
        },
        r.remote_cache_base == if layer.remote_cache_base is Some {
            layer.remote_cache_base->0
        } else {
            base.remote_cache_base
        },
        r.local_pull_base == if layer.local_pull_base is Some {
            layer.local_pull_base->0
        } else {
            base.local_pull_base
        },
        r.remote_resource_path == layer.remote_resource_path,
{
    let server_host = match layer.server_host {
        Some(v) => v,
        None => base.server_host,
    };
    let server_repo_dir = match layer.server_repo_dir {
        Some(v) => v,
        None => base.server_repo_dir,
    };
    let remote_cache_base = match layer.remote_cache_base {
        Some(v) => v,
        None => base.remote_cache_base,
    };
    let local_pull_base = match layer.local_pull_base {
        Some(v) => v,
        None => base.local_pull_base,
    };
    Config {
        server_host,
        server_repo_dir,
        remote_cache_base,
        local_pull_base,
        remote_resource_path: layer.remote_resource_path,
    }
}

/// The remote cache path a run uses: the explicit override when one is
/// configured, else the cache base with the project subdirectory.
pub open spec fn remote_cache_spec(cfg: Config) -> Seq<char> {
    if cfg.remote_resource_path is Some {
        cfg.remote_resource_path->0@
    } else {
        cfg.remote_cache_base@ + "/pennybot"@
    }
}

/// Derives the remote cache path from the configuration.
pub fn remote_cache_path(cfg: &Config) -> (r: String)
    ensures
        r@ == remote_cache_spec(*cfg),
{
    match &cfg.remote_resource_path {
        Some(v) => v.clone(),
        None => cfg.remote_cache_base.clone().concat("/pennybot"),
    }
}

} // verus!
