use rbazel::script::{
    artifact_list_source, cache_flag, common_startup, remote_failure_code, remote_outcome,
    remote_script, ListSource, RemoteOutcome,
};

#[test]
fn script_is_a_strict_shell_procedure() {
    let s = remote_script();
    assert!(s.starts_with("set -euo pipefail"));
    // the two distinct guard exit codes
    assert!(s.contains("exit 3"));
    assert!(s.contains("exit 4"));
    // the sole result line
    assert!(s.trim_end().ends_with("echo \"$TGZ\""));
}

#[test]
fn cache_flag_prefers_the_stable_name() {
    assert_eq!(
        cache_flag("/c", true, true),
        Some("--repository_cache=/c/repo-cache".to_string())
    );
    assert_eq!(
        cache_flag("/c", true, false),
        Some("--repository_cache=/c/repo-cache".to_string())
    );
    assert_eq!(
        cache_flag("/c", false, true),
        Some("--experimental_repository_cache=/c/repo-cache".to_string())
    );
    assert_eq!(cache_flag("/c", false, false), None);
}

#[test]
fn dirty_server_repo_wins_over_everything() {
    let o = remote_outcome(false, true, true, "deadbeef", "42");
    assert!(matches!(o, RemoteOutcome::DirtyServerRepo));
    assert_eq!(remote_failure_code(&o), Some(3));
}

#[test]
fn missing_commit_names_the_hash_and_skips_the_build() {
    let o = remote_outcome(true, false, true, "deadbeef", "42");
    match &o {
        RemoteOutcome::MissingCommit { commit } => assert_eq!(commit, "deadbeef"),
        _ => panic!("expected a missing-commit outcome"),
    }
    assert_eq!(remote_failure_code(&o), Some(4));
    // the build result has no influence when the commit is absent
    let o2 = remote_outcome(true, false, false, "deadbeef", "42");
    assert!(matches!(o2, RemoteOutcome::MissingCommit { .. }));
}

#[test]
fn archive_path_embeds_commit_and_process_id() {
    let o = remote_outcome(true, true, true, "deadbeef", "42");
    match &o {
        RemoteOutcome::Archive { path } => assert_eq!(path, "/tmp/rbazel_deadbeef_42.tgz"),
        _ => panic!("expected an archive outcome"),
    }
    assert_eq!(remote_failure_code(&o), None);
}

#[test]
fn failed_build_is_its_own_outcome() {
    let o = remote_outcome(true, true, false, "deadbeef", "42");
    assert!(matches!(o, RemoteOutcome::BuildFailed));
    assert_eq!(remote_failure_code(&o), None);
}

#[test]
fn common_startup_appends_the_discovered_flag() {
    assert_eq!(
        common_startup("/c", &Some("--repository_cache=/c/repo-cache".to_string())),
        "--output_user_root=/c/bazel-out --repository_cache=/c/repo-cache"
    );
    assert_eq!(common_startup("/c", &None), "--output_user_root=/c/bazel-out ");
}

#[test]
fn artifact_list_falls_back_to_the_output_tree() {
    assert!(matches!(artifact_list_source(true, true), ListSource::TargetQuery));
    assert!(matches!(artifact_list_source(true, false), ListSource::OutputTreeScan));
    assert!(matches!(artifact_list_source(false, false), ListSource::OutputTreeScan));
    assert!(matches!(artifact_list_source(false, true), ListSource::OutputTreeScan));
}
