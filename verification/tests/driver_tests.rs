use rbazel::config::Config;
use rbazel::driver::{need, Action, Driver, Event, Phase};

fn test_config() -> Config {
    Config {
        server_host: "build@server".to_string(),
        server_repo_dir: "/srv/repo".to_string(),
        remote_cache_base: "/srv/cache".to_string(),
        local_pull_base: "/pull".to_string(),
        remote_resource_path: None,
    }
}

fn cli(args: &[&str]) -> Vec<String> {
    args.iter().map(|s| s.to_string()).collect()
}

fn capture(text: &str) -> Event {
    Event::Capture { ok: true, text: text.to_string() }
}

fn status_ok() -> Event {
    Event::Status { ran: true, passed: true, text: String::new() }
}

fn done_ok() -> Event {
    Event::Done { ok: true, text: String::new() }
}

/// Drives a fresh run up to the point where the staging directory was
/// created and the session is about to be opened; returns the machine.
fn drive_to_session(args: Vec<String>) -> Driver {
    let (mut d, first) = Driver::new(test_config(), args).expect("usage");
    assert!(matches!(first, Action::ProbeTool { .. }));
    for _ in 0..3 {
        let a = d.step(Event::Probe { present: true });
        assert!(matches!(a, Action::ProbeTool { .. }));
    }
    let a = d.step(Event::Probe { present: true });
    assert!(matches!(a, Action::RunCapture { .. }));
    let a = d.step(capture("/work/repo\n"));
    match a {
        Action::ChangeDir { path } => assert_eq!(path, "/work/repo"),
        _ => panic!("expected a directory change"),
    }
    let a = d.step(done_ok());
    assert!(matches!(a, Action::RunStatus { .. }));
    let a = d.step(status_ok());
    assert!(matches!(a, Action::RunStatus { .. }));
    let a = d.step(status_ok());
    assert!(matches!(a, Action::RunCapture { .. }));
    let a = d.step(capture("deadbeef\n"));
    assert!(matches!(a, Action::RunCapture { .. }));
    let a = d.step(capture("main\n"));
    match &a {
        Action::RunCapture { cmd, args } => {
            assert_eq!(cmd, "date");
            assert_eq!(args, &vec!["+%Y%m%d_%H%M%S".to_string()]);
        },
        _ => panic!("expected the timestamp capture"),
    }
    let a = d.step(capture("20240101_010203\n"));
    match a {
        Action::MakeDir { path } => assert_eq!(path, "/pull/main/20240101_010203"),
        _ => panic!("expected the staging directory"),
    }
    d
}

#[test]
fn missing_subcommand_is_a_usage_error() {
    let err = match Driver::new(test_config(), cli(&[])) {
        Err(e) => e,
        Ok(_) => panic!("expected a usage error"),
    };
    assert!(err.starts_with("Usage:"));
    assert!(Driver::new(test_config(), cli(&["bazel"])).is_err());
}

#[test]
fn passthrough_token_is_stripped() {
    let (d, _) = Driver::new(test_config(), cli(&["bazel", "build", "//a"])).expect("usage");
    assert_eq!(d.subcmd, "build");
    assert_eq!(d.targets, vec!["//a".to_string()]);
    assert!(d.opts.is_empty());
}

#[test]
fn missing_tool_aborts_the_run() {
    let (mut d, _) = Driver::new(test_config(), cli(&["build", "//a"])).expect("usage");
    let a = d.step(Event::Probe { present: false });
    match a {
        Action::Abort { message } => assert_eq!(message, "missing command: ssh"),
        _ => panic!("expected an abort"),
    }
    assert!(matches!(d.phase, Phase::Failed { .. }));
}

#[test]
fn need_reports_the_missing_command() {
    assert!(need("git", true).is_ok());
    assert_eq!(need("rsync", false).unwrap_err(), "missing command: rsync");
}

#[test]
fn dirty_tree_aborts_before_any_session() {
    let (mut d, _) = Driver::new(test_config(), cli(&["build", "//a"])).expect("usage");
    for _ in 0..4 {
        d.step(Event::Probe { present: true });
    }
    d.step(capture("/work/repo\n"));
    d.step(done_ok());
    // the working tree reports changes
    let a = d.step(Event::Status { ran: true, passed: false, text: String::new() });
    match a {
        Action::Abort { message } => {
            assert_eq!(message, "dirty working tree. Commit/stash before running server-repo build.")
        },
        _ => panic!("expected an abort"),
    }
    assert!(matches!(d.phase, Phase::Failed { .. }));
}

#[test]
fn dirty_index_aborts_before_any_session() {
    let (mut d, _) = Driver::new(test_config(), cli(&["build", "//a"])).expect("usage");
    for _ in 0..4 {
        d.step(Event::Probe { present: true });
    }
    d.step(capture("/work/repo\n"));
    d.step(done_ok());
    d.step(status_ok());
    // the index reports staged changes
    let a = d.step(Event::Status { ran: true, passed: false, text: String::new() });
    assert!(matches!(a, Action::Abort { .. }));
    assert!(matches!(d.phase, Phase::Failed { .. }));
}

#[test]
fn detached_head_gets_a_synthesized_label() {
    let (mut d, _) = Driver::new(test_config(), cli(&["build"])).expect("usage");
    for _ in 0..4 {
        d.step(Event::Probe { present: true });
    }
    d.step(capture("/work/repo\n"));
    d.step(done_ok());
    d.step(status_ok());
    d.step(status_ok());
    d.step(capture("deadbeef\n"));
    // the symbolic name reads HEAD: the machine asks for the short hash
    let a = d.step(capture("HEAD\n"));
    match &a {
        Action::RunCapture { cmd, args } => {
            assert_eq!(cmd, "git");
            assert_eq!(
                args,
                &vec!["rev-parse".to_string(), "--short".to_string(), "HEAD".to_string()]
            );
        },
        _ => panic!("expected the short-hash capture"),
    }
    d.step(capture("abc1234\n"));
    let a = d.step(capture("20240101_010203\n"));
    match a {
        Action::MakeDir { path } => {
            assert_eq!(path, "/pull/detached-abc1234/20240101_010203")
        },
        _ => panic!("expected the staging directory"),
    }
}

#[test]
fn branch_with_separator_and_space_is_sanitized_in_the_path() {
    let (mut d, _) = Driver::new(test_config(), cli(&["build"])).expect("usage");
    for _ in 0..4 {
        d.step(Event::Probe { present: true });
    }
    d.step(capture("/work/repo\n"));
    d.step(done_ok());
    d.step(status_ok());
    d.step(status_ok());
    d.step(capture("deadbeef\n"));
    d.step(capture("feature/foo bar\n"));
    let a = d.step(capture("20240101_010203\n"));
    match a {
        Action::MakeDir { path } => {
            assert_eq!(path, "/pull/feature__foo__bar/20240101_010203")
        },
        _ => panic!("expected the staging directory"),
    }
}

#[test]
fn empty_session_output_is_a_hard_error() {
    let mut d = drive_to_session(cli(&["build", "//a"]));
    d.step(done_ok());
    let a = d.step(Event::Session {
        started: true,
        passed: true,
        output: Some("   \n".to_string()),
        text: String::new(),
    });
    match a {
        Action::Abort { message } => assert_eq!(message, "remote tarball path is empty"),
        _ => panic!("expected an abort"),
    }
    assert!(matches!(d.phase, Phase::Failed { .. }));
}

#[test]
fn failed_session_is_fatal() {
    let mut d = drive_to_session(cli(&["build", "//a"]));
    d.step(done_ok());
    let a = d.step(Event::Session {
        started: true,
        passed: false,
        output: None,
        text: "remote build failed with status 1".to_string(),
    });
    match a {
        Action::Abort { message } => assert_eq!(message, "remote build failed with status 1"),
        _ => panic!("expected an abort"),
    }
}

#[test]
fn full_success_path_stages_and_cleans_up() {
    let mut d = drive_to_session(cli(&["build", "--config=x", "//a:b"]));
    // staging directory created: the one session opens
    let a = d.step(done_ok());
    match &a {
        Action::OpenSession { host, args, script } => {
            assert_eq!(host, "build@server");
            assert_eq!(
                args,
                &vec![
                    "bash".to_string(),
                    "-s".to_string(),
                    "--".to_string(),
                    "/srv/repo".to_string(),
                    "/srv/cache/pennybot".to_string(),
                    "deadbeef".to_string(),
                    "1".to_string(),
                    "build".to_string(),
                    "'--config=x'".to_string(),
                    "'//a:b'".to_string(),
                ]
            );
            assert!(script.starts_with("set -euo pipefail"));
        },
        _ => panic!("expected the session"),
    }
    let a = d.step(Event::Session {
        started: true,
        passed: true,
        output: Some("/tmp/rbazel_deadbeef_77.tgz\n".to_string()),
        text: String::new(),
    });
    match &a {
        Action::Transfer { cmd, args } => {
            assert_eq!(cmd, "rsync");
            assert_eq!(
                args,
                &vec![
                    "-az".to_string(),
                    "build@server:/tmp/rbazel_deadbeef_77.tgz".to_string(),
                    "/pull/main/20240101_010203/artifacts.tgz".to_string(),
                ]
            );
        },
        _ => panic!("expected the pull"),
    }
    let a = d.step(done_ok());
    match &a {
        Action::Transfer { cmd, args } => {
            assert_eq!(cmd, "tar");
            assert_eq!(
                args,
                &vec![
                    "-xzf".to_string(),
                    "/pull/main/20240101_010203/artifacts.tgz".to_string(),
                    "-C".to_string(),
                    "/pull/main/20240101_010203".to_string(),
                ]
            );
        },
        _ => panic!("expected the extraction"),
    }
    let a = d.step(done_ok());
    match &a {
        Action::CleanupRemote { host, command } => {
            assert_eq!(host, "build@server");
            assert_eq!(command, "rm -f '/tmp/rbazel_deadbeef_77.tgz'");
        },
        _ => panic!("expected the best-effort cleanup"),
    }
    let a = d.step(Event::Acknowledged);
    match a {
        Action::Report { out_dir } => assert_eq!(out_dir, "/pull/main/20240101_010203"),
        _ => panic!("expected the success report"),
    }
    assert!(matches!(d.phase, Phase::Finished { .. }));
}

#[test]
fn run_without_targets_sets_the_flag_to_zero() {
    let mut d = drive_to_session(cli(&["build", "--config=x"]));
    let a = d.step(done_ok());
    match &a {
        Action::OpenSession { args, .. } => {
            assert_eq!(args[6], "0");
            assert_eq!(args[8], "'--config=x'");
            assert_eq!(args[9], "");
        },
        _ => panic!("expected the session"),
    }
}
