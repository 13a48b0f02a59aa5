//! Starting the daemon: its command line, the retries and the handshake.

use thingblock_link::error::Error;
use thingblock_link::service::arduino::daemon::{
    build_init_request, bundled_cli_path, connect_deadline, connect_with_retry, default_config_dir,
    drain_init, endpoint, handshake, invalid_endpoint, resolve_cli_path, spawn_failed, start_with,
    Arg, Attempt, Config, InitMessage, InitStep, CONNECT_RETRY_INTERVAL_MS, CONNECT_TIMEOUT_MS,
};
use thingblock_link::service::arduino::grpc::Instance;

/// The arguments as text, with those that are paths in angle brackets.
fn written(args: &[Arg<&str>]) -> Vec<String> {
    args.iter()
        .map(|arg| match arg {
            Arg::Text(text) => text.clone(),
            Arg::Path(path) => format!("<{path}>"),
        })
        .collect()
}

#[test]
fn a_daemon_without_config_runs_with_its_defaults() {
    let launch = start_with(4711, None).unwrap();
    assert_eq!(written(&launch.args), ["daemon", "--port", "4711", "--daemonize"]);
    assert!(launch.current_dir.is_none());
}

#[test]
fn a_config_sets_the_file_and_the_directory() {
    let config = Config {
        dir: "/cfg",
        file: "/cfg/arduino-cli.yaml",
        display: "/cfg/arduino-cli.yaml".to_string(),
        is_file: true,
    };
    let launch = start_with(1, Some(config)).unwrap();
    assert_eq!(
        written(&launch.args),
        [
            "daemon",
            "--port",
            "1",
            "--daemonize",
            "--config-file",
            "</cfg/arduino-cli.yaml>"
        ]
    );
    assert_eq!(launch.current_dir, Some("/cfg"));
}

#[test]
fn a_missing_config_file_is_refused_by_name() {
    let config = Config {
        dir: "/no-such-config-dir",
        file: "/no-such-config-dir/arduino-cli.yaml",
        display: "/no-such-config-dir/arduino-cli.yaml".to_string(),
        is_file: false,
    };
    let err = start_with(1, Some(config)).err().expect("a missing arduino-cli.yaml should fail startup");
    assert!(matches!(err, Error::Daemon(_)));
    assert_eq!(
        err.message(),
        "daemon: config file not found: /no-such-config-dir/arduino-cli.yaml"
    );
}

#[test]
fn the_bundled_cli_depends_on_the_platform() {
    let root = "arduino-cli-binaries";
    assert_eq!(bundled_cli_path(true, false, false), [root, "arduino-cli_win_64bit", "arduino-cli.exe"]);
    assert_eq!(bundled_cli_path(false, true, true), [root, "arduino-cli_mac_arm64", "arduino-cli"]);
    assert_eq!(bundled_cli_path(false, false, true), [root, "arduino-cli_linux_arm64", "arduino-cli"]);
    assert_eq!(bundled_cli_path(false, false, false), [root, "arduino-cli_linux_64bit", "arduino-cli"]);
    assert_eq!(resolve_cli_path(Some("/opt/cli".to_string()), "b".to_string()), "/opt/cli");
    assert_eq!(resolve_cli_path(None, "b".to_string()), "b");
    assert_eq!(default_config_dir("/src"), "/src");
}

#[test]
fn a_failure_is_final_only_at_the_deadline() {
    let deadline = connect_deadline(1000);
    assert_eq!(deadline, 1000 + CONNECT_TIMEOUT_MS);
    assert_eq!(CONNECT_TIMEOUT_MS, 5000);
    assert_eq!(CONNECT_RETRY_INTERVAL_MS, 100);
    let refused = || Err::<u8, String>("refused".to_string());
    assert!(matches!(connect_with_retry(80, refused(), 1000, deadline), Attempt::Retry));
    assert!(matches!(connect_with_retry(80, refused(), 5999, deadline), Attempt::Retry));
    match connect_with_retry(80, refused(), 6000, deadline) {
        Attempt::GiveUp(e) => {
            assert_eq!(e.message(), "daemon: daemon not reachable on port 80: refused")
        }
        _ => panic!("the deadline has passed"),
    }
    assert!(matches!(connect_with_retry(80, Ok(3u8), 9000, deadline), Attempt::Connected(3)));
}

#[test]
fn the_errors_of_a_start_say_what_failed() {
    assert_eq!(spawn_failed("/opt/cli", "denied").message(), "daemon: spawn /opt/cli: denied");
    assert_eq!(invalid_endpoint("bad uri").message(), "daemon: invalid daemon endpoint: bad uri");
    assert_eq!(endpoint(65535), "http://127.0.0.1:65535");
    assert_eq!(
        handshake(None).unwrap_err().message(),
        "daemon: Create returned no instance"
    );
    assert_eq!(handshake(Some(Instance { id: 3 })).unwrap().id, 3);
}

#[test]
fn init_complaints_are_only_logged() {
    let req = build_init_request(Instance { id: 3 });
    assert_eq!(req.instance, Some(Instance { id: 3 }));
    assert_eq!(req.profile, "");
    assert_eq!(req.sketch_path, "");
    let complaint = InitMessage::Error { code: 5, message: "no index".to_string() };
    match drain_init(Ok(Some(complaint))) {
        InitStep::Warn { code, message } => {
            assert_eq!(code, 5);
            assert_eq!(message, "no index");
        }
        _ => panic!("a complaint is logged"),
    }
    for skipped in [InitMessage::InitProgress, InitMessage::Profile, InitMessage::Empty] {
        assert!(matches!(drain_init(Ok(Some(skipped))), InitStep::Skip));
    }
    assert!(matches!(drain_init(Ok(None)), InitStep::Done));
    match drain_init(Err(Error::Grpc("broken".to_string()))) {
        InitStep::Failed(e) => assert_eq!(e.message(), "grpc: broken"),
        _ => panic!("a broken stream fails"),
    }
}
