//! Platform statuses, the events of an install, and the HTTP answers.

use thingblock_link::error::Error;
use thingblock_link::server::api::{platform_status, to_http};
use thingblock_link::server::protocol::{Percent, PlatformStatus};
use thingblock_link::server::router::usable_adapter;
use thingblock_link::service::arduino::grpc::platform::{
    build_install_request, build_search_request, to_status, to_statuses, translate, translate_download,
    DownloadMessage, InstallMessage, PlatformInstallEvent, PlatformMetadata, PlatformRelease, PlatformSummary,
};
use thingblock_link::service::arduino::grpc::{Events, Instance, Pull, Received};
use thingblock_link::strmap::StrMap;

fn s(text: &str) -> String {
    text.to_string()
}

fn summary(id: &str, releases: &[(&str, &str)], installed: &str, latest: &str) -> PlatformSummary {
    let mut map = StrMap::new();
    for (version, name) in releases {
        map.insert(s(version), PlatformRelease { name: s(name) });
    }
    PlatformSummary {
        metadata: Some(PlatformMetadata { id: s(id) }),
        releases: map,
        installed_version: s(installed),
        latest_version: s(latest),
    }
}

#[test]
fn a_platform_is_called_by_its_latest_release() {
    let status = to_status(summary("arduino:avr", &[("1.8.6", "AVR Boards"), ("1.8.5", "Old")], "1.8.5", "1.8.6"));
    assert_eq!(status.id, "arduino:avr");
    assert_eq!(status.name, "AVR Boards");
    assert!(status.installed);
    assert_eq!(status.installed_version.as_deref(), Some("1.8.5"));
    assert_eq!(status.latest_version.as_deref(), Some("1.8.6"));

    let status = to_status(summary("a:b", &[("1", "Installed")], "1", "2"));
    assert_eq!(status.name, "Installed");
    let status = to_status(summary("a:b", &[("2", "")], "", "2"));
    assert_eq!(status.name, "a:b", "a nameless release leaves the id");
    assert!(!status.installed);
    assert_eq!(status.installed_version, None);
    let status = to_status(summary("a:b", &[], "", ""));
    assert_eq!((status.name.as_str(), status.latest_version), ("a:b", None));

    let mut bare = summary("", &[], "", "");
    bare.metadata = None;
    assert_eq!(to_status(bare).id, "");
    let ids: Vec<String> = to_statuses(vec![summary("x:1", &[], "", ""), summary("y:2", &[], "", "")])
        .into_iter()
        .map(|p| p.id)
        .collect();
    assert_eq!(ids, ["x:1", "y:2"]);
}

fn install(message: InstallMessage, phase: &mut String) -> Option<Result<PlatformInstallEvent, Error>> {
    translate(Some(message), phase)
}

fn download(message: DownloadMessage, phase: &mut String) -> Option<Result<PlatformInstallEvent, Error>> {
    install(InstallMessage::Progress(Some(message)), phase)
}

#[test]
fn updates_carry_the_label_of_their_start() {
    let mut phase = String::new();
    match download(DownloadMessage::Start { label: s("esp32 core") }, &mut phase) {
        Some(Ok(PlatformInstallEvent::Progress { phase, percent })) => {
            assert_eq!(phase, "esp32 core");
            assert_eq!(percent, Percent::Reported { bits: 0f32.to_bits() });
        }
        other => panic!("unexpected: {other:?}"),
    }
    match download(DownloadMessage::Update { downloaded: 25, total_size: 100 }, &mut phase) {
        Some(Ok(PlatformInstallEvent::Progress { phase, percent })) => {
            assert_eq!(phase, "esp32 core");
            assert_eq!(percent, Percent::Downloaded { bytes: 25, of: 100 });
        }
        other => panic!("unexpected: {other:?}"),
    }
    assert!(download(DownloadMessage::Update { downloaded: 25, total_size: 0 }, &mut phase).is_none());
    assert!(download(DownloadMessage::Update { downloaded: 25, total_size: -1 }, &mut phase).is_none());
    match download(DownloadMessage::End { success: false, message: s("") }, &mut phase) {
        Some(Err(e)) => assert_eq!(e.message(), "daemon: download of esp32 core failed"),
        other => panic!("unexpected: {other:?}"),
    }
    match download(DownloadMessage::End { success: false, message: s("404") }, &mut phase) {
        Some(Err(e)) => assert_eq!(e.message(), "daemon: 404"),
        other => panic!("unexpected: {other:?}"),
    }
    match download(DownloadMessage::End { success: true, message: s("ok") }, &mut phase) {
        Some(Ok(PlatformInstallEvent::Log(chunk))) => assert_eq!(chunk, "ok\n"),
        other => panic!("unexpected: {other:?}"),
    }
    assert!(download(DownloadMessage::End { success: true, message: s("") }, &mut phase).is_none());
    assert_eq!(phase, "esp32 core");
}

#[test]
fn a_label_lasts_until_the_next_start() {
    let mut phase = String::new();
    let update = |phase: &mut String| {
        match translate_download(DownloadMessage::Update { downloaded: 3, total_size: 4 }, phase) {
            Some(Ok(PlatformInstallEvent::Progress { phase, percent })) => {
                assert_eq!(percent, Percent::Downloaded { bytes: 3, of: 4 });
                phase
            }
            other => panic!("unexpected: {other:?}"),
        }
    };
    translate_download(DownloadMessage::Start { label: s("first") }, &mut phase);
    translate_download(DownloadMessage::End { success: true, message: s("") }, &mut phase);
    translate_download(DownloadMessage::Update { downloaded: 1, total_size: 0 }, &mut phase);
    assert_eq!(update(&mut phase), "first");
    translate_download(DownloadMessage::Start { label: s("second") }, &mut phase);
    assert_eq!(update(&mut phase), "second");
}

#[test]
fn tasks_report_progress_and_the_result_ends() {
    let mut phase = s("kept");
    let percent = Percent::Reported { bits: 1 };
    for (name, expected) in [("Installing", "Installing"), ("", "unpacking")] {
        let message = InstallMessage::TaskProgress { name: s(name), message: s("unpacking"), percent };
        match install(message, &mut phase) {
            Some(Ok(PlatformInstallEvent::Progress { phase, percent: p })) => {
                assert_eq!(phase, expected);
                assert_eq!(p, percent);
            }
            other => panic!("unexpected: {other:?}"),
        }
    }
    assert!(matches!(install(InstallMessage::Result, &mut phase), Some(Ok(PlatformInstallEvent::Done))));
    assert!(install(InstallMessage::Progress(None), &mut phase).is_none());
    assert!(translate(None, &mut phase).is_none());
    assert_eq!(phase, "kept");
}

#[test]
fn requests_name_what_is_asked_for() {
    let req = build_search_request(Instance { id: 2 }, "avr");
    assert_eq!(req.instance, Some(Instance { id: 2 }));
    assert_eq!(req.search_args, "avr");
    assert!(!req.manually_installed);
    let req = build_install_request(Instance { id: 2 }, "esp32", "c3", "");
    assert_eq!(req.platform_package, "esp32");
    assert_eq!(req.architecture, "c3");
    assert_eq!(req.version, "");
    assert!(!req.skip_post_install && !req.no_overwrite && !req.skip_pre_uninstall);
}

fn status(id: &str, name: &str) -> PlatformStatus {
    PlatformStatus {
        id: s(id),
        name: s(name),
        installed: true,
        installed_version: None,
        latest_version: None,
    }
}

#[test]
fn a_platform_is_looked_up_by_its_exact_id() {
    let all = || vec![status("arduino:avr2", "other"), status("arduino:avr", "AVR"), status("arduino:avr", "twin")];
    assert_eq!(platform_status(all(), "arduino:avr").ok().unwrap().name, "AVR");
    let e = platform_status(all(), "nope:nope").err().unwrap();
    assert_eq!(e.status, 404);
    assert_eq!(e.code, "invalidRequest");
    assert_eq!(e.message, "unknown platform: nope:nope");
}

#[test]
fn a_failed_search_is_the_daemons_fault() {
    let e = to_http(Error::Grpc(s("down")));
    assert_eq!((e.status, e.code.as_str(), e.message.as_str()), (502, "grpc", "grpc: down"));
    assert_eq!(to_http(Error::Cancelled).status, 502);
    assert_eq!(to_http(Error::InvalidRequest(s("x"))).status, 400);
}

#[test]
fn an_error_ends_the_event_stream() {
    let mut events = Events::new();
    assert!(matches!(events.pull::<u8>(Received::Message(None)), Pull::Again));
    assert!(matches!(events.pull(Received::Message(Some(Ok(5u8)))), Pull::Yield(Ok(5))));
    assert!(!events.is_done());
    assert!(matches!(
        events.pull::<u8>(Received::Failed(Error::Grpc(s("x")))),
        Pull::Yield(Err(Error::Grpc(_)))
    ));
    assert!(events.is_done());
    assert!(matches!(events.pull(Received::Message(Some(Ok(6u8)))), Pull::End));

    let mut events = Events::new();
    assert!(matches!(
        events.pull::<u8>(Received::Message(Some(Err(Error::Daemon(s("x")))))),
        Pull::Yield(Err(_))
    ));
    assert!(matches!(events.pull(Received::Message(Some(Ok(6u8)))), Pull::End));
}

#[test]
fn a_closed_event_stream_has_ended() {
    let mut events = Events::new();
    assert!(matches!(events.pull(Received::Message(Some(Ok(5u8)))), Pull::Yield(Ok(5))));
    assert!(matches!(events.pull::<u8>(Received::Closed), Pull::End));
    assert!(events.is_done());
    assert!(matches!(events.pull(Received::Message(Some(Ok(6u8)))), Pull::End));
    assert!(matches!(events.pull::<u8>(Received::Failed(Error::Grpc(s("x")))), Pull::End));
}

#[test]
fn a_failing_radio_is_no_radio() {
    assert_eq!(usable_adapter(Ok(Some(3u8))), Some(3));
    assert_eq!(usable_adapter::<u8>(Ok(None)), None);
    assert_eq!(usable_adapter::<u8>(Err(Error::Ble(s("x")))), None);
}
