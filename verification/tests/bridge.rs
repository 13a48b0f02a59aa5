//! What requests lead to, and what the jobs tell the editor.

use thingblock_link::error::Error;
use thingblock_link::server::protocol::{
    options_or_plain, Artifact, CompileOptions, LibRef, Percent, RequestBody, ResponseBody, ResultPayload,
};
use thingblock_link::server::session::{teardown, InFlight, Session};
use thingblock_link::service::arduino::bridge::{
    bad_platform, boards_listed, cancel_target, collect_lib_dirs, compile_job, compile_stream, dispatch,
    firmware_job, install_job, install_stream, monitor_opened, monitor_pump, register, sketch_name,
    split_platform, unregister, upload_stream, write_sketch, Action, Job, Next, PumpStep, Responder, Step,
    MONITOR_COMMAND_CAPACITY,
};
use thingblock_link::service::arduino::grpc::compile::CompileEvent;
use thingblock_link::service::arduino::grpc::monitor::{MonitorCommand, MonitorEvent};
use thingblock_link::service::arduino::grpc::platform::PlatformInstallEvent;
use thingblock_link::service::arduino::grpc::upload::UploadEvent;

fn s(text: &str) -> String {
    text.to_string()
}

type Conn = Session<u8, u8>;

fn artifact() -> Artifact {
    Artifact { format: s("hex"), path: s("/b/s.ino.hex"), data: None, parts: Vec::new() }
}

fn message(body: ResponseBody) -> (String, String) {
    match body {
        ResponseBody::Error { code, message } => (code, message),
        other => panic!("no error: {other:?}"),
    }
}

#[test]
fn responses_carry_the_request_id() {
    let responder = Responder::new(s("42"));
    assert_eq!(responder.id(), "42");
    let response = responder.send(ResponseBody::Log { chunk: s("x") });
    assert_eq!(response.id, "42");
    assert!(matches!(response.body, ResponseBody::Log { chunk } if chunk == "x"));
    let response = responder.send_error(&Error::Cancelled);
    assert_eq!(response.id, "42");
    assert_eq!(message(response.body), (s("cancelled"), s("cancelled")));
    assert_eq!(MONITOR_COMMAND_CAPACITY, 32);
}

#[test]
fn connect_records_the_port_and_disconnect_forgets_it() {
    let mut session = Conn::new();
    let e = dispatch(&mut session, RequestBody::Connect { port: s("") }).err().unwrap();
    assert_eq!(e.message(), "invalid request: connect requires a non-empty port");
    assert!(session.selected_port.is_none());

    let action = dispatch(&mut session, RequestBody::Connect { port: s("/dev/ttyACM0") });
    assert!(matches!(action, Ok(Action::Reply(ResultPayload::Empty))));
    assert_eq!(session.selected_port.as_deref(), Some("/dev/ttyACM0"));

    session.set_monitor(9);
    let action = dispatch(&mut session, RequestBody::Disconnect {});
    assert!(matches!(action, Ok(Action::CloseMonitor(Some(9)))));
    assert!(session.selected_port.is_none());
    assert!(!session.has_monitor());
}

#[test]
fn a_monitor_opens_once_and_takes_writes_only_while_open() {
    let mut session = Conn::new();
    let e = dispatch(&mut session, RequestBody::MonitorWrite { data: s("x") }).err().unwrap();
    assert_eq!(e.message(), "invalid request: monitorWrite with no monitor open");
    match dispatch(&mut session, RequestBody::MonitorOpen { port: s("p"), baud_rate: 9600 }) {
        Ok(Action::OpenMonitor { port, baud_rate }) => {
            assert_eq!(port, "p");
            assert_eq!(baud_rate, 9600);
        }
        _ => panic!("the monitor opens"),
    }
    session.set_monitor(1);
    let e = dispatch(&mut session, RequestBody::MonitorOpen { port: s("p"), baud_rate: 9600 })
        .err()
        .unwrap();
    assert_eq!(
        e.message(),
        "invalid request: a monitor is already open; close it before opening another"
    );
    match dispatch(&mut session, RequestBody::MonitorWrite { data: s("é\n") }) {
        Ok(Action::CommandMonitor(MonitorCommand::Write(bytes))) => {
            assert_eq!(bytes, [0xc3, 0xa9, 0x0a])
        }
        _ => panic!("the write goes out"),
    }
    assert_eq!(session.monitor_cmd_tx(), Some(&1));
    assert!(matches!(
        dispatch(&mut session, RequestBody::MonitorClose {}),
        Ok(Action::CloseMonitor(Some(1)))
    ));
    assert!(matches!(
        dispatch(&mut session, RequestBody::MonitorClose {}),
        Ok(Action::CloseMonitor(None))
    ));
}

#[test]
fn a_compile_needs_its_libraries_then_scratch_space() {
    let mut session = Conn::new();
    let compile = |options| RequestBody::Compile {
        fqbn: s("f"),
        options,
        source: s("void setup() {}"),
        libs: vec![LibRef { pack: s("p"), lib: s("l") }],
    };
    match dispatch(&mut session, compile(Ok(CompileOptions::default()))) {
        Ok(Action::PrepareCompile { fqbn, source, libs, .. }) => {
            assert_eq!(fqbn, "f");
            assert_eq!(source, "void setup() {}");
            assert_eq!(libs[0].pack, "p");
        }
        _ => panic!("the compile is prepared"),
    }

    let job = |resolved, scratch| compile_job(s("f"), CompileOptions::default(), s("src"), resolved, scratch);
    let bad = |m: &str| Err(Error::Resource(s(m)));
    let e = job(vec![Ok(s("/a")), bad("one"), bad("two")], Err(Error::Io(s("full")))).err().unwrap();
    assert_eq!(e.message(), "resource: one", "the first bad library wins");
    let e = job(vec![Ok(s("/a"))], Err(Error::Io(s("full")))).err().unwrap();
    assert_eq!(e.message(), "full");
    match job(vec![Ok(s("/a")), Ok(s("/b"))], Ok(())) {
        Ok(Job::Compile { fqbn, source, lib_dirs, .. }) => {
            assert_eq!(fqbn, "f");
            assert_eq!(source, "src");
            assert_eq!(lib_dirs, ["/a", "/b"]);
        }
        _ => panic!("the compile starts"),
    }
    assert!(collect_lib_dirs(Vec::new()).unwrap().is_empty());
}

/// Options of an unexpected shape, such as `null`, degrade to a plain compile.
#[test]
fn options_of_an_unexpected_shape_make_a_plain_compile() {
    let body = RequestBody::Compile {
        fqbn: s("arduino:avr:uno"),
        options: Err(s("invalid type: null, expected struct CompileOptions")),
        source: s(""),
        libs: Vec::new(),
    };
    match dispatch(&mut Conn::new(), body) {
        Ok(Action::PrepareCompile { fqbn, options, source, libs }) => {
            assert_eq!(fqbn, "arduino:avr:uno");
            assert_eq!(source, "");
            assert!(libs.is_empty());
            assert!(!options.verbose);
            assert!(options.warnings.is_none());
            assert!(options.libraries.is_empty());
            assert!(options.build_properties.is_empty());
        }
        _ => panic!("the compile is prepared"),
    }
    let decoded = CompileOptions { verbose: true, ..CompileOptions::default() };
    assert!(options_or_plain(Ok(decoded)).verbose);
    assert!(!options_or_plain(Err(s("x"))).verbose);
}

#[test]
fn uploads_and_firmware_become_uploads() {
    let mut session = Conn::new();
    let body = RequestBody::Upload { fqbn: s("f"), port: s("p"), upload_speed: 5, artifact: artifact() };
    match dispatch(&mut session, body) {
        Ok(Action::Start(Job::Upload { fqbn, port, upload_speed, artifact })) => {
            assert_eq!((fqbn.as_str(), port.as_str(), upload_speed), ("f", "p", 5));
            assert_eq!(artifact.path, "/b/s.ino.hex");
        }
        _ => panic!("the upload starts"),
    }
    let body = RequestBody::FlashFirmware {
        fqbn: s("f"),
        port: s("p"),
        upload_speed: 921600,
        pack: s("devices/thingbot"),
        file: s("fw.bin"),
    };
    match dispatch(&mut session, body) {
        Ok(Action::StageFirmware { pack, file, upload_speed, .. }) => {
            assert_eq!((pack.as_str(), file.as_str(), upload_speed), ("devices/thingbot", "fw.bin", 921600))
        }
        _ => panic!("the firmware is staged"),
    }
    match firmware_job(s("f"), s("p"), 921600, Ok(s("/tmp/fw.bin"))) {
        Ok(Job::Upload { artifact, .. }) => {
            assert_eq!(artifact.format, "bin");
            assert_eq!(artifact.path, "/tmp/fw.bin");
            assert!(artifact.data.is_none() && artifact.parts.is_empty());
        }
        _ => panic!("the flash starts"),
    }
    let escaped = Err(Error::Resource(s("firmware p/f escapes the resource root")));
    let e = firmware_job(s("f"), s("p"), 0, escaped).err().unwrap();
    assert_eq!(e.message(), "resource: firmware p/f escapes the resource root");
}

#[test]
fn a_platform_id_names_a_vendor_and_an_architecture() {
    assert_eq!(split_platform("esp32:esp32"), Some((s("esp32"), s("esp32"))));
    assert_eq!(split_platform("a:b:c"), Some((s("a"), s("b:c"))));
    for bad in ["noarch", ":", "a:", ":b", ""] {
        assert_eq!(split_platform(bad), None);
    }
    let mut session = Conn::new();
    let install = |platform: &str, version| RequestBody::InstallPlatform { platform: s(platform), version };
    let e = dispatch(&mut session, install("no\"arch", None)).err().unwrap();
    assert_eq!(e.code(), "invalidRequest");
    assert_eq!(
        e.message(),
        "invalid request: installPlatform requires a `vendor:architecture` platform id, got \"no\\\"arch\""
    );
    assert_eq!(
        bad_platform("\"x\"").message(),
        "invalid request: installPlatform requires a `vendor:architecture` platform id, got \"x\""
    );
    for (asked, expected) in [(None, ""), (Some(s("2.0.1")), "2.0.1")] {
        match dispatch(&mut session, install("esp32:c3", asked)) {
            Ok(Action::LockInstall { package, architecture, version }) => {
                assert_eq!((package.as_str(), architecture.as_str()), ("esp32", "c3"));
                assert_eq!(version, expected);
            }
            _ => panic!("the install goes on"),
        }
    }
}

#[test]
fn a_second_install_is_rejected_as_busy() {
    let e = install_job(false, s("esp32"), s("esp32"), s("")).err().unwrap();
    assert_eq!(e.message(), "invalid request: a platform install is already running");
    assert!(matches!(
        install_job(true, s("esp32"), s("c3"), s("1")),
        Ok(Job::Install { package, architecture, version }) if package == "esp32" && architecture == "c3" && version == "1"
    ));
}

#[test]
fn listing_boards_passes_the_filter_on_and_errors_through() {
    let mut session = Conn::new();
    match dispatch(&mut session, RequestBody::ListBoards { pnpid: vec![s("USB\\VID_1")] }) {
        Ok(Action::ListBoards { pnpid }) => assert_eq!(pnpid, ["USB\\VID_1"]),
        _ => panic!("the daemon is asked"),
    }
    match boards_listed(Ok(Vec::new()), &[]) {
        Ok(ResultPayload::Boards(result)) => assert!(result.targets.is_empty()),
        _ => panic!("no boards is a result"),
    }
    let e = boards_listed(Err(Error::Grpc(s("down"))), &[]).err().unwrap();
    assert_eq!(e.message(), "grpc: down");
}

#[test]
fn a_finished_request_can_no_longer_be_cancelled() {
    let mut in_flight: InFlight<u32> = InFlight::new();
    let (one, two) = (Responder::new(s("1")), Responder::new(s("2")));
    register(&mut in_flight, &one, 10);
    register(&mut in_flight, &two, 20);
    assert_eq!(cancel_target(&in_flight, &one), Some(&10));
    unregister(&mut in_flight, &one);
    assert_eq!(cancel_target(&in_flight, &one), None);
    assert_eq!(cancel_target(&in_flight, &two), Some(&20));
    assert!(matches!(
        dispatch(&mut Conn::new(), RequestBody::Cancel {}),
        Ok(Action::Cancel)
    ));

    let mut session = Conn::new();
    session.set_monitor(7);
    register(&mut in_flight, &one, 11);
    let (monitor, mut tokens) = teardown(&mut session, &mut in_flight);
    tokens.sort();
    assert_eq!(monitor, Some(7));
    assert_eq!(tokens, [11, 20]);
    assert!(in_flight.is_empty());
    assert!(!session.has_monitor());
}

#[test]
fn a_monitor_is_open_once_the_daemon_says_so() {
    assert!(matches!(
        monitor_opened(Some(Ok(MonitorEvent::Opened))),
        Ok(ResultPayload::Empty)
    ));
    let e = monitor_opened(Some(Ok(MonitorEvent::Error(s("busy"))))).err().unwrap();
    assert_eq!(e.message(), "daemon: busy");
    let e = monitor_opened(Some(Ok(MonitorEvent::Data(s("x"))))).err().unwrap();
    assert_eq!(e.message(), "daemon: monitor streamed data before confirming the port opened");
    let e = monitor_opened(Some(Err(Error::Grpc(s("gone"))))).err().unwrap();
    assert_eq!(e.message(), "grpc: gone");
    let e = monitor_opened(None).err().unwrap();
    assert_eq!(e.message(), "daemon: monitor stream closed before opening");
}

#[test]
fn a_monitor_pumps_data_until_it_ends() {
    assert!(matches!(
        monitor_pump(Some(Ok(MonitorEvent::Data(s("42\n"))))),
        PumpStep::Emit(ResponseBody::MonitorData { data }) if data == "42\n"
    ));
    assert!(matches!(monitor_pump(Some(Ok(MonitorEvent::Opened))), PumpStep::Skip));
    match monitor_pump(Some(Ok(MonitorEvent::Error(s("unplugged"))))) {
        PumpStep::Finish(body) => assert_eq!(message(body), (s("daemon"), s("daemon: unplugged"))),
        _ => panic!("an error ends the pump"),
    }
    match monitor_pump(Some(Err(Error::Grpc(s("x"))))) {
        PumpStep::Finish(body) => assert_eq!(message(body), (s("grpc"), s("grpc: x"))),
        _ => panic!("an error ends the pump"),
    }
    assert!(matches!(monitor_pump(None), PumpStep::End));
}

fn finished(step: Step) -> ResponseBody {
    match step {
        Step::Finish(body) => body,
        _ => panic!("the job goes on"),
    }
}

#[test]
fn a_compile_streams_and_ends_with_one_reply() {
    assert!(matches!(
        compile_stream(Next::Item(Ok(CompileEvent::Log(s("gcc"))))),
        Step::Emit(ResponseBody::Log { chunk }) if chunk == "gcc"
    ));
    let percent = Percent::Reported { bits: 50f32.to_bits() };
    assert!(matches!(
        compile_stream(Next::Item(Ok(CompileEvent::Progress { phase: s("link"), percent }))),
        Step::Emit(ResponseBody::Progress { phase, percent: p }) if phase == "link" && p == percent
    ));
    match finished(compile_stream(Next::Item(Ok(CompileEvent::Done(artifact()))))) {
        ResponseBody::Result(ResultPayload::Compiled(result)) => {
            assert_eq!(result.artifact.path, "/b/s.ino.hex")
        }
        other => panic!("no artifact: {other:?}"),
    }
    assert_eq!(
        message(finished(compile_stream(Next::Ended))),
        (s("daemon"), s("daemon: compile ended without producing an artifact"))
    );
    assert_eq!(message(finished(compile_stream(Next::Cancelled))).0, "cancelled");
    assert_eq!(
        message(finished(compile_stream(Next::NotStarted(Error::Io(s("disk full")))))),
        (s("io"), s("disk full"))
    );
    assert_eq!(
        message(finished(compile_stream(Next::Item(Err(Error::Grpc(s("x"))))))),
        (s("grpc"), s("grpc: x"))
    );
}

#[test]
fn an_upload_ends_with_the_empty_result() {
    assert!(matches!(
        upload_stream(Next::Item(Ok(UploadEvent::Log(s("##"))))),
        Step::Emit(ResponseBody::Log { chunk }) if chunk == "##"
    ));
    assert!(matches!(
        finished(upload_stream(Next::Item(Ok(UploadEvent::Done)))),
        ResponseBody::Result(ResultPayload::Empty)
    ));
    assert_eq!(
        message(finished(upload_stream(Next::Ended))).1,
        "daemon: upload ended without completing"
    );
    assert_eq!(message(finished(upload_stream(Next::Cancelled))).0, "cancelled");
}

#[test]
fn a_reinit_makes_no_compile_or_upload_succeed() {
    for outcome in [Ok(()), Err(Error::Grpc(s("x")))] {
        assert_eq!(
            message(finished(compile_stream(Next::Reinitialized(outcome)))).1,
            "daemon: compile ended without producing an artifact"
        );
    }
    assert_eq!(
        message(finished(upload_stream(Next::Reinitialized(Ok(()))))).1,
        "daemon: upload ended without completing"
    );
}

#[test]
fn an_install_reinitializes_the_daemon_before_it_succeeds() {
    assert!(matches!(
        install_stream(Next::Item(Ok(PlatformInstallEvent::Done))),
        Step::Reinit
    ));
    assert!(matches!(
        finished(install_stream(Next::Reinitialized(Ok(())))),
        ResponseBody::Result(ResultPayload::Empty)
    ));
    assert_eq!(
        message(finished(install_stream(Next::Reinitialized(Err(Error::Grpc(s("x"))))))).1,
        "grpc: x"
    );
    assert!(matches!(
        install_stream(Next::Item(Ok(PlatformInstallEvent::Log(s("done\n"))))),
        Step::Emit(ResponseBody::Log { chunk }) if chunk == "done\n"
    ));
    let percent = Percent::Downloaded { bytes: 1, of: 4 };
    assert!(matches!(
        install_stream(Next::Item(Ok(PlatformInstallEvent::Progress { phase: s("core"), percent }))),
        Step::Emit(ResponseBody::Progress { phase, percent: p }) if phase == "core" && p == percent
    ));
    assert_eq!(
        message(finished(install_stream(Next::Ended))).1,
        "daemon: platform install ended without completing"
    );
}

#[test]
fn sketch_names_are_fit_for_any_id() {
    assert_eq!(sketch_name("42"), "sketch_42");
    assert_eq!(sketch_name(""), "sketch_");
    assert_eq!(sketch_name("../a b-é_Z9"), "sketch____a_b___Z9");
    let files = write_sketch("a/b");
    assert_eq!(files.dir_name, "sketch_a_b");
    assert_eq!(files.file_name, "sketch_a_b.ino");
}
