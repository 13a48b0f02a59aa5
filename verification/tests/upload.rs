//! The upload request and the events of an upload.

use thingblock_link::service::arduino::bridge::{firmware_source_dir, stage_firmware_image};
use thingblock_link::service::arduino::grpc::upload::{build_request, translate, UploadEvent, UploadMessage};
use thingblock_link::service::arduino::grpc::Instance;

fn instance() -> Instance {
    Instance { id: 7 }
}

#[test]
fn maps_fqbn_artifact_and_port() {
    let req = build_request(
        instance(),
        "arduino:avr:uno",
        "/tmp/sketch/build/sketch.ino.hex",
        "/dev/ttyACM0",
        0,
    );

    assert_eq!(req.instance, Some(instance()));
    assert_eq!(req.fqbn, "arduino:avr:uno");
    // The artifact goes in `import_file` (overrides sketch_path/import_dir).
    assert_eq!(req.import_file, "/tmp/sketch/build/sketch.ino.hex");
    assert!(req.sketch_path.is_empty());

    let port = req.port.expect("port is set");
    assert_eq!(port.address, "/dev/ttyACM0");
    // Local-helper USB boards are always serial.
    assert_eq!(port.protocol, "serial");
}

#[test]
fn zero_upload_speed_defers_to_fqbn() {
    let req = build_request(
        instance(),
        "arduino:avr:uno",
        "/b/s.ino.hex",
        "/dev/ttyACM0",
        0,
    );
    assert!(
        req.upload_properties.is_empty(),
        "0 means let the FQBN's boards.txt decide; no override emitted"
    );
}

#[test]
fn nonzero_upload_speed_overrides_via_property() {
    let req = build_request(
        instance(),
        "esp32:esp32:esp32",
        "/b/s.ino.bin",
        "/dev/ttyUSB0",
        921600,
    );
    assert_eq!(req.upload_properties, ["upload.speed=921600"]);
}

#[test]
fn the_largest_upload_speed_is_written_out() {
    let req = build_request(instance(), "f", "i", "p", u32::MAX);
    assert_eq!(req.upload_properties, ["upload.speed=4294967295"]);
}

#[test]
fn an_upload_yields_logs_and_a_done() {
    assert!(translate(None).is_none());
    match translate(Some(UploadMessage::OutStream(b"####".to_vec()))) {
        Some(Ok(UploadEvent::Log(chunk))) => assert_eq!(chunk, "####"),
        other => panic!("unexpected: {other:?}"),
    }
    match translate(Some(UploadMessage::ErrStream("größe".as_bytes().to_vec()))) {
        Some(Ok(UploadEvent::Log(chunk))) => assert_eq!(chunk, "größe"),
        other => panic!("unexpected: {other:?}"),
    }
    assert!(matches!(
        translate(Some(UploadMessage::Result)),
        Some(Ok(UploadEvent::Done))
    ));
}

#[test]
fn staging_takes_every_regular_file_beside_the_image() {
    assert_eq!(stage_firmware_image(&[true, false, true, true, false]), [0, 2, 3]);
    assert!(stage_firmware_image(&[]).is_empty());
    assert!(stage_firmware_image(&[false]).is_empty());
}

#[test]
fn an_image_without_a_directory_cannot_be_staged() {
    assert_eq!(
        firmware_source_dir("/a/b.bin", Some("/a".to_string())).unwrap(),
        "/a"
    );
    let e = firmware_source_dir("/", None::<String>).unwrap_err();
    assert_eq!(e.message(), "resource: firmware image / has no containing directory");
    assert_eq!(e.code(), "resource");
}
