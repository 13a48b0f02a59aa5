//! The compile server's JSON lines.

use thingblock_link::cloud::compile::{
    artifact_paths, ndjson_line, next_request_id, with_artifact_bytes, RequestIds, MAX_COMPILE_BODY,
    RESPONSE_CHANNEL_CAPACITY,
};
use thingblock_link::server::protocol::{
    Artifact, ArtifactPart, CompileResult, ResponseBody, ResultPayload,
};

fn s(text: &str) -> String {
    text.to_string()
}

fn compiled() -> ResponseBody {
    ResponseBody::Result(ResultPayload::Compiled(CompileResult {
        artifact: Artifact {
            format: s("bin"),
            path: s("/b/app.bin"),
            data: None,
            parts: vec![
                ArtifactPart { offset: 0x1000, path: s("/b/boot.bin"), data: None },
                ArtifactPart { offset: 0x10000, path: s("/b/app.bin"), data: None },
            ],
        },
    }))
}

#[test]
fn request_ids_count_up() {
    assert_eq!(next_request_id(0), "compile-0");
    assert_eq!(next_request_id(u64::MAX), "compile-18446744073709551615");
    assert_ne!(next_request_id(1), next_request_id(11));
    let mut ids = RequestIds::new();
    assert_eq!(ids.fresh(), "compile-0");
    assert_eq!(ids.fresh(), "compile-1");
    assert_eq!(ids.fresh(), "compile-2");
    assert_eq!(MAX_COMPILE_BODY, 1024 * 1024);
    assert_eq!(RESPONSE_CHANNEL_CAPACITY, 64);
}

#[test]
fn an_artifact_ships_bytes_and_no_path() {
    assert_eq!(artifact_paths(&compiled()), ["/b/boot.bin", "/b/app.bin", "/b/app.bin"]);
    let reads = vec![Ok(vec![1, 2, 3]), Ok(b"hi".to_vec()), Ok(b"hi".to_vec())];
    match with_artifact_bytes(compiled(), reads) {
        ResponseBody::Result(ResultPayload::Compiled(CompileResult { artifact })) => {
            assert_eq!(artifact.format, "bin");
            assert_eq!(artifact.path, "");
            assert_eq!(artifact.data.as_deref(), Some("aGk="));
            assert_eq!(artifact.parts.len(), 2);
            assert_eq!(artifact.parts[0].offset, 0x1000);
            assert_eq!(artifact.parts[0].path, "");
            assert_eq!(artifact.parts[0].data.as_deref(), Some("AQID"));
            assert_eq!(artifact.parts[1].data.as_deref(), Some("aGk="));
        }
        other => panic!("no artifact: {other:?}"),
    }
}

#[test]
fn the_first_unreadable_image_is_the_answer() {
    let reads = vec![Ok(Vec::new()), Err(s("part gone")), Err(s("app gone"))];
    match with_artifact_bytes(compiled(), reads) {
        ResponseBody::Error { code, message } => {
            assert_eq!((code.as_str(), message.as_str()), ("io", "part gone"))
        }
        other => panic!("no error: {other:?}"),
    }
    let reads = vec![Ok(Vec::new()), Ok(Vec::new()), Err(s("app gone"))];
    assert!(matches!(
        with_artifact_bytes(compiled(), reads),
        ResponseBody::Error { message, .. } if message == "app gone"
    ));
}

#[test]
fn other_bodies_are_sent_as_they_are() {
    let log = ResponseBody::Log { chunk: s("gcc") };
    assert!(artifact_paths(&log).is_empty());
    assert!(matches!(with_artifact_bytes(log, Vec::new()), ResponseBody::Log { chunk } if chunk == "gcc"));
    let empty = ResponseBody::Result(ResultPayload::Empty);
    assert!(artifact_paths(&empty).is_empty());
    assert!(matches!(
        with_artifact_bytes(empty, Vec::new()),
        ResponseBody::Result(ResultPayload::Empty)
    ));
    assert_eq!(ndjson_line("{\"type\":\"log\"}"), "{\"type\":\"log\"}\n");
}
