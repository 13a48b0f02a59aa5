//! Locating the build artifact in a build directory, the request that is sent, and the events of a
//! compile.

use thingblock_link::error::Error;
use thingblock_link::server::protocol::{Artifact, CompileOptions, Percent};
use thingblock_link::service::arduino::grpc::compile::{
    build_compile_request, find_artifact, find_binary, find_bootloader_addr, images_to_ask, translate, BuildDir,
    BuildEntry, BuildImage, CompileEvent, CompileMessage,
};
use thingblock_link::service::arduino::grpc::Instance;

fn build_dir() -> BuildDir {
    BuildDir { entries: Vec::new(), images: Vec::new() }
}

fn touch(dir: &mut BuildDir, name: &str) {
    dir.entries.push(BuildEntry {
        name: name.to_string(),
        exact: true,
        path: format!("/build/{name}"),
        is_file: true,
    });
}

/// Asks the directory for the images that it may hold beside the app image.
fn ask(mut dir: BuildDir) -> BuildDir {
    for name in images_to_ask(&dir) {
        if let Some(entry) = dir.entries.iter().find(|e| e.name == name && e.is_file) {
            let path = entry.path.clone();
            dir.images.push(BuildImage { name, path });
        }
    }
    dir
}

#[test]
fn finds_hex_artifact() {
    let mut dir = build_dir();
    touch(&mut dir, "sketch.ino.hex");

    let artifact = find_artifact(&ask(dir), &[]).expect("hex artifact found");
    assert_eq!(artifact.format, "hex");
    assert!(artifact.path.ends_with("sketch.ino.hex"));
    assert_eq!(artifact.path, "/build/sketch.ino.hex");
    assert!(artifact.data.is_none());
}

#[test]
fn prefers_hex_over_bin() {
    let mut dir = build_dir();
    touch(&mut dir, "sketch.ino.bin");
    touch(&mut dir, "sketch.ino.hex");

    let artifact = find_artifact(&ask(dir), &[]).expect("artifact found");
    assert_eq!(artifact.format, "hex", "AVR hex wins over ESP bin");
}

#[test]
fn falls_back_to_bin() {
    let mut dir = build_dir();
    touch(&mut dir, "sketch.ino.bin");
    touch(&mut dir, "sketch.ino.elf"); // not flashable; ignored

    let artifact = find_artifact(&ask(dir), &[]).expect("bin artifact found");
    assert_eq!(artifact.format, "bin");
    assert!(artifact.path.ends_with("sketch.ino.bin"));
}

#[test]
fn skips_bootloader_merged_variant() {
    let mut dir = build_dir();
    touch(&mut dir, "sketch.ino.with_bootloader.hex");
    touch(&mut dir, "sketch.ino.hex");

    let artifact = find_artifact(&ask(dir), &[]).expect("artifact found");
    assert!(
        artifact.path.ends_with("sketch.ino.hex"),
        "the plain `.ino.hex` is chosen, not the bootloader-merged one"
    );
}

#[test]
fn no_flashable_binary_is_none() {
    let mut dir = build_dir();
    touch(&mut dir, "sketch.ino.elf");
    // A bootloader-merged hex alone is not matched by the `.ino.hex` suffix.
    touch(&mut dir, "sketch.ino.with_bootloader.hex");

    assert!(find_artifact(&ask(dir), &[]).is_none());
}

#[test]
fn empty_build_dir_is_none() {
    let dir = build_dir();
    assert!(find_artifact(&ask(dir), &[]).is_none());
}

/// A directory that cannot be read is handed over as one that holds nothing.
#[test]
fn missing_build_dir_is_none() {
    let absent = BuildDir { entries: Vec::new(), images: Vec::new() };
    assert!(find_artifact(&ask(absent), &[]).is_none());
}

/// The build properties an ESP compile reports, with the C3's bootloader offset.
fn esp_props() -> Vec<String> {
    vec!["build.bootloader_addr=0x0".to_string()]
}

/// Lay down the four images an ESP build produces.
fn esp_build(dir: &mut BuildDir) {
    touch(dir, "sketch.ino.bin");
    touch(dir, "sketch.ino.bootloader.bin");
    touch(dir, "sketch.ino.partitions.bin");
    touch(dir, "boot_app0.bin");
}

#[test]
fn esp_build_yields_four_parts_in_flash_order() {
    let mut dir = build_dir();
    esp_build(&mut dir);

    let artifact = find_artifact(&ask(dir), &esp_props()).expect("bin artifact found");
    let offsets: Vec<u32> = artifact.parts.iter().map(|p| p.offset).collect();
    assert_eq!(offsets, [0x0, 0x8000, 0xe000, 0x10000]);
    assert!(artifact.parts[0].path.ends_with("sketch.ino.bootloader.bin"));
    assert!(artifact.parts[1].path.ends_with("sketch.ino.partitions.bin"));
    assert!(artifact.parts[2].path.ends_with("boot_app0.bin"));
    assert!(artifact.parts[3].path.ends_with("sketch.ino.bin"));
}

#[test]
fn bootloader_offset_comes_from_build_properties() {
    let mut dir = build_dir();
    esp_build(&mut dir);

    // The classic ESP32 puts its bootloader at 0x1000, not 0x0.
    let props = vec!["build.bootloader_addr=0x1000".to_string()];
    let artifact = find_artifact(&ask(dir), &props).expect("artifact found");
    assert_eq!(artifact.parts[0].offset, 0x1000);
}

#[test]
fn incomplete_esp_build_yields_no_parts() {
    let mut dir = build_dir();
    touch(&mut dir, "sketch.ino.bin");
    touch(&mut dir, "sketch.ino.bootloader.bin"); // partitions + boot_app0 missing

    let artifact = find_artifact(&ask(dir), &esp_props()).expect("artifact found");
    assert!(
        artifact.parts.is_empty(),
        "a partial image set must not be flashed"
    );
    assert!(artifact.path.ends_with("sketch.ino.bin"));
}

#[test]
fn missing_bootloader_addr_yields_no_parts() {
    let mut dir = build_dir();
    esp_build(&mut dir);

    let artifact = find_artifact(&ask(dir), &[]).expect("artifact found");
    assert!(artifact.parts.is_empty(), "no offset, no parts");
}

#[test]
fn avr_hex_has_no_parts() {
    let mut dir = build_dir();
    touch(&mut dir, "sketch.ino.hex");

    let artifact = find_artifact(&ask(dir), &esp_props()).expect("artifact found");
    assert_eq!(artifact.format, "hex");
    assert!(
        artifact.parts.is_empty(),
        "Intel HEX carries its own addresses"
    );
}

#[test]
fn an_image_that_is_no_file_yields_no_parts() {
    let mut dir = build_dir();
    esp_build(&mut dir);
    dir.entries[2].is_file = false;
    let artifact = find_artifact(&ask(dir), &esp_props()).expect("artifact found");
    assert!(artifact.parts.is_empty());
}

#[test]
fn the_images_beside_the_app_image_are_asked_for() {
    let mut dir = build_dir();
    touch(&mut dir, "sketch.ino.bin");
    assert_eq!(
        images_to_ask(&dir),
        ["sketch.ino.bootloader.bin", "sketch.ino.partitions.bin", "boot_app0.bin"]
    );
    dir.entries[0].exact = false;
    assert!(images_to_ask(&dir).is_empty(), "a name that is no text has no known siblings");
    dir.entries[0].exact = true;
    touch(&mut dir, "sketch.ino.hex");
    assert!(images_to_ask(&dir).is_empty(), "a hex has no parts");
    assert!(images_to_ask(&build_dir()).is_empty());
}

/// Where case does not count, the directory answers to a name that it spells otherwise.
#[test]
fn an_image_counts_under_the_name_it_was_asked_by() {
    let mut dir = build_dir();
    touch(&mut dir, "sketch.ino.bin");
    touch(&mut dir, "SKETCH.ino.bootloader.bin");
    for name in images_to_ask(&dir) {
        let path = format!("/build/{name}");
        dir.images.push(BuildImage { name, path });
    }
    let artifact = find_artifact(&dir, &esp_props()).expect("artifact found");
    let paths: Vec<&str> = artifact.parts.iter().map(|p| p.path.as_str()).collect();
    assert_eq!(
        paths,
        [
            "/build/sketch.ino.bootloader.bin",
            "/build/sketch.ino.partitions.bin",
            "/build/boot_app0.bin",
            "/build/sketch.ino.bin"
        ]
    );
}

#[test]
fn an_app_image_that_is_no_file_yields_no_parts() {
    let mut dir = build_dir();
    esp_build(&mut dir);
    dir.entries[0].is_file = false;
    let artifact = find_artifact(&ask(dir), &esp_props()).expect("artifact found");
    assert!(artifact.parts.is_empty());
}

#[test]
fn the_first_fitting_name_is_taken() {
    let mut dir = build_dir();
    touch(&mut dir, "b.ino.hex");
    touch(&mut dir, "a.ino.hex");
    assert_eq!(find_binary(&dir, ".ino.hex"), Some(0));
    assert_eq!(find_binary(&dir, "a.ino.hex"), Some(1));
    assert_eq!(find_binary(&dir, ".ino.bin"), None);
    assert_eq!(find_artifact(&ask(dir), &[]).unwrap().path, "/build/b.ino.hex");
}

fn addr(value: &str) -> Option<u32> {
    find_bootloader_addr(&[
        "build.other=1".to_string(),
        format!("build.bootloader_addr={value}"),
        "build.bootloader_addr=0x7".to_string(),
    ])
}

#[test]
fn a_bootloader_address_is_hexadecimal() {
    assert_eq!(addr("0x1000"), Some(0x1000));
    assert_eq!(addr("  0xAbC \t"), Some(0xabc));
    assert_eq!(addr("10"), Some(0x10), "the 0x is optional");
    assert_eq!(addr("0x0x20"), Some(0x20), "and may be repeated");
    assert_eq!(addr("+f"), Some(0xf));
    assert_eq!(addr("ffffffff"), Some(u32::MAX));
    assert_eq!(addr("100000000"), None, "out of range");
    assert_eq!(addr(""), None);
    assert_eq!(addr("+"), None);
    assert_eq!(addr("0x"), None);
    assert_eq!(addr("12g"), None);
    assert_eq!(find_bootloader_addr(&[]), None);
}

#[test]
fn the_request_lists_named_libraries_before_vendored_ones() {
    let opts = CompileOptions {
        verbose: true,
        warnings: Some("all".to_string()),
        libraries: vec!["/libs/Servo".to_string()],
        build_properties: vec!["build.extra_flags=-DFOO".to_string()],
    };
    let req = build_compile_request(
        Instance { id: 7 },
        "arduino:avr:uno",
        "/tmp/sketch",
        &opts,
        &vec!["/packs/lib".to_string()],
    );
    assert_eq!(req.instance, Some(Instance { id: 7 }));
    assert_eq!(req.fqbn, "arduino:avr:uno");
    assert_eq!(req.sketch_path, "/tmp/sketch");
    assert!(req.verbose);
    assert_eq!(req.warnings, "all");
    assert_eq!(req.library, ["/libs/Servo", "/packs/lib"]);
    assert_eq!(req.build_properties, ["build.extra_flags=-DFOO"]);
}

#[test]
fn default_options_ask_for_nothing() {
    let req = build_compile_request(
        Instance { id: 1 },
        "f",
        "s",
        &CompileOptions::default(),
        &Vec::new(),
    );
    assert!(!req.verbose);
    assert_eq!(req.warnings, "");
    assert!(req.library.is_empty());
    assert!(req.build_properties.is_empty());
}

#[test]
fn output_becomes_log_text() {
    match translate(Some(CompileMessage::OutStream(b"hello".to_vec()))) {
        Some(Ok(CompileEvent::Log(chunk))) => assert_eq!(chunk, "hello"),
        other => panic!("unexpected: {other:?}"),
    }
    match translate(Some(CompileMessage::ErrStream(vec![0x61, 0xff, 0x62]))) {
        Some(Ok(CompileEvent::Log(chunk))) => assert_eq!(chunk, "a\u{fffd}b"),
        other => panic!("unexpected: {other:?}"),
    }
    assert!(translate(None).is_none());
}

#[test]
fn progress_is_named_by_its_name_or_its_message() {
    let percent = Percent::Reported { bits: 42.5f32.to_bits() };
    for (name, expected) in [("Linking", "Linking"), ("", "linking everything")] {
        let message = CompileMessage::Progress {
            name: name.to_string(),
            message: "linking everything".to_string(),
            percent,
        };
        match translate(Some(message)) {
            Some(Ok(CompileEvent::Progress { phase, percent: p })) => {
                assert_eq!(phase, expected);
                assert_eq!(p, percent);
            }
            other => panic!("unexpected: {other:?}"),
        }
    }
}

#[test]
fn a_finished_build_yields_its_artifact_or_an_error() {
    let mut build = build_dir();
    touch(&mut build, "sketch.ino.hex");
    let build = ask(build);
    let message = CompileMessage::Result {
        build_path: "/build".to_string(),
        build,
        build_properties: Vec::new(),
    };
    match translate(Some(message)) {
        Some(Ok(CompileEvent::Done(Artifact { path, .. }))) => {
            assert_eq!(path, "/build/sketch.ino.hex")
        }
        other => panic!("unexpected: {other:?}"),
    }

    let message = CompileMessage::Result {
        build_path: "/build".to_string(),
        build: build_dir(),
        build_properties: Vec::new(),
    };
    match translate(Some(message)) {
        Some(Err(e)) => {
            assert!(matches!(e, Error::Daemon(_)));
            assert_eq!(
                e.message(),
                "daemon: compile produced no flashable artifact in /build"
            );
        }
        other => panic!("unexpected: {other:?}"),
    }
}
