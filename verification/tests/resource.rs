//! The resource root: what may be served and resolved.

use thingblock_link::service::resource::{CanonicalPath, PathKind, ResolvedPath, ResourceRoot};

fn canonical(path: &str, kind: PathKind) -> CanonicalPath<Vec<u8>> {
    CanonicalPath {
        path: path.as_bytes().to_vec(),
        display: path.to_string(),
        is_text: true,
        components: path.split('/').map(|c| c.as_bytes().to_vec()).collect(),
        kind,
    }
}

fn root() -> ResourceRoot<Vec<u8>> {
    ResourceRoot::new("packs", Ok(canonical("/srv/packs", PathKind::Dir))).unwrap()
}

#[test]
fn a_root_keeps_its_canonical_path() {
    assert_eq!(root().path(), b"/srv/packs");
}

#[test]
fn a_root_must_be_readable_and_a_directory() {
    let e = ResourceRoot::<Vec<u8>>::new("packs", Err("No such file".to_string())).unwrap_err();
    assert_eq!(e.message(), "resource: resource root packs is unreadable: No such file");
    for kind in [PathKind::File, PathKind::Other] {
        let e = ResourceRoot::new("packs", Ok(canonical("/srv/packs", kind))).unwrap_err();
        assert_eq!(e.message(), "resource: resource root /srv/packs is not a directory");
        assert_eq!(e.status(), 400);
    }
}

#[test]
fn a_library_is_a_directory_below_the_root() {
    let found = canonical("/srv/packs/motor/lib", PathKind::Dir);
    assert_eq!(
        root().resolve_lib_dir("motor", "lib", Ok(found)).unwrap().into_text(),
        "/srv/packs/motor/lib"
    );
    // The root itself lies in the root.
    let found = canonical("/srv/packs", PathKind::Dir);
    assert_eq!(root().resolve_lib_dir(".", ".", Ok(found)).unwrap().into_text(), "/srv/packs");

    let e = root().resolve_lib_dir("motor", "lib", Err("gone".to_string())).unwrap_err();
    assert_eq!(e.message(), "resource: lib motor/lib is unreadable: gone");
    let found = canonical("/srv/packs/motor/lib", PathKind::File);
    let e = root().resolve_lib_dir("motor", "lib", Ok(found)).unwrap_err();
    assert_eq!(e.message(), "resource: lib motor/lib is not a directory");
}

#[test]
fn a_firmware_image_is_a_file_below_the_root() {
    let found = canonical("/srv/packs/motor/fw.bin", PathKind::File);
    assert!(matches!(
        root().resolve_firmware_file("motor", "fw.bin", Ok(found)).unwrap(),
        ResolvedPath::Text(path) if path == "/srv/packs/motor/fw.bin"
    ));
    let e = root().resolve_firmware_file("motor", "fw.bin", Err("gone".to_string())).unwrap_err();
    assert_eq!(e.message(), "resource: firmware motor/fw.bin is unreadable: gone");
    let found = canonical("/srv/packs/motor/fw.bin", PathKind::Dir);
    let e = root().resolve_firmware_file("motor", "fw.bin", Ok(found)).unwrap_err();
    assert_eq!(e.message(), "resource: firmware motor/fw.bin is not a file");
}

/// Two names that are no text and look the same once decoded are still two names.
#[test]
fn containment_goes_by_bytes_not_by_decoded_text() {
    let at = |last: u8, kind| CanonicalPath {
        path: vec![b'/', b's', b'r', b'v', b'/', last],
        display: "/srv/\u{fffd}".to_string(),
        is_text: false,
        components: vec![b"/".to_vec(), b"srv".to_vec(), vec![last]],
        kind,
    };
    let root = ResourceRoot::new("r", Ok(at(0xff, PathKind::Dir))).unwrap();
    assert_eq!(root.path(), b"/srv/\xff");
    // A path that is no text comes back as it is.
    let resolved = root.resolve_lib_dir("p", "l", Ok(at(0xff, PathKind::Dir))).unwrap();
    assert!(matches!(&resolved, ResolvedPath::Raw { path, .. } if path == b"/srv/\xff"));
    assert_eq!(resolved.into_text(), "/srv/\u{fffd}");
    let e = root.resolve_lib_dir("p", "l", Ok(at(0xfe, PathKind::Dir))).unwrap_err();
    assert_eq!(e.message(), "resource: lib p/l escapes the resource root");
}

#[test]
fn nothing_outside_the_root_is_resolved() {
    for (path, kind) in [
        ("/srv/secret.bin", PathKind::File),
        ("/srv", PathKind::Dir),
        ("/srv/packs-private/secret.bin", PathKind::File),
        ("/", PathKind::Other),
    ] {
        let e = root()
            .resolve_firmware_file("p", "../x", Ok(canonical(path, kind)))
            .unwrap_err();
        assert_eq!(e.message(), "resource: firmware p/../x escapes the resource root");
        let e = root()
            .resolve_lib_dir("p", "../x", Ok(canonical(path, kind)))
            .unwrap_err();
        assert_eq!(e.message(), "resource: lib p/../x escapes the resource root");
    }
}
