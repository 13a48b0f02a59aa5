//! Errors, texts, scratch names and the string map.

use thingblock_link::error::Error;
use thingblock_link::strmap::StrMap;
use thingblock_link::text::{
    decimal_of, eq_ignore_ascii_case, has_prefix, has_suffix, parse_hex_u32, replace, split_once,
    strip_prefix, trim, trim_start_matches,
};
use thingblock_link::utils::tempdir::{temp_name, TempDir, TempNames};

fn s(text: &str) -> String {
    text.to_string()
}

#[test]
fn every_error_has_a_code_a_message_and_a_status() {
    let cases = [
        (Error::InvalidRequest(s("x")), "invalidRequest", "invalid request: x", 400),
        (Error::Daemon(s("x")), "daemon", "daemon: x", 502),
        (Error::Grpc(s("x")), "grpc", "grpc: x", 502),
        (Error::Cancelled, "cancelled", "cancelled", 499),
        (Error::Resource(s("x")), "resource", "resource: x", 400),
        (Error::Ble(s("x")), "ble", "ble: x", 500),
        (Error::Io(s("x")), "io", "x", 500),
    ];
    for (error, code, message, status) in cases {
        assert_eq!(error.code(), code);
        assert_eq!(error.message(), message);
        assert_eq!(error.status(), status);
        let answer = error.into_response();
        assert_eq!((answer.status, answer.code.as_str(), answer.message.as_str()), (status, code, message));
    }
}

#[test]
fn scratch_names_tell_process_time_and_number_apart() {
    assert_eq!(temp_name("thingblock-link", 12, 34, 5), "thingblock-link-12-34-5");
    assert_ne!(temp_name("p", 1, 23, 4), temp_name("p", 12, 3, 4));
    assert_ne!(temp_name("p", 1, 2, 34), temp_name("p", 1, 23, 4));
    assert_eq!(temp_name("", 0, u128::MAX, 0), "-0-340282366920938463463374607431768211455-0");
}

#[test]
fn a_scratch_directory_knows_its_path() {
    assert_eq!(TempDir::new(b"/tmp/", "p-1-2-3", Ok(())).ok().unwrap().path(), b"/tmp/p-1-2-3");
    // The temporary directory's path need not be text; a prefix may be any.
    let dir = TempDir::new(b"/\xff/", "\u{e9}-1-2-3", Ok(())).ok().unwrap();
    assert_eq!(dir.path(), b"/\xff/\xc3\xa9-1-2-3");
    let e = TempDir::new(b"/tmp/", "p-1-2-3", Err(s("read-only"))).err().unwrap();
    assert_eq!((e.code(), e.message()), ("io", s("read-only")));
}

#[test]
fn every_scratch_name_has_a_number_of_its_own() {
    let mut names = TempNames::new();
    let handed_out: Vec<String> = (0..12).map(|_| names.fresh("p", 7, 9)).collect();
    assert_eq!(handed_out[0], "p-7-9-0");
    assert_eq!(handed_out[11], "p-7-9-11");
    for (i, name) in handed_out.iter().enumerate() {
        assert!(!handed_out[..i].contains(name));
    }
}

#[test]
fn a_map_keeps_one_value_per_key() {
    let mut map: StrMap<u8> = StrMap::new();
    assert!(map.is_empty());
    assert_eq!(map.insert(s("a"), 1), None);
    assert_eq!(map.insert(s("b"), 2), None);
    assert_eq!(map.insert(s("a"), 3), Some(1));
    assert_eq!(map.get("a"), Some(&3));
    assert!(map.contains("b") && !map.contains("c"));
    assert_eq!(map.remove("a"), Some(3));
    assert_eq!(map.remove("a"), None);
    map.insert(s("c"), 4);
    let mut values = map.drain();
    values.sort();
    assert_eq!(values, [2, 4]);
    assert!(map.is_empty());
}

#[test]
fn texts_agree_with_the_standard_library() {
    let texts = ["", "0x", "0x0x1f", " \t0xAB\u{3000}", "a:b:c", "ß-ſ", "usb\\VID_1", "+ff", "\u{85}x\u{200a}"];
    for text in texts {
        assert_eq!(trim(text), text.trim());
        assert_eq!(trim_start_matches(text, "0x"), text.trim_start_matches("0x"));
        assert_eq!(strip_prefix(text, "0x"), text.strip_prefix("0x").map(s));
        assert_eq!(
            split_once(text, ':'),
            text.split_once(':').map(|(a, b)| (s(a), s(b)))
        );
        assert_eq!(parse_hex_u32(text), u32::from_str_radix(text, 16).ok());
        assert_eq!(replace(text, "x", "yy"), text.replace("x", "yy"));
        assert_eq!(replace(text, "0x0", "0"), text.replace("0x0", "0"));
        for other in texts {
            assert_eq!(eq_ignore_ascii_case(text, other), text.eq_ignore_ascii_case(other));
            assert_eq!(has_prefix(text, other), text.starts_with(other));
            assert_eq!(has_suffix(text, other), text.ends_with(other));
        }
    }
    assert!(eq_ignore_ascii_case("USB\\vid_1", "usb\\VID_1"));
    assert!(!eq_ignore_ascii_case("ß", "SS"));
    assert_eq!(replace("aaa", "aa", "b"), "ba");
    for n in [0u128, 9, 10, 99, 100, 12345, u128::MAX] {
        assert_eq!(decimal_of(n), n.to_string());
    }
}
