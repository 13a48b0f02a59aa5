//! Which of the detected ports are boards that the editor asked for.

use thingblock_link::service::arduino::grpc::board::{
    build_board_list_request, count_board_ports, detected_ports_to_targets, normalize_hex_id, port_label,
    port_pnp_id, Board, DetectedPort, Port,
};
use thingblock_link::service::arduino::grpc::Instance;
use thingblock_link::strmap::StrMap;

fn s(text: &str) -> String {
    text.to_string()
}

fn port(address: &str, label: &str, properties: &[(&str, &str)]) -> Port {
    let mut map = StrMap::new();
    for (key, value) in properties {
        map.insert(s(key), s(value));
    }
    Port { address: s(address), label: s(label), properties: map }
}

fn detected(port: Option<Port>, boards: &[&str]) -> DetectedPort {
    DetectedPort {
        port,
        matching_boards: boards.iter().map(|name| Board { name: s(name) }).collect(),
    }
}

const UNO: [(&str, &str); 2] = [("vid", "0x2341"), ("pid", "0x0043")];

#[test]
fn ids_lose_their_prefix_and_go_to_upper_case() {
    assert_eq!(normalize_hex_id("0x2341"), "2341");
    assert_eq!(normalize_hex_id("0Xab"), "AB");
    assert_eq!(normalize_hex_id("1a2b"), "1A2B");
    assert_eq!(normalize_hex_id("0x0xa"), "0XA");
    assert_eq!(normalize_hex_id("ß"), "SS");
    assert_eq!(normalize_hex_id(""), "");
}

#[test]
fn a_pnp_id_needs_a_vendor_and_a_product() {
    assert_eq!(
        port_pnp_id(&port("p", "", &UNO)).as_deref(),
        Some("USB\\VID_2341&PID_0043")
    );
    assert_eq!(port_pnp_id(&port("p", "", &[("vid", "0x2341")])), None);
    assert_eq!(port_pnp_id(&port("p", "", &[("pid", "0x0043")])), None);
    assert_eq!(port_pnp_id(&port("p", "", &[])), None);
}

#[test]
fn a_port_is_called_by_board_label_or_address() {
    let p = port("/dev/ttyACM0", "ttyACM0", &UNO);
    assert_eq!(port_label(&detected(None, &["Uno", "Mega"]), &p), "Uno");
    assert_eq!(port_label(&detected(None, &["", "Mega"]), &p), "ttyACM0");
    assert_eq!(port_label(&detected(None, &[]), &p), "ttyACM0");
    assert_eq!(port_label(&detected(None, &[]), &port("/dev/x", "", &UNO)), "/dev/x");
}

#[test]
fn targets_are_the_wanted_boards_in_order() {
    let ports = [
        detected(Some(port("/dev/a", "", &[("vid", "0x1a86"), ("pid", "0x7523")])), &[]),
        detected(None, &["Ghost"]),
        detected(Some(port("/dev/b", "b", &UNO)), &["Arduino Uno"]),
        detected(Some(port("/dev/c", "c", &[])), &[]),
        detected(Some(port("/dev/d", "", &UNO)), &[]),
    ];
    assert_eq!(count_board_ports(&ports), 3);
    assert_eq!(count_board_ports(&[]), 0);
    let targets = detected_ports_to_targets(&ports, &[s("usb\\vid_2341&pid_0043")]);
    let found: Vec<(String, String)> = targets.into_iter().map(|t| (t.port, t.label)).collect();
    assert_eq!(found, [(s("/dev/b"), s("Arduino Uno")), (s("/dev/d"), s("/dev/d"))]);
    assert!(detected_ports_to_targets(&ports, &[]).is_empty());
    let both = [s("USB\\VID_1A86&PID_7523"), s("USB\\VID_2341&PID_0043")];
    assert_eq!(detected_ports_to_targets(&ports, &both).len(), 3);
}

#[test]
fn the_list_request_skips_the_cloud() {
    let req = build_board_list_request(Instance { id: 4 });
    assert_eq!(req.instance, Some(Instance { id: 4 }));
    assert_eq!(req.timeout, 1000);
    assert_eq!(req.fqbn, "");
    assert!(req.skip_cloud_api_for_board_detection);
}
