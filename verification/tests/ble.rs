//! The BLE channel: what requests lead to, what the session remembers, and what the radio's
//! sightings come to.

use thingblock_link::error::Error;
use thingblock_link::service::ble::protocol::{
    BleRequestBody, BleResponseBody, BleResult, Responder,
};
use thingblock_link::service::ble::session::{
    decoded_payload, malformed_envelope, notify, on_event, parse_uuid, parse_uuids, parsed_uuid,
    read_result, reply, scan_step, BleAction, BleSession, IoEvent, IoStep, ScanEvent, ScanStep,
    DISCONNECT_CHANNEL_CAPACITY, RESPONSE_CHANNEL_CAPACITY,
};
use thingblock_link::service::ble::transport::{
    find_characteristic, first_adapter, gone, notification, seen, write_type, Ble, CentralEvent,
    CharacteristicId, Device, Sighting, WriteType,
};

fn s(text: &str) -> String {
    text.to_string()
}

const SERVICE: &str = "aa700001-8f6a-4e2c-b369-4060e0bb33aa";
const SERVICE_BITS: u128 = 0xaa700001_8f6a_4e2c_b369_4060e0bb33aa;
const CHAR: &str = "00002a00-0000-1000-8000-00805f9b34fb";
const CHAR_BITS: u128 = 0x0000_2a00_0000_1000_8000_0080_5f9b_34fb;

type Io = BleSession<&'static str, u32, u32, u32, u32>;

fn io() -> Io {
    BleSession::new(Some("radio"))
}

fn responder(id: &str) -> Responder {
    Responder::new(s(id))
}

fn connected(session: &mut Io, id: &str, conn: u32, pump: u32) {
    let watch = if session.needs_disconnect_watch() { Some(99) } else { None };
    session.handle_connect(s(id), conn, pump, watch);
}

#[test]
fn without_an_adapter_every_request_is_refused() {
    let requests = || {
        vec![
            BleRequestBody::Scan { services: vec![s("not a uuid")], name_prefix: None },
            BleRequestBody::Connect { device_id: s("anything") },
            BleRequestBody::Disconnect { device_id: s("d") },
            BleRequestBody::Cancel {},
        ]
    };
    for body in requests() {
        let mut session: Io = BleSession::new(None);
        assert!(session.ble().is_none());
        let e = session.dispatch(body, &responder("1")).err().unwrap();
        assert_eq!(e.code(), "ble");
        assert_eq!(e.message(), "ble: no BLE adapter available");
        let response = responder("1").send(reply(Err(e)));
        assert_eq!(response.id, "1");
        assert!(matches!(response.body, BleResponseBody::Error { code, .. } if code == "ble"));
    }
}

#[test]
fn uuids_are_parsed_or_refused_with_a_reason() {
    assert_eq!(parse_uuid(SERVICE).unwrap(), SERVICE_BITS);
    assert_eq!(parse_uuid("AA7000018F6A4E2CB3694060E0BB33AA").unwrap(), SERVICE_BITS);
    let e = parse_uuid("zz").unwrap_err();
    let expected = uuid::Uuid::parse_str("zz").unwrap_err();
    assert_eq!(e.message(), format!("ble: invalid uuid zz: {expected}"));
    assert_eq!(parsed_uuid("x", Ok(7)).unwrap(), 7);
    assert_eq!(
        parsed_uuid("x", Err(s("too short"))).unwrap_err().message(),
        "ble: invalid uuid x: too short"
    );
    assert_eq!(parse_uuids(&[s(SERVICE), s(CHAR)]).unwrap(), [SERVICE_BITS, CHAR_BITS]);
    let e = parse_uuids(&[s(SERVICE), s("bad1"), s("bad2")]).unwrap_err();
    assert!(e.message().starts_with("ble: invalid uuid bad1: "));
}

#[test]
fn a_scan_is_cancelled_by_its_own_id_once() {
    let mut session = io();
    assert_eq!(session.ble(), Some(&"radio"));
    let body = BleRequestBody::Scan { services: vec![s(SERVICE)], name_prefix: Some(s("Thing")) };
    match session.dispatch(body, &responder("7")) {
        Ok(BleAction::Scan { services, name_prefix }) => {
            assert_eq!(services, [SERVICE_BITS]);
            assert_eq!(name_prefix.as_deref(), Some("Thing"));
        }
        _ => panic!("the scan starts"),
    }
    session.handle_scan(&responder("7"), 70);
    let mut cancel = |id: &str| session.dispatch(BleRequestBody::Cancel {}, &responder(id));
    assert!(matches!(cancel("8"), Ok(BleAction::Cancel(None))));
    assert!(matches!(cancel("7"), Ok(BleAction::Cancel(Some(70)))));
    assert!(matches!(cancel("7"), Ok(BleAction::Cancel(None))));
}

#[test]
fn a_write_needs_a_connection_uuids_and_base64() {
    let write = |service: &str, characteristic: &str, data: &str| BleRequestBody::Write {
        device_id: s("dev"),
        service: s(service),
        characteristic: s(characteristic),
        data: s(data),
        with_response: true,
    };
    let mut session = io();
    let e = session.dispatch(write("bad", "bad", "?"), &responder("1")).err().unwrap();
    assert_eq!(e.message(), "ble: device dev is not connected");
    connected(&mut session, "dev", 1, 10);
    let e = session.dispatch(write("bad1", "bad2", "?"), &responder("1")).err().unwrap();
    assert!(e.message().starts_with("ble: invalid uuid bad1: "));
    let e = session.dispatch(write(SERVICE, "bad2", "?"), &responder("1")).err().unwrap();
    assert!(e.message().starts_with("ble: invalid uuid bad2: "));
    let e = session.dispatch(write(SERVICE, CHAR, "?"), &responder("1")).err().unwrap();
    assert!(e.message().starts_with("ble: invalid base64 write payload: "));
    match session.dispatch(write(SERVICE, CHAR, "AQID/w=="), &responder("1")) {
        Ok(BleAction::Write { device_id, service, characteristic, bytes, with_response }) => {
            assert_eq!(device_id, "dev");
            assert_eq!(service, SERVICE_BITS);
            assert_eq!(characteristic, CHAR_BITS);
            assert_eq!(bytes, [1, 2, 3, 0xff]);
            assert!(with_response);
        }
        _ => panic!("the write goes out"),
    }
    assert_eq!(decoded_payload(Ok(vec![1])).unwrap(), [1]);
    assert_eq!(
        decoded_payload(Err(s("odd"))).unwrap_err().message(),
        "ble: invalid base64 write payload: odd"
    );
}

#[test]
fn reads_and_subscriptions_name_a_characteristic() {
    let mut session = io();
    connected(&mut session, "dev", 5, 50);
    assert_eq!(*session.require_connected("dev").unwrap(), 5);
    assert_eq!(
        session.require_connected("x").unwrap_err().message(),
        "ble: device x is not connected"
    );
    let parts = || (s("dev"), s(SERVICE), s(CHAR));
    let (device_id, service, characteristic) = parts();
    assert!(matches!(
        session.dispatch(BleRequestBody::Read { device_id, service, characteristic }, &responder("1")),
        Ok(BleAction::Read { service: SERVICE_BITS, characteristic: CHAR_BITS, .. })
    ));
    let (device_id, service, characteristic) = parts();
    assert!(matches!(
        session.dispatch(BleRequestBody::Subscribe { device_id, service, characteristic }, &responder("1")),
        Ok(BleAction::Subscribe { service: SERVICE_BITS, characteristic: CHAR_BITS, .. })
    ));
    let (device_id, service, characteristic) = parts();
    assert!(matches!(
        session.dispatch(BleRequestBody::Unsubscribe { device_id, service, characteristic }, &responder("1")),
        Ok(BleAction::Unsubscribe { service: SERVICE_BITS, characteristic: CHAR_BITS, .. })
    ));
    match read_result(&[1, 2, 3, 0xff]) {
        BleResult::Data { data } => assert_eq!(data, "AQID/w=="),
        other => panic!("no data: {other:?}"),
    }
}

#[test]
fn a_connect_replaces_an_earlier_one_and_a_disconnect_removes_it() {
    let mut session = io();
    assert!(matches!(
        session.dispatch(BleRequestBody::Connect { device_id: s("d") }, &responder("1")),
        Ok(BleAction::Connect { device_id }) if device_id == "d"
    ));
    assert!(session.needs_disconnect_watch());
    let (orphan, result) = session.handle_connect(s("d"), 1, 10, Some(99));
    assert_eq!(orphan, None);
    assert!(matches!(result, BleResult::Connected { device_id } if device_id == "d"));
    assert!(!session.needs_disconnect_watch());
    let (orphan, _) = session.handle_connect(s("d"), 2, 20, None);
    assert_eq!(orphan, Some(10), "the old pump is handed over");
    assert_eq!(*session.require_connected("d").unwrap(), 2);

    let mut disconnect = || session.dispatch(BleRequestBody::Disconnect { device_id: s("d") }, &responder("2"));
    assert!(matches!(disconnect(), Ok(BleAction::Disconnect { pump: Some(20), conn: Some(2) })));
    assert!(matches!(disconnect(), Ok(BleAction::Disconnect { pump: None, conn: None })));
    assert!(matches!(reply(Ok(BleResult::Empty)), BleResponseBody::Result(BleResult::Empty)));
}

#[test]
fn only_known_peripherals_are_reported_gone() {
    let mut session = io();
    connected(&mut session, "d", 1, 10);
    assert!(session.handle_peripheral_disconnect(s("other")).is_none());
    let (pump, notice) = session.handle_peripheral_disconnect(s("d")).unwrap();
    assert_eq!(pump, Some(10));
    assert_eq!(notice.id, "");
    assert!(matches!(notice.body, BleResponseBody::Disconnected { device_id } if device_id == "d"));
    assert!(session.handle_peripheral_disconnect(s("d")).is_none());
}

#[test]
fn a_teardown_hands_everything_over() {
    let mut session = io();
    connected(&mut session, "a", 1, 10);
    connected(&mut session, "b", 2, 20);
    session.handle_scan(&responder("7"), 70);
    let mut end = session.teardown();
    end.conns.sort();
    end.pumps.sort();
    assert_eq!(end.watch, Some(99));
    assert_eq!(end.conns, [1, 2]);
    assert_eq!(end.pumps, [10, 20]);
    assert_eq!(end.scans, [70]);
    assert!(session.needs_disconnect_watch());
    assert!(session.require_connected("a").is_err());
}

#[test]
fn a_scan_ends_with_one_reply() {
    let device = Device { id: s("d"), name: Some(s("Thing")), rssi: Some(-40) };
    match scan_step(ScanEvent::Found(device)) {
        ScanStep::Emit(BleResponseBody::Device { device_id, name, rssi }) => {
            assert_eq!(device_id, "d");
            assert_eq!(name.as_deref(), Some("Thing"));
            assert_eq!(rssi, Some(-40));
        }
        _ => panic!("a device is told"),
    }
    for end in [ScanEvent::Cancelled, ScanEvent::Ended] {
        assert!(matches!(
            scan_step(end),
            ScanStep::Finish { release: true, body: BleResponseBody::Result(BleResult::Empty) }
        ));
    }
    match scan_step(ScanEvent::NotStarted(Error::Ble(s("off")))) {
        ScanStep::Finish { release: false, body: BleResponseBody::Error { code, message } } => {
            assert_eq!((code.as_str(), message.as_str()), ("ble", "ble: off"))
        }
        _ => panic!("a failed start is told"),
    }
}

#[test]
fn notifications_carry_base64_and_the_uuid_text() {
    let n = notification(CHAR_BITS, vec![0, 0xff]);
    assert_eq!(n.characteristic, CHAR);
    let response = notify("d", n);
    assert_eq!(response.id, "");
    match response.body {
        BleResponseBody::Notify { device_id, characteristic, data } => {
            assert_eq!(device_id, "d");
            assert_eq!(characteristic, CHAR);
            assert_eq!(data, "AP8=");
        }
        other => panic!("no notification: {other:?}"),
    }
}

fn sighting(id: &str, name: Option<&str>, services: &[u128]) -> Sighting {
    Sighting { id: s(id), name: name.map(s), rssi: Some(-70), services: services.to_vec() }
}

#[test]
fn a_sighting_must_fit_the_filter_and_the_prefix() {
    let mut ble: Ble<u8> = Ble::new();
    let prefix = Some(s("Thing"));
    let mut take = |sighting, filter: &[u128], prefix: &Option<String>| {
        ble.take_sighting(Some((sighting, 1)), filter, prefix)
    };
    assert!(take(sighting("a", Some("ThingBot"), &[2]), &[1], &None).is_none());
    assert!(take(sighting("b", Some("Other"), &[1]), &[1], &prefix).is_none());
    assert!(take(sighting("c", None, &[1]), &[1], &prefix).is_none());
    let device = take(sighting("d", Some("ThingBot"), &[1]), &[1], &prefix).unwrap();
    assert_eq!(device.id, "d");
    assert_eq!(device.name.as_deref(), Some("ThingBot"));
    assert_eq!(device.rssi, Some(-70));
    assert!(take(sighting("e", None, &[]), &[], &None).is_some());
    assert!(take(sighting("f", Some("x"), &[]), &[], &Some(s(""))).is_some());

    // A peripheral that did not resolve is skipped, and the scan goes on.
    assert!(ble.take_sighting(None, &[], &None).is_none());
    assert!(ble.take_sighting(Some((sighting("g", None, &[]), 2)), &[], &None).is_some());

    // What was told stays known to later scans.
    ble.scan();
    assert_eq!(*ble.connect("g").unwrap(), 2);
    assert_eq!(*ble.connect("d").unwrap(), 1);
    let e = ble.connect("a").unwrap_err();
    assert_eq!(
        e.message(),
        "ble: device a was not discovered via scan; connect requires a live scan result"
    );
}

#[test]
fn a_stale_scan_does_not_stop_its_replacement() {
    let mut ble: Ble<u8> = Ble::new();
    assert_eq!(ble.scan_generation(), 0);
    let first = ble.scan();
    assert!(ble.take_sighting(Some((sighting("a", None, &[]), 1)), &[], &None).is_some());
    assert!(ble.release_scan(first));
    let second = ble.scan();
    assert!(!ble.release_scan(first));
    assert!(ble.release_scan(second));
    assert_eq!((first, second), (1, 2));
}

#[test]
fn the_first_matching_characteristic_is_found() {
    let c = |service, uuid| CharacteristicId { service, uuid };
    let known = [c(1, 2), c(SERVICE_BITS, 2), c(1, CHAR_BITS), c(SERVICE_BITS, CHAR_BITS), c(SERVICE_BITS, CHAR_BITS)];
    assert_eq!(find_characteristic(&known, SERVICE_BITS, CHAR_BITS).unwrap(), 3);
    let e = find_characteristic(&known[..3], SERVICE_BITS, CHAR_BITS).unwrap_err();
    assert_eq!(
        e.message(),
        format!("ble: characteristic {CHAR} on service {SERVICE} not found on this peripheral")
    );
}

#[test]
fn events_and_adapters_are_picked() {
    assert_eq!(seen(CentralEvent::DeviceDiscovered(s("a"))).as_deref(), Some("a"));
    assert_eq!(seen(CentralEvent::DeviceUpdated(s("a"))).as_deref(), Some("a"));
    assert_eq!(seen(CentralEvent::DeviceDisconnected(s("a"))), None);
    assert_eq!(seen(CentralEvent::Other), None);
    assert_eq!(gone(CentralEvent::DeviceDisconnected(s("a"))).as_deref(), Some("a"));
    assert_eq!(gone(CentralEvent::DeviceUpdated(s("a"))), None);
    assert_eq!(first_adapter(vec![4, 5]), Some(4));
    assert_eq!(first_adapter(Vec::<u8>::new()), None);
    assert_eq!(write_type(true), WriteType::WithResponse);
    assert_eq!(write_type(false), WriteType::WithoutResponse);
}

#[test]
fn the_session_stops_on_a_close_and_skips_other_frames() {
    assert!(matches!(on_event(IoEvent::Text(s("{}"))), IoStep::Handle(t) if t == "{}"));
    assert!(matches!(on_event(IoEvent::PeripheralGone(s("d"))), IoStep::PeripheralGone(d) if d == "d"));
    for ignored in [IoEvent::Binary, IoEvent::Ping, IoEvent::Pong] {
        assert!(matches!(on_event(ignored), IoStep::Ignore));
    }
    for end in [IoEvent::Close, IoEvent::Failed, IoEvent::Ended] {
        assert!(matches!(on_event(end), IoStep::Stop));
    }
    let response = malformed_envelope("eof");
    assert_eq!(response.id, "");
    assert!(matches!(
        response.body,
        BleResponseBody::Error { code, message } if code == "invalidRequest" && message == "malformed envelope: eof"
    ));
    assert_eq!(RESPONSE_CHANNEL_CAPACITY, 64);
    assert_eq!(DISCONNECT_CHANNEL_CAPACITY, 16);
}
