//! The monitor's outbound stream and its events.

use thingblock_link::service::arduino::grpc::monitor::{
    build_open_request, translate, Demand, MonitorCommand, MonitorEvent, MonitorMessage, MonitorRequest,
    Outbound,
};
use thingblock_link::service::arduino::grpc::Instance;

#[test]
fn a_port_opens_with_its_baud_rate() {
    let req = build_open_request(Instance { id: 1 }, "/dev/ttyUSB0", 115200);
    assert_eq!(req.instance, Some(Instance { id: 1 }));
    assert_eq!(req.address, "/dev/ttyUSB0");
    assert_eq!(req.protocol, "serial");
    assert_eq!(req.fqbn, "");
    assert_eq!(req.settings.len(), 1);
    assert_eq!(req.settings[0].setting_id, "baudrate");
    assert_eq!(req.settings[0].value, "115200");
}

#[test]
fn the_open_request_goes_first_and_a_close_last() {
    let mut out = Outbound::new(build_open_request(Instance { id: 1 }, "p", 9600));
    match out.next() {
        Demand::Send(MonitorRequest::OpenRequest(req)) => assert_eq!(req.address, "p"),
        _ => panic!("the open request goes first"),
    }
    assert!(matches!(out.next(), Demand::Await));
    assert!(matches!(
        out.command(Some(MonitorCommand::Write(vec![1, 2]))),
        Some(MonitorRequest::TxData(bytes)) if bytes == [1, 2]
    ));
    assert!(matches!(out.next(), Demand::Await));
    assert!(matches!(out.command(Some(MonitorCommand::Close)), Some(MonitorRequest::Close(true))));
    assert!(matches!(out.next(), Demand::End));
}

#[test]
fn a_lost_sender_ends_the_stream_silently() {
    let mut out = Outbound::new(build_open_request(Instance { id: 1 }, "p", 9600));
    out.next();
    assert!(out.command(None).is_none());
    assert!(matches!(out.next(), Demand::End));
}

#[test]
fn responses_become_events() {
    assert!(matches!(translate(Some(MonitorMessage::Success(true))), Some(Ok(MonitorEvent::Opened))));
    assert!(matches!(
        translate(Some(MonitorMessage::RxData(vec![0x34, 0x32, 0xfe]))),
        Some(Ok(MonitorEvent::Data(data))) if data == "42\u{fffd}"
    ));
    assert!(matches!(
        translate(Some(MonitorMessage::Error("gone".to_string()))),
        Some(Ok(MonitorEvent::Error(message))) if message == "gone"
    ));
    assert!(translate(Some(MonitorMessage::AppliedSettings)).is_none());
    assert!(translate(None).is_none());
}
