//! `Monitor`, backing WS `monitorOpen`/`monitorWrite`/`monitorClose`. The stream is bidirectional
//! and long-lived: the first outbound message opens the port, later ones write or close.

use vstd::prelude::*;

use crate::error::Error;
use crate::outside;
use crate::outside::decode_text;
use crate::service::arduino::grpc::Instance;
use crate::text;
use crate::text::decimal_of;

verus! {

/// One step of a monitor session, in the helper's own shapes.
#[derive(Debug)]
pub enum MonitorEvent {
    /// The port opened; the first event of a healthy session.
    Opened,
    Data(String),
    /// A port-level error from the daemon, e.g. the board vanished.
    Error(String),
}

/// A [`MonitorEvent`] with its texts as character sequences.
pub enum MonitorEventView {
    Opened,
    Data(Seq<char>),
    Error(Seq<char>),
}

impl View for MonitorEvent {
    type V = MonitorEventView;

    open spec fn view(&self) -> MonitorEventView {
        match self {
            MonitorEvent::Opened => MonitorEventView::Opened,
            MonitorEvent::Data(data) => MonitorEventView::Data(data@),
            MonitorEvent::Error(message) => MonitorEventView::Error(message@),
        }
    }
}

/// A command pushed into an open monitor's outbound stream.
#[derive(Debug)]
pub enum MonitorCommand {
    Write(Vec<u8>),
    /// Graceful close; the daemon ends the stream once it lands.
    Close,
}

/// A setting of the port, such as its baud rate.
pub struct MonitorPortSetting {
    pub setting_id: String,
    pub value: String,
}

/// What the daemon is asked to open.
pub struct MonitorPortOpenRequest {
    pub instance: Option<Instance>,
    pub address: String,
    pub protocol: String,
    pub settings: Vec<MonitorPortSetting>,
    /// Only disambiguates several monitors for one protocol, which serial never has.
    pub fqbn: String,
}

/// Whether `req` opens the serial port `port` of `instance` at `baud_rate`.
pub open spec fn opens(req: MonitorPortOpenRequest, instance: Instance, port: Seq<char>, baud_rate: u32) -> bool {
    &&& req.instance == Some(instance)
    &&& req.address@ == port
    &&& req.protocol@ == "serial"@
    &&& req.settings@.len() == 1
    &&& req.settings@[0].setting_id@ == "baudrate"@
    &&& req.settings@[0].value@ == text::decimal(baud_rate as nat)
    &&& req.fqbn@ == Seq::<char>::empty()
}

/// Builds the request that opens a serial port with a `baudrate` setting.
pub fn build_open_request(instance: Instance, port: &str, baud_rate: u32) -> (req: MonitorPortOpenRequest)
    ensures
        opens(req, instance, port@, baud_rate),
        req.instance == Some(instance),
        req.address@ == port@,
        req.protocol@ == "serial"@,
        req.settings@.len() == 1,
        req.settings@[0].setting_id@ == "baudrate"@,
        text::writes_number(req.settings@[0].value@, baud_rate as nat),
{
    proof {
        text::a_number_has_one_writing(text::decimal(baud_rate as nat), baud_rate as nat);
    }
    let mut settings: Vec<MonitorPortSetting> = Vec::new();
    settings.push(
        MonitorPortSetting {
            setting_id: "baudrate".to_owned(),
            value: decimal_of(baud_rate as u128),
        },
    );
    MonitorPortOpenRequest {
        instance: Some(instance),
        address: port.to_owned(),
        protocol: "serial".to_owned(),
        settings,
        fqbn: String::new(),
    }
}

/// A message to the daemon.
pub enum MonitorRequest {
    OpenRequest(MonitorPortOpenRequest),
    TxData(Vec<u8>),
    Close(bool),
}

/// The outbound side of a monitor: the open request while it is still to be sent, and whether
/// the stream has ended.
pub struct Outbound {
    pub open: Option<MonitorPortOpenRequest>,
    pub done: bool,
}

/// What the outbound stream does next.
pub enum Demand {
    /// Send the open request.
    Send(MonitorRequest),
    /// Wait for a command.
    Await,
    /// Send nothing more.
    End,
}

impl Outbound {
    /// A stream that still has to open its port.
    pub fn new(open: MonitorPortOpenRequest) -> (out: Outbound)
        ensures
            out == (Outbound { open: Some(open), done: false }),
    {
        Outbound { open: Some(open), done: false }
    }

    /// What is asked of the stream next, and the stream after it.
    pub open spec fn demanded(self) -> (Outbound, Demand) {
        if self.done {
            (self, Demand::End)
        } else {
            match self.open {
                Some(open) => (
                    Outbound { open: None, done: false },
                    Demand::Send(MonitorRequest::OpenRequest(open)),
                ),
                None => (self, Demand::Await),
            }
        }
    }

    /// What a command makes the stream send, and the stream after it. Without a sender the stream
    /// stops, with no graceful close.
    pub open spec fn commanded(self, command: Option<MonitorCommand>) -> (Outbound, Option<MonitorRequest>) {
        match command {
            Some(MonitorCommand::Write(bytes)) => (self, Some(MonitorRequest::TxData(bytes))),
            Some(MonitorCommand::Close) => (
                Outbound { open: self.open, done: true },
                Some(MonitorRequest::Close(true)),
            ),
            None => (Outbound { open: self.open, done: true }, None),
        }
    }

    /// Begins the next message: the open request first, then one message per command.
    pub fn next(&mut self) -> (demand: Demand)
        ensures
            (*final(self), demand) == old(self).demanded(),
    {
        if self.done {
            return Demand::End;
        }
        match self.open.take() {
            Some(open) => Demand::Send(MonitorRequest::OpenRequest(open)),
            None => Demand::Await,
        }
    }

    /// Turns the awaited command into the message to send. `None` means that the sender is gone.
    pub fn command(&mut self, command: Option<MonitorCommand>) -> (request: Option<MonitorRequest>)
        ensures
            (*final(self), request) == old(self).commanded(command),
    {
        match command {
            Some(MonitorCommand::Write(bytes)) => Some(MonitorRequest::TxData(bytes)),
            Some(MonitorCommand::Close) => {
                self.done = true;
                Some(MonitorRequest::Close(true))
            },
            None => {
                self.done = true;
                None
            },
        }
    }
}

/// The stream after its first message and some commands, and the messages that it sent.
pub open spec fn outbound_after(open: MonitorPortOpenRequest, commands: Seq<Option<MonitorCommand>>) -> (
    Outbound,
    Seq<MonitorRequest>,
)
    decreases commands.len(),
{
    if commands.len() == 0 {
        (Outbound { open: None, done: false }, seq![MonitorRequest::OpenRequest(open)])
    } else {
        let (before, sent) = outbound_after(open, commands.drop_last());
        match before.demanded() {
            (before, Demand::Await) => {
                let (after, request) = before.commanded(commands.last());
                match request {
                    Some(request) => (after, sent.push(request)),
                    None => (after, sent),
                }
            },
            (before, _) => (before, sent),
        }
    }
}

/// The open request is the first message, and the only one of its kind.
pub proof fn the_open_request_comes_first_and_once(open: MonitorPortOpenRequest, commands: Seq<Option<MonitorCommand>>)
    ensures
        ({
            let sent = outbound_after(open, commands).1;
            &&& sent.len() > 0
            &&& sent[0] == MonitorRequest::OpenRequest(open)
            &&& forall|i: int| 0 < i < sent.len() ==> !((#[trigger] sent[i]) is OpenRequest)
        }),
        outbound_after(open, commands).0.open is None,
    decreases commands.len(),
{
    if commands.len() > 0 {
        the_open_request_comes_first_and_once(open, commands.drop_last());
    }
}

/// Nothing is sent after a close.
pub proof fn nothing_follows_a_close(open: MonitorPortOpenRequest, commands: Seq<Option<MonitorCommand>>, i: int)
    requires
        0 <= i < outbound_after(open, commands).1.len(),
        outbound_after(open, commands).1[i] is Close,
    ensures
        i == outbound_after(open, commands).1.len() - 1,
        outbound_after(open, commands).0.done,
    decreases commands.len(),
{
    if commands.len() > 0 {
        let earlier = commands.drop_last();
        the_open_request_comes_first_and_once(open, earlier);
        if i < outbound_after(open, earlier).1.len() {
            nothing_follows_a_close(open, earlier, i);
        }
    }
}

/// What a monitor response says.
pub enum MonitorMessage {
    Success(bool),
    RxData(Vec<u8>),
    Error(String),
    /// The port's effective configuration, which is not surfaced.
    AppliedSettings,
}

/// The event that a monitor response stands for, if it stands for one.
pub open spec fn translated(message: Option<MonitorMessage>) -> Option<MonitorEventView> {
    match message {
        None => None,
        Some(MonitorMessage::Success(_)) => Some(MonitorEventView::Opened),
        Some(MonitorMessage::RxData(bytes)) => Some(MonitorEventView::Data(outside::text_of(bytes@))),
        Some(MonitorMessage::Error(message)) => Some(MonitorEventView::Error(message@)),
        Some(MonitorMessage::AppliedSettings) => None,
    }
}

/// Maps a monitor response to the event that it stands for, or to none for an empty frame. Serial
/// bytes decode lossily because the editor consumes text.
pub fn translate(message: Option<MonitorMessage>) -> (r: Option<Result<MonitorEvent, Error>>)
    ensures
        match r {
            None => translated(message) is None,
            Some(Ok(event)) => translated(message) == Some(event@),
            Some(Err(_)) => false,
        },
{
    match message {
        None => None,
        Some(MonitorMessage::Success(_)) => Some(Ok(MonitorEvent::Opened)),
        Some(MonitorMessage::RxData(bytes)) => Some(
            Ok(MonitorEvent::Data(decode_text(bytes.as_slice()))),
        ),
        Some(MonitorMessage::Error(message)) => Some(Ok(MonitorEvent::Error(message))),
        Some(MonitorMessage::AppliedSettings) => None,
    }
}

/// A request that opens a port names the port, asks for a serial monitor and has one setting, whose
/// value is the baud rate written in decimal.
pub proof fn an_open_request_asks_for_its_rate(req: MonitorPortOpenRequest, instance: Instance, port: Seq<char>, baud_rate: u32)
    requires
        opens(req, instance, port, baud_rate),
    ensures
        req.instance == Some(instance),
        req.address@ == port,
        req.protocol@ == "serial"@,
        req.fqbn@.len() == 0,
        req.settings@.len() == 1,
        req.settings@[0].setting_id@ == "baudrate"@,
        text::writes_number(req.settings@[0].value@, baud_rate as nat),
{
    text::a_number_has_one_writing(req.settings@[0].value@, baud_rate as nat);
}

/// Requests for two rates differ in the value of their setting, and requests for two ports in their
/// address.
pub proof fn open_requests_are_told_apart(
    a: MonitorPortOpenRequest,
    b: MonitorPortOpenRequest,
    instance: Instance,
    port_a: Seq<char>,
    port_b: Seq<char>,
    rate_a: u32,
    rate_b: u32,
)
    requires
        opens(a, instance, port_a, rate_a),
        opens(b, instance, port_b, rate_b),
    ensures
        a.settings@[0].value@ == b.settings@[0].value@ <==> rate_a == rate_b,
        a.address@ == b.address@ <==> port_a == port_b,
{
    an_open_request_asks_for_its_rate(a, instance, port_a, rate_a);
    an_open_request_asks_for_its_rate(b, instance, port_b, rate_b);
    if a.settings@[0].value@ == b.settings@[0].value@ {
        text::numbers_are_told_apart(a.settings@[0].value@, rate_a as nat, rate_b as nat);
    }
    text::a_number_has_one_writing(a.settings@[0].value@, rate_a as nat);
    text::a_number_has_one_writing(b.settings@[0].value@, rate_b as nat);
}

/// While only writes come, each of them is sent, in order and with its bytes, behind the open
/// request.
pub proof fn every_write_is_sent(open: MonitorPortOpenRequest, commands: Seq<Option<MonitorCommand>>)
    requires
        forall|i: int| 0 <= i < commands.len() ==> (#[trigger] commands[i]) matches Some(MonitorCommand::Write(_)),
    ensures
        !outbound_after(open, commands).0.done,
        outbound_after(open, commands).0.open is None,
        outbound_after(open, commands).1.len() == commands.len() + 1,
        outbound_after(open, commands).1[0] == MonitorRequest::OpenRequest(open),
        forall|i: int|
            0 <= i < commands.len() ==> #[trigger] outbound_after(open, commands).1[i + 1]
                == MonitorRequest::TxData(commands[i]->0->Write_0),
    decreases commands.len(),
{
    if commands.len() > 0 {
        let earlier = commands.drop_last();
        assert forall|i: int| 0 <= i < earlier.len() implies (#[trigger] earlier[i]) matches Some(
            MonitorCommand::Write(_),
        ) by {
            assert(earlier[i] == commands[i]);
        }
        every_write_is_sent(open, earlier);
        assert(commands.last() == commands[commands.len() - 1]);
        let sent = outbound_after(open, commands).1;
        let before = outbound_after(open, earlier).1;
        assert forall|i: int| 0 <= i < commands.len() implies #[trigger] sent[i + 1] == MonitorRequest::TxData(
            commands[i]->0->Write_0,
        ) by {
            if i < earlier.len() {
                assert(before[i + 1] == MonitorRequest::TxData(earlier[i]->0->Write_0));
            }
        }
    }
}

/// A close behind some writes is sent as the last message. Where the sender is gone instead,
/// nothing more is sent.
pub proof fn a_close_is_sent_and_a_lost_sender_is_not(open: MonitorPortOpenRequest, writes: Seq<Option<MonitorCommand>>)
    requires
        forall|i: int| 0 <= i < writes.len() ==> (#[trigger] writes[i]) matches Some(MonitorCommand::Write(_)),
    ensures
        outbound_after(open, writes.push(Some(MonitorCommand::Close))).1 == outbound_after(open, writes).1.push(
            MonitorRequest::Close(true),
        ),
        outbound_after(open, writes.push(Some(MonitorCommand::Close))).0.done,
        outbound_after(open, writes.push(None)).1 == outbound_after(open, writes).1,
        outbound_after(open, writes.push(None)).0.done,
{
    every_write_is_sent(open, writes);
    assert(writes.push(Some(MonitorCommand::Close)).drop_last() =~= writes);
    assert(writes.push(None).drop_last() =~= writes);
}

/// What the board prints reaches the editor as it was written; the daemon's complaint does in its
/// own words; and nothing but a success means that the port is open.
pub proof fn a_monitor_passes_its_text_on(message: Option<MonitorMessage>, bytes: Vec<u8>, written: Seq<char>)
    requires
        bytes@ == vstd::utf8::encode_utf8(written),
    ensures
        translated(Some(MonitorMessage::RxData(bytes))) == Some(MonitorEventView::Data(written)),
        message matches Some(MonitorMessage::Error(words)) ==> translated(message) == Some(
            MonitorEventView::Error(words@),
        ),
        translated(message) == Some(MonitorEventView::Opened) <==> message matches Some(MonitorMessage::Success(_)),
        translated(message) is None <==> message is None || message == Some(MonitorMessage::AppliedSettings),
{
    outside::text_is_read_back(written);
}

/// The request that is built opens the port that was asked for at the rate that was asked for.
pub proof fn a_port_is_opened_at_the_rate_asked_for(
    instance: Instance,
    port: &str,
    baud_rate: u32,
    req: MonitorPortOpenRequest,
)
    requires
        call_ensures(build_open_request, (instance, port, baud_rate), req),
    ensures
        req.instance == Some(instance),
        req.address@ == port@,
        req.protocol@ == "serial"@,
        req.settings@.len() == 1,
        req.settings@[0].setting_id@ == "baudrate"@,
        text::writes_number(req.settings@[0].value@, baud_rate as nat),
{
    an_open_request_asks_for_its_rate(req, instance, port@, baud_rate);
}

} // verus!
