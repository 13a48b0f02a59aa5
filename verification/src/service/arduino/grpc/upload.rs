//! `Upload`, backing WS `upload`. The responses carry no structured progress: the tool's `####`
//! progress arrives as log text, so an upload yields only logs and a done.

use vstd::prelude::*;

use crate::error::Error;
use crate::outside;
use crate::outside::decode_text;
use crate::service::arduino::grpc::Instance;
use crate::text;
use crate::text::{cat, decimal_of};

verus! {

/// One step of an upload, in the helper's own shapes.
#[derive(Debug)]
pub enum UploadEvent {
    Log(String),
    /// Terminal success: the flash completed.
    Done,
}

/// An [`UploadEvent`] with its text as a character sequence.
pub enum UploadEventView {
    Log(Seq<char>),
    Done,
}

impl View for UploadEvent {
    type V = UploadEventView;

    open spec fn view(&self) -> UploadEventView {
        match self {
            UploadEvent::Log(chunk) => UploadEventView::Log(chunk@),
            UploadEvent::Done => UploadEventView::Done,
        }
    }
}

/// The port that an upload goes to.
pub struct UploadPort {
    pub address: String,
    pub protocol: String,
}

/// What the daemon is asked to flash.
pub struct UploadRequest {
    pub instance: Option<Instance>,
    pub fqbn: String,
    pub sketch_path: String,
    pub port: Option<UploadPort>,
    pub import_file: String,
    pub upload_properties: Vec<String>,
}

/// The properties that set the upload speed: none for zero, which defers to the FQBN's
/// `boards.txt`.
pub open spec fn speed_properties(upload_speed: u32) -> Seq<Seq<char>> {
    if upload_speed > 0 {
        seq!["upload.speed="@ + text::decimal(upload_speed as nat)]
    } else {
        seq![]
    }
}

/// Builds the `UploadRequest`; `import_file` flashes a prebuilt binary, overriding `sketch_path`.
/// The WS payload carries only a port address, so the protocol is `serial` for local USB boards.
pub fn build_request(
    instance: Instance,
    fqbn: &str,
    import_file: &str,
    port: &str,
    upload_speed: u32,
) -> (req: UploadRequest)
    ensures
        req.instance == Some(instance),
        req.fqbn@ == fqbn@,
        req.sketch_path@ == Seq::<char>::empty(),
        req.import_file@ == import_file@,
        req.port is Some,
        req.port->0.address@ == port@,
        req.port->0.protocol@ == "serial"@,
        text::texts(req.upload_properties@) == speed_properties(upload_speed),
        req.upload_properties@.len() == if upload_speed > 0 { 1int } else { 0int },
        upload_speed > 0 ==> exists|digits: Seq<char>|
            req.upload_properties@[0]@ == "upload.speed="@ + digits && #[trigger] text::writes_number(
                digits,
                upload_speed as nat,
            ),
{
    proof {
        text::a_number_has_one_writing(text::decimal(upload_speed as nat), upload_speed as nat);
    }
    let mut upload_properties: Vec<String> = Vec::new();
    if upload_speed > 0 {
        upload_properties.push(cat("upload.speed=", decimal_of(upload_speed as u128).as_str()));
    }
    assert(text::texts(upload_properties@) =~= speed_properties(upload_speed));
    UploadRequest {
        instance: Some(instance),
        fqbn: fqbn.to_owned(),
        sketch_path: String::new(),
        port: Some(UploadPort { address: port.to_owned(), protocol: "serial".to_owned() }),
        import_file: import_file.to_owned(),
        upload_properties,
    }
}

/// What an upload response says.
pub enum UploadMessage {
    OutStream(Vec<u8>),
    ErrStream(Vec<u8>),
    /// The flash completed. The port that the board came back at isn't needed.
    Result,
}

/// The event that an upload response stands for, if it stands for one.
pub open spec fn translated(message: Option<UploadMessage>) -> Option<UploadEventView> {
    match message {
        None => None,
        Some(UploadMessage::OutStream(bytes)) => Some(UploadEventView::Log(outside::text_of(bytes@))),
        Some(UploadMessage::ErrStream(bytes)) => Some(UploadEventView::Log(outside::text_of(bytes@))),
        Some(UploadMessage::Result) => Some(UploadEventView::Done),
    }
}

/// Maps an upload response to the event that it stands for, or to none for an empty frame.
pub fn translate(message: Option<UploadMessage>) -> (r: Option<Result<UploadEvent, Error>>)
    ensures
        match r {
            None => translated(message) is None,
            Some(Ok(event)) => translated(message) == Some(event@),
            Some(Err(_)) => false,
        },
{
    match message {
        None => None,
        Some(UploadMessage::OutStream(bytes)) => Some(
            Ok(UploadEvent::Log(decode_text(bytes.as_slice()))),
        ),
        Some(UploadMessage::ErrStream(bytes)) => Some(
            Ok(UploadEvent::Log(decode_text(bytes.as_slice()))),
        ),
        Some(UploadMessage::Result) => Some(Ok(UploadEvent::Done)),
    }
}

/// An upload at a given speed is told of it in one property, in decimal behind `upload.speed=`.
/// Without a speed there is no property.
pub proof fn an_upload_is_told_its_speed(upload_speed: u32, digits: Seq<char>)
    ensures
        upload_speed == 0 ==> speed_properties(upload_speed).len() == 0,
        upload_speed > 0 ==> (speed_properties(upload_speed) == seq!["upload.speed="@ + digits] <==> text::writes_number(
            digits,
            upload_speed as nat,
        )),
        upload_speed > 0 ==> speed_properties(upload_speed).len() == 1,
{
    text::a_number_has_one_writing(digits, upload_speed as nat);
    if upload_speed > 0 && speed_properties(upload_speed) == seq!["upload.speed="@ + digits] {
        let n = "upload.speed="@.len() as int;
        assert(speed_properties(upload_speed)[0] == "upload.speed="@ + digits);
        assert(speed_properties(upload_speed)[0].skip(n) =~= text::decimal(upload_speed as nat));
        assert(("upload.speed="@ + digits).skip(n) =~= digits);
    }
}

/// Uploads at two speeds have different properties.
pub proof fn speeds_are_told_apart(a: u32, b: u32)
    requires
        speed_properties(a) == speed_properties(b),
    ensures
        a == b,
{
    an_upload_is_told_its_speed(a, seq![]);
    an_upload_is_told_its_speed(b, seq![]);
    if a > 0 {
        let digits = text::decimal(a as nat);
        text::a_number_has_one_writing(digits, a as nat);
        an_upload_is_told_its_speed(a, digits);
        an_upload_is_told_its_speed(b, digits);
        text::numbers_are_told_apart(digits, a as nat, b as nat);
    }
}

/// The tool's words reach the editor as they were written, from either stream, and an upload is done
/// just when the daemon says so.
pub proof fn an_upload_passes_its_text_on(message: Option<UploadMessage>, bytes: Vec<u8>, written: Seq<char>)
    requires
        bytes@ == vstd::utf8::encode_utf8(written),
    ensures
        translated(Some(UploadMessage::OutStream(bytes))) == Some(UploadEventView::Log(written)),
        translated(Some(UploadMessage::ErrStream(bytes))) == Some(UploadEventView::Log(written)),
        translated(message) == Some(UploadEventView::Done) <==> message == Some(UploadMessage::Result),
        translated(message) is None <==> message is None,
{
    outside::text_is_read_back(written);
}

/// The daemon is asked to flash the file to the port and the board that were asked for, over a serial
/// line.
pub proof fn an_upload_is_asked_for_as_it_was(
    instance: Instance,
    fqbn: &str,
    import_file: &str,
    port: &str,
    upload_speed: u32,
    req: UploadRequest,
)
    requires
        call_ensures(build_request, (instance, fqbn, import_file, port, upload_speed), req),
    ensures
        req.instance == Some(instance),
        req.fqbn@ == fqbn@,
        req.import_file@ == import_file@,
        req.sketch_path@.len() == 0,
        req.port matches Some(p) && p.address@ == port@ && p.protocol@ == "serial"@,
        req.upload_properties@.len() == if upload_speed > 0 { 1int } else { 0int },
        upload_speed > 0 ==> "upload.speed="@.is_prefix_of(req.upload_properties@[0]@) && text::writes_number(
            req.upload_properties@[0]@.skip("upload.speed="@.len() as int),
            upload_speed as nat,
        ),
{
    if upload_speed > 0 {
        let digits = choose|digits: Seq<char>|
            req.upload_properties@[0]@ == "upload.speed="@ + digits && #[trigger] text::writes_number(
                digits,
                upload_speed as nat,
            );
        text::a_prefix_can_be_put_back(req.upload_properties@[0]@, "upload.speed="@, digits);
    }
}

} // verus!
