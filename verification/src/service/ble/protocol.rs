//! The wire types of the BLE channel, parallel to those of the flash channel and never shared with
//! them.

use vstd::prelude::*;

use crate::text;

verus! {

/// An envelope from the editor.
#[derive(Debug)]
pub struct BleRequest {
    pub id: String,
    pub body: BleRequestBody,
}

/// What an envelope asks for.
#[derive(Debug)]
pub enum BleRequestBody {
    Scan { services: Vec<String>, name_prefix: Option<String> },
    Connect { device_id: String },
    Disconnect { device_id: String },
    Write {
        device_id: String,
        service: String,
        characteristic: String,
        /// Base64.
        data: String,
        with_response: bool,
    },
    Read { device_id: String, service: String, characteristic: String },
    Subscribe { device_id: String, service: String, characteristic: String },
    Unsubscribe { device_id: String, service: String, characteristic: String },
    /// Targets the scan that the request with the same id started.
    Cancel {  },
}

/// An envelope to the editor.
#[derive(Debug)]
pub struct BleResponse {
    pub id: String,
    pub body: BleResponseBody,
}

/// The payload of a `result`.
#[derive(Debug)]
pub enum BleResult {
    /// `{}`
    Empty,
    /// `{"deviceId": ..}`
    Connected { device_id: String },
    /// `{"data": ..}`, in base64.
    Data { data: String },
}

/// What an envelope to the editor says.
#[derive(Debug)]
pub enum BleResponseBody {
    Result(BleResult),
    Error { code: String, message: String },
    Device { device_id: String, name: Option<String>, rssi: Option<i16> },
    Notify { device_id: String, characteristic: String, data: String },
    /// Unsolicited: sent without a matching request.
    Disconnected { device_id: String },
}

/// A [`BleResult`] with its texts as character sequences.
pub enum BleResultView {
    Empty,
    Connected { device_id: Seq<char> },
    Data { data: Seq<char> },
}

/// A [`BleResponseBody`] with its texts as character sequences.
pub enum BleResponseBodyView {
    Result(BleResultView),
    Error { code: Seq<char>, message: Seq<char> },
    Device { device_id: Seq<char>, name: Option<Seq<char>>, rssi: Option<i16> },
    Notify { device_id: Seq<char>, characteristic: Seq<char>, data: Seq<char> },
    Disconnected { device_id: Seq<char> },
}

/// A [`BleResponse`] with its texts as character sequences.
pub struct BleResponseView {
    pub id: Seq<char>,
    pub body: BleResponseBodyView,
}

impl View for BleResult {
    type V = BleResultView;

    open spec fn view(&self) -> BleResultView {
        match self {
            BleResult::Empty => BleResultView::Empty,
            BleResult::Connected { device_id } => BleResultView::Connected { device_id: device_id@ },
            BleResult::Data { data } => BleResultView::Data { data: data@ },
        }
    }
}

impl View for BleResponseBody {
    type V = BleResponseBodyView;

    open spec fn view(&self) -> BleResponseBodyView {
        match self {
            BleResponseBody::Result(result) => BleResponseBodyView::Result(result@),
            BleResponseBody::Error { code, message } => BleResponseBodyView::Error {
                code: code@,
                message: message@,
            },
            BleResponseBody::Device { device_id, name, rssi } => BleResponseBodyView::Device {
                device_id: device_id@,
                name: text::opt_text(*name),
                rssi: *rssi,
            },
            BleResponseBody::Notify { device_id, characteristic, data } => BleResponseBodyView::Notify {
                device_id: device_id@,
                characteristic: characteristic@,
                data: data@,
            },
            BleResponseBody::Disconnected { device_id } => BleResponseBodyView::Disconnected {
                device_id: device_id@,
            },
        }
    }
}

impl View for BleResponse {
    type V = BleResponseView;

    open spec fn view(&self) -> BleResponseView {
        BleResponseView { id: self.id@, body: self.body@ }
    }
}

impl BleResponseBodyView {
    /// Whether a body ends its request.
    pub open spec fn is_terminal(self) -> bool {
        self is Result || self is Error
    }
}

/// Answers one request: every response carries the request's id.
pub struct Responder {
    id: String,
}

impl View for Responder {
    type V = Seq<char>;

    closed spec fn view(&self) -> Seq<char> {
        self.id@
    }
}

impl Responder {
    /// A responder for the request `id`.
    pub fn new(id: String) -> (r: Responder)
        ensures
            r@ == id@,
    {
        Responder { id }
    }

    /// The id of the request.
    pub fn id(&self) -> (id: &str)
        ensures
            id@ == self@,
    {
        self.id.as_str()
    }

    /// The response with the given body, for the writer to send.
    pub fn send(&self, body: BleResponseBody) -> (r: BleResponse)
        ensures
            r@ == (BleResponseView { id: self@, body: body@ }),
    {
        BleResponse { id: self.id.clone(), body }
    }
}

/// What is stated of a response's view is stated of the response itself: nothing of it is left out,
/// and nothing trades places.
pub proof fn a_response_is_stated_as_it_is(response: BleResponse)
    ensures
        response@.id == response.id@,
        response@.body == response.body@,
        response.body matches BleResponseBody::Error { code, message } ==> response.body@ == (BleResponseBodyView::Error {
            code: code@,
            message: message@,
        }),
        response.body matches BleResponseBody::Device { device_id, name, rssi } ==> {
            &&& response.body@ matches BleResponseBodyView::Device { device_id: d, name: n, rssi: r }
            &&& d == device_id@
            &&& n is Some <==> name is Some
            &&& name matches Some(name) ==> n == Some(name@)
            &&& r == rssi
        },
        response.body matches BleResponseBody::Notify { device_id, characteristic, data } ==> response.body@ == (
        BleResponseBodyView::Notify { device_id: device_id@, characteristic: characteristic@, data: data@ }),
        response.body matches BleResponseBody::Disconnected { device_id } ==> response.body@ == (
        BleResponseBodyView::Disconnected { device_id: device_id@ }),
        response.body matches BleResponseBody::Result(BleResult::Empty) ==> response.body@ == BleResponseBodyView::Result(
            BleResultView::Empty,
        ),
        response.body matches BleResponseBody::Result(BleResult::Connected { device_id }) ==> response.body@
            == BleResponseBodyView::Result(BleResultView::Connected { device_id: device_id@ }),
        response.body matches BleResponseBody::Result(BleResult::Data { data }) ==> response.body@
            == BleResponseBodyView::Result(BleResultView::Data { data: data@ }),
{
}

/// A result and an error end a request; devices, notifications and disconnects do not.
pub proof fn a_result_or_an_error_ends_a_request(body: BleResponseBody)
    ensures
        body@.is_terminal() <==> body is Result || body is Error,
{
}

} // verus!
