//! One editor connection on the BLE channel. Unlike on the flash channel there is no coalescing:
//! BLE frames are discrete and each goes out on its own.

use vstd::prelude::*;

use crate::error::{Error, ErrorView};
use crate::outside;
use crate::outside::{base64_decode, base64_encode, uuid_parse};
use crate::service::ble::protocol::{
    BleRequestBody, BleResponse, BleResponseBody, BleResponseBodyView, BleResponseView, BleResult,
    BleResultView, Responder,
};
use crate::service::ble::transport::{Device, Notification};
use crate::strmap;
use crate::strmap::StrMap;
use crate::text;
use crate::text::{cat, cat3, cat4};

verus! {

/// How many responses may wait for the writer, as on the flash channel.
pub const RESPONSE_CHANNEL_CAPACITY: usize = 64;

/// How many disconnect events may wait for the session.
pub const DISCONNECT_CHANNEL_CAPACITY: usize = 16;

/// The live connections of a session and their notification pumps, by device.
struct Links<C, P> {
    connected: StrMap<C>,
    pumps: StrMap<P>,
}

impl<C, P> Links<C, P> {
    /// No connection.
    fn new() -> (links: Links<C, P>)
        ensures
            links.connected@ == Map::<Seq<char>, C>::empty(),
            links.pumps@ == Map::<Seq<char>, P>::empty(),
    {
        Links { connected: StrMap::new(), pumps: StrMap::new() }
    }
}

/// What a connection remembers between requests. The parameters are handles of the radio (`A`), of
/// a live connection (`C`), of its notification pump (`P`), of a running scan (`S`) and of the
/// watch for disconnects (`W`).
pub struct BleSession<A, C, P, S, W> {
    ble: Option<A>,
    links: Links<C, P>,
    /// Keyed by the starting request's id, which `cancel` targets.
    scans: StrMap<S>,
    /// Started lazily on the first `connect`; shared by every connection.
    disconnect_watch: Option<W>,
}

/// A [`BleSession`] with its registries as maps.
#[verifier::reject_recursive_types(A)]
#[verifier::reject_recursive_types(C)]
#[verifier::reject_recursive_types(P)]
#[verifier::reject_recursive_types(S)]
#[verifier::reject_recursive_types(W)]
pub struct BleSessionView<A, C, P, S, W> {
    pub ble: Option<A>,
    pub connected: Map<Seq<char>, C>,
    pub pumps: Map<Seq<char>, P>,
    pub scans: Map<Seq<char>, S>,
    pub disconnect_watch: Option<W>,
}

impl<A, C, P, S, W> View for BleSession<A, C, P, S, W> {
    type V = BleSessionView<A, C, P, S, W>;

    closed spec fn view(&self) -> BleSessionView<A, C, P, S, W> {
        BleSessionView {
            ble: self.ble,
            connected: self.links.connected@,
            pumps: self.links.pumps@,
            scans: self.scans@,
            disconnect_watch: self.disconnect_watch,
        }
    }
}

impl<A, C, P, S, W> BleSessionView<A, C, P, S, W> {
    /// A device has a notification pump just when it is connected, and while one is, there is a
    /// watch for its disconnect.
    pub open spec fn wf(self) -> bool {
        &&& forall|id: Seq<char>| self.connected.contains_key(id) <==> self.pumps.contains_key(id)
        &&& forall|id: Seq<char>| #[trigger]
            self.connected.contains_key(id) ==> self.disconnect_watch is Some
    }

    /// The session after a device was connected.
    pub open spec fn connecting(self, id: Seq<char>, conn: C, pump: P, watch: W) -> Self {
        BleSessionView {
            connected: self.connected.insert(id, conn),
            pumps: self.pumps.insert(id, pump),
            disconnect_watch: if self.disconnect_watch is Some {
                self.disconnect_watch
            } else {
                Some(watch)
            },
            ..self
        }
    }

    /// The session after a device was disconnected.
    pub open spec fn disconnecting(self, id: Seq<char>) -> Self {
        BleSessionView {
            connected: self.connected.remove(id),
            pumps: self.pumps.remove(id),
            ..self
        }
    }

    /// The session after it was wound down.
    pub open spec fn torn_down(self) -> Self {
        BleSessionView {
            ble: self.ble,
            connected: Map::empty(),
            pumps: Map::empty(),
            scans: Map::empty(),
            disconnect_watch: None,
        }
    }
}

/// What `m` holds under `k`.
pub open spec fn held<T>(m: Map<Seq<char>, T>, k: Seq<char>) -> Option<T> {
    if m.contains_key(k) {
        Some(m[k])
    } else {
        None
    }
}

/// A device that is connected and disconnected again leaves the other connections as they were.
pub proof fn a_disconnect_undoes_a_connect<A, C, P, S, W>(
    session: BleSessionView<A, C, P, S, W>,
    id: Seq<char>,
    conn: C,
    pump: P,
    watch: W,
)
    requires
        session.wf(),
        !session.connected.contains_key(id),
    ensures
        session.connecting(id, conn, pump, watch).wf(),
        session.connecting(id, conn, pump, watch).disconnecting(id).wf(),
        session.connecting(id, conn, pump, watch).disconnecting(id).connected == session.connected,
        session.connecting(id, conn, pump, watch).disconnecting(id).pumps == session.pumps,
        session.connecting(id, conn, pump, watch).disconnecting(id).scans == session.scans,
{
    let after = session.connecting(id, conn, pump, watch).disconnecting(id);
    assert(after.connected =~= session.connected);
    assert(after.pumps =~= session.pumps);
}

/// To disconnect a device twice is to disconnect it once.
pub proof fn disconnecting_again_changes_nothing<A, C, P, S, W>(
    session: BleSessionView<A, C, P, S, W>,
    id: Seq<char>,
)
    ensures
        session.disconnecting(id).disconnecting(id) == session.disconnecting(id),
{
    let once = session.disconnecting(id);
    assert(once.disconnecting(id).connected =~= once.connected);
    assert(once.disconnecting(id).pumps =~= once.pumps);
}

/// What a request leads to. `C`, `P` and `S` are as in [`BleSession`].
pub enum BleAction<C, P, S> {
    /// Register the scan and start it.
    Scan { services: Vec<u128>, name_prefix: Option<String> },
    /// Signal the scan, if it was running. No reply.
    Cancel(Option<S>),
    /// Connect and open the notifications, then [`BleSession::handle_connect`].
    Connect { device_id: String },
    /// Abort the pump and close the connection where there were some, then reply.
    Disconnect { pump: Option<P>, conn: Option<C> },
    /// Write on the connection, then reply.
    Write {
        device_id: String,
        service: u128,
        characteristic: u128,
        bytes: Vec<u8>,
        with_response: bool,
    },
    /// Read on the connection, then reply with [`read_result`].
    Read { device_id: String, service: u128, characteristic: u128 },
    /// Subscribe on the connection, then reply.
    Subscribe { device_id: String, service: u128, characteristic: u128 },
    /// Unsubscribe on the connection, then reply.
    Unsubscribe { device_id: String, service: u128, characteristic: u128 },
}

/// What is said of a text that is no UUID, given the parser's complaint.
pub open spec fn bad_uuid_view(text: Seq<char>, complaint: Seq<char>) -> ErrorView {
    ErrorView::Ble("invalid uuid "@ + text + ": "@ + complaint)
}

/// What a text says as a UUID, given what the parser made of it.
pub open spec fn uuid_or_error(text: Seq<char>, parsed: Result<u128, Seq<char>>) -> Result<u128, ErrorView> {
    match parsed {
        Ok(bits) => Ok(bits),
        Err(complaint) => Err(bad_uuid_view(text, complaint)),
    }
}

/// What a text says as a UUID.
pub open spec fn uuid_of(text: Seq<char>) -> Result<u128, ErrorView> {
    uuid_or_error(text, outside::uuid_value(text))
}

/// A result with its error as a view.
pub open spec fn result_view<T>(r: Result<T, Error>) -> Result<T, ErrorView> {
    match r {
        Ok(v) => Ok(v),
        Err(e) => Err(e@),
    }
}

/// The UUID that was parsed, or the error for the text that is none.
pub fn parsed_uuid(text: &str, parsed: Result<u128, String>) -> (r: Result<u128, Error>)
    ensures
        result_view(r) == uuid_or_error(
            text@,
            match parsed {
                Ok(bits) => Ok(bits),
                Err(complaint) => Err(complaint@),
            },
        ),
{
    match parsed {
        Ok(bits) => Ok(bits),
        Err(complaint) => Err(Error::Ble(cat4("invalid uuid ", text, ": ", complaint.as_str()))),
    }
}

/// Reads a UUID.
pub fn parse_uuid(s: &str) -> (r: Result<u128, Error>)
    ensures
        result_view(r) == uuid_of(s@),
{
    parsed_uuid(s, uuid_parse(s))
}

/// All the UUIDs, or the error of the first text that is none.
pub open spec fn uuids_of(texts: Seq<Seq<char>>) -> Result<Seq<u128>, ErrorView>
    decreases texts.len(),
{
    if texts.len() == 0 {
        Ok(seq![])
    } else {
        match uuids_of(texts.drop_last()) {
            Err(e) => Err(e),
            Ok(earlier) => match uuid_of(texts.last()) {
                Err(e) => Err(e),
                Ok(bits) => Ok(earlier.push(bits)),
            },
        }
    }
}

proof fn lemma_first_error_stays(texts: Seq<Seq<char>>, n: int)
    requires
        0 <= n <= texts.len(),
        uuids_of(texts.take(n)) is Err,
    ensures
        uuids_of(texts) == uuids_of(texts.take(n)),
    decreases texts.len(),
{
    if n == texts.len() {
        assert(texts.take(n) =~= texts);
    } else {
        assert(texts.drop_last().take(n) =~= texts.take(n));
        lemma_first_error_stays(texts.drop_last(), n);
    }
}

/// Reads the UUIDs of a scan's filter, up to the first text that is none.
pub fn parse_uuids(texts: &[String]) -> (r: Result<Vec<u128>, Error>)
    ensures
        match r {
            Ok(bits) => uuids_of(text::texts(texts@)) == Ok::<Seq<u128>, ErrorView>(bits@),
            Err(e) => uuids_of(text::texts(texts@)) == Err::<Seq<u128>, ErrorView>(e@),
        },
{
    let ghost all = text::texts(texts@);
    let mut uuids: Vec<u128> = Vec::new();
    let mut i: usize = 0;
    assert(uuids@ =~= seq![]);
    while i < texts.len()
        invariant
            i <= texts.len(),
            all == text::texts(texts@),
            uuids_of(all.take(i as int)) == Ok::<Seq<u128>, ErrorView>(uuids@),
        decreases texts.len() - i,
    {
        let parsed = parse_uuid(texts[i].as_str());
        proof {
            assert(all.take(i + 1).drop_last() =~= all.take(i as int));
            assert(all.take(i + 1).last() == texts@[i as int]@);
        }
        match parsed {
            Ok(bits) => {
                uuids.push(bits);
            },
            Err(e) => {
                proof {
                    lemma_first_error_stays(all, i + 1);
                }
                return Err(e);
            },
        }
        i += 1;
    }
    assert(all.take(all.len() as int) =~= all);
    Ok(uuids)
}

/// What is said of a device that is not connected.
pub open spec fn not_connected(device_id: Seq<char>) -> ErrorView {
    ErrorView::Ble("device "@ + device_id + " is not connected"@)
}

/// The characteristic that a request names, on a device that must be connected: the device is
/// looked at first, then the service, then the characteristic.
pub open spec fn addressed<C>(
    connected: Map<Seq<char>, C>,
    device_id: Seq<char>,
    service: Seq<char>,
    characteristic: Seq<char>,
) -> Result<(u128, u128), ErrorView> {
    if !connected.contains_key(device_id) {
        Err(not_connected(device_id))
    } else {
        match uuid_of(service) {
            Err(e) => Err(e),
            Ok(s) => match uuid_of(characteristic) {
                Err(e) => Err(e),
                Ok(c) => Ok((s, c)),
            },
        }
    }
}

/// The bytes to write, given what base64 made of the payload.
pub open spec fn payload_or_error(decoded: Result<Seq<u8>, Seq<char>>) -> Result<Seq<u8>, ErrorView> {
    match decoded {
        Ok(bytes) => Ok(bytes),
        Err(complaint) => Err(ErrorView::Ble("invalid base64 write payload: "@ + complaint)),
    }
}

/// The bytes to write, or the error for a payload that is not base64.
pub fn decoded_payload(decoded: Result<Vec<u8>, String>) -> (r: Result<Vec<u8>, Error>)
    ensures
        match r {
            Ok(bytes) => decoded == Ok::<Vec<u8>, String>(bytes),
            Err(e) => decoded matches Err(complaint) && e@ == ErrorView::Ble(
                "invalid base64 write payload: "@ + complaint@,
            ),
        },
{
    match decoded {
        Ok(bytes) => Ok(bytes),
        Err(complaint) => Err(
            Error::Ble(cat("invalid base64 write payload: ", complaint.as_str())),
        ),
    }
}

impl<A, C, P, S, W> BleSession<A, C, P, S, W> {
    #[verifier::type_invariant]
    spec fn in_order(self) -> bool {
        self@.wf()
    }

    /// A session over the radio, if there is one. Without one the session still runs but fails
    /// every request.
    pub fn new(ble: Option<A>) -> (session: BleSession<A, C, P, S, W>)
        ensures
            session@ == (BleSessionView::<A, C, P, S, W> {
                ble,
                connected: Map::empty(),
                pumps: Map::empty(),
                scans: Map::empty(),
                disconnect_watch: None,
            }),
            session@.wf(),
    {
        BleSession {
            ble,
            links: Links::new(),
            scans: StrMap::new(),
            disconnect_watch: None,
        }
    }

    /// The radio, if there is one.
    pub fn ble(&self) -> (ble: Option<&A>)
        ensures
            match ble {
                Some(ble) => self@.ble == Some(*ble),
                None => self@.ble is None,
            },
    {
        self.ble.as_ref()
    }

    /// The live connection to a device.
    pub fn require_connected(&self, device_id: &str) -> (r: Result<&C, Error>)
        ensures
            match r {
                Ok(conn) => held(self@.connected, device_id@) == Some(*conn),
                Err(e) => !self@.connected.contains_key(device_id@) && e@ == not_connected(device_id@),
            },
    {
        match self.links.connected.get(device_id) {
            Some(conn) => Ok(conn),
            None => Err(Error::Ble(cat3("device ", device_id, " is not connected"))),
        }
    }

    /// The characteristic that a request names, on a device that must be connected.
    fn address(&self, device_id: &str, service: &str, characteristic: &str) -> (r: Result<(u128, u128), Error>)
        ensures
            result_view(r) == addressed(self@.connected, device_id@, service@, characteristic@),
    {
        match self.require_connected(device_id) {
            Err(e) => Err(e),
            Ok(_) => match parse_uuid(service) {
                Err(e) => Err(e),
                Ok(service) => match parse_uuid(characteristic) {
                    Err(e) => Err(e),
                    Ok(characteristic) => Ok((service, characteristic)),
                },
            },
        }
    }

    /// Decides what a request leads to. An error becomes the request's terminal reply; of the
    /// requests that succeed, only `cancel` gets none.
    pub fn dispatch(&mut self, body: BleRequestBody, responder: &Responder) -> (r: Result<BleAction<C, P, S>, Error>)
        ensures
            final(self)@.wf(),
            r is Ok ==> (r->Ok_0 is Cancel <==> body is Cancel),
            old(self)@.ble is None ==> {
                &&& r is Err
                &&& r->Err_0@ == ErrorView::Ble("no BLE adapter available"@)
                &&& final(self)@ == old(self)@
            },
            old(self)@.ble is Some ==> match body {
                BleRequestBody::Scan { services, name_prefix } => {
                    &&& final(self)@ == old(self)@
                    &&& match uuids_of(text::texts(services@)) {
                        Ok(bits) => {
                            &&& r matches Ok(BleAction::Scan { services: s, name_prefix: n })
                            &&& s@ == bits
                            &&& n == name_prefix
                        },
                        Err(e) => r is Err && r->Err_0@ == e,
                    }
                },
                BleRequestBody::Cancel {  } => {
                    &&& r == Ok::<BleAction<C, P, S>, Error>(
                        BleAction::Cancel(held(old(self)@.scans, responder@)),
                    )
                    &&& final(self)@ == (BleSessionView::<A, C, P, S, W> {
                        scans: old(self)@.scans.remove(responder@),
                        ..old(self)@
                    })
                },
                BleRequestBody::Connect { device_id } => {
                    &&& final(self)@ == old(self)@
                    &&& r == Ok::<BleAction<C, P, S>, Error>(BleAction::Connect { device_id })
                },
                BleRequestBody::Disconnect { device_id } => {
                    &&& final(self)@ == old(self)@.disconnecting(device_id@)
                    &&& r == Ok::<BleAction<C, P, S>, Error>(
                        BleAction::Disconnect {
                            pump: held(old(self)@.pumps, device_id@),
                            conn: held(old(self)@.connected, device_id@),
                        },
                    )
                },
                BleRequestBody::Write { device_id, service, characteristic, data, with_response } => {
                    &&& final(self)@ == old(self)@
                    &&& match addressed(old(self)@.connected, device_id@, service@, characteristic@) {
                        Err(e) => r is Err && r->Err_0@ == e,
                        Ok((s, c)) => match payload_or_error(outside::base64_bytes(data@)) {
                            Err(e) => r is Err && r->Err_0@ == e,
                            Ok(payload) => {
                                &&& r matches Ok(
                                    BleAction::Write {
                                        device_id: d,
                                        service: rs,
                                        characteristic: rc,
                                        bytes,
                                        with_response: w,
                                    },
                                )
                                &&& d == device_id
                                &&& rs == s
                                &&& rc == c
                                &&& bytes@ == payload
                                &&& w == with_response
                            },
                        },
                    }
                },
                BleRequestBody::Read { device_id, service, characteristic } => {
                    &&& final(self)@ == old(self)@
                    &&& match addressed(old(self)@.connected, device_id@, service@, characteristic@) {
                        Err(e) => r is Err && r->Err_0@ == e,
                        Ok((s, c)) => r == Ok::<BleAction<C, P, S>, Error>(
                            BleAction::Read { device_id, service: s, characteristic: c },
                        ),
                    }
                },
                BleRequestBody::Subscribe { device_id, service, characteristic } => {
                    &&& final(self)@ == old(self)@
                    &&& match addressed(old(self)@.connected, device_id@, service@, characteristic@) {
                        Err(e) => r is Err && r->Err_0@ == e,
                        Ok((s, c)) => r == Ok::<BleAction<C, P, S>, Error>(
                            BleAction::Subscribe { device_id, service: s, characteristic: c },
                        ),
                    }
                },
                BleRequestBody::Unsubscribe { device_id, service, characteristic } => {
                    &&& final(self)@ == old(self)@
                    &&& match addressed(old(self)@.connected, device_id@, service@, characteristic@) {
                        Err(e) => r is Err && r->Err_0@ == e,
                        Ok((s, c)) => r == Ok::<BleAction<C, P, S>, Error>(
                            BleAction::Unsubscribe { device_id, service: s, characteristic: c },
                        ),
                    }
                },
            },
    {
        proof {
            use_type_invariant(&*self);
        }
        if self.ble.is_none() {
            return Err(Error::Ble("no BLE adapter available".to_owned()));
        }
        match body {
            BleRequestBody::Scan { services, name_prefix } => match parse_uuids(services.as_slice()) {
                Ok(services) => Ok(BleAction::Scan { services, name_prefix }),
                Err(e) => Err(e),
            },
            // Removed here, not by the scan, to keep every change of `scans` on this path.
            BleRequestBody::Cancel {  } => {
                let mut scans: StrMap<S> = StrMap::new();
                std::mem::swap(&mut scans, &mut self.scans);
                let scan = scans.remove(responder.id());
                self.scans = scans;
                Ok(BleAction::Cancel(scan))
            },
            BleRequestBody::Connect { device_id } => Ok(BleAction::Connect { device_id }),
            BleRequestBody::Disconnect { device_id } => {
                let mut links: Links<C, P> = Links::new();
                std::mem::swap(&mut links, &mut self.links);
                let pump = links.pumps.remove(device_id.as_str());
                let conn = links.connected.remove(device_id.as_str());
                self.links = links;
                Ok(BleAction::Disconnect { pump, conn })
            },
            BleRequestBody::Write { device_id, service, characteristic, data, with_response } => {
                match self.address(device_id.as_str(), service.as_str(), characteristic.as_str()) {
                    Err(e) => Err(e),
                    Ok((service, characteristic)) => match decoded_payload(base64_decode(data.as_str())) {
                        Err(e) => Err(e),
                        Ok(bytes) => Ok(
                            BleAction::Write { device_id, service, characteristic, bytes, with_response },
                        ),
                    },
                }
            },
            BleRequestBody::Read { device_id, service, characteristic } => {
                match self.address(device_id.as_str(), service.as_str(), characteristic.as_str()) {
                    Err(e) => Err(e),
                    Ok((service, characteristic)) => Ok(
                        BleAction::Read { device_id, service, characteristic },
                    ),
                }
            },
            BleRequestBody::Subscribe { device_id, service, characteristic } => {
                match self.address(device_id.as_str(), service.as_str(), characteristic.as_str()) {
                    Err(e) => Err(e),
                    Ok((service, characteristic)) => Ok(
                        BleAction::Subscribe { device_id, service, characteristic },
                    ),
                }
            },
            BleRequestBody::Unsubscribe { device_id, service, characteristic } => {
                match self.address(device_id.as_str(), service.as_str(), characteristic.as_str()) {
                    Err(e) => Err(e),
                    Ok((service, characteristic)) => Ok(
                        BleAction::Unsubscribe { device_id, service, characteristic },
                    ),
                }
            },
        }
    }

    /// Registers a scan under the id of the request that started it.
    pub fn handle_scan(&mut self, responder: &Responder, scan: S)
        ensures
            final(self)@.wf(),
            final(self)@ == (BleSessionView::<A, C, P, S, W> {
                scans: old(self)@.scans.insert(responder@, scan),
                ..old(self)@
            }),
    {
        proof {
            use_type_invariant(&*self);
        }
        let mut scans: StrMap<S> = StrMap::new();
        std::mem::swap(&mut scans, &mut self.scans);
        scans.insert(responder.id().to_owned(), scan);
        self.scans = scans;
    }

    /// Whether the watch for disconnects is still to be started.
    pub fn needs_disconnect_watch(&self) -> (r: bool)
        ensures
            r == self@.disconnect_watch is None,
    {
        self.disconnect_watch.is_none()
    }

    /// Takes a new connection in, with its pump, and with the watch for disconnects unless one
    /// runs. Returns the pump that a reconnect under the same id orphaned, to be aborted, and the
    /// reply.
    pub fn handle_connect(&mut self, device_id: String, conn: C, pump: P, watch: Option<W>) -> (r: (Option<P>, BleResult))
        requires
            old(self)@.disconnect_watch is Some || watch is Some,
        ensures
            final(self)@.wf(),
            final(self)@ == old(self)@.connecting(device_id@, conn, pump, watch->0),
            r.0 == held(old(self)@.pumps, device_id@),
            r.1@ == (BleResultView::Connected { device_id: device_id@ }),
    {
        proof {
            use_type_invariant(&*self);
        }
        if self.disconnect_watch.is_none() {
            self.disconnect_watch = watch;
        }
        let mut links: Links<C, P> = Links::new();
        std::mem::swap(&mut links, &mut self.links);
        links.connected.insert(device_id.clone(), conn);
        let orphan = links.pumps.insert(device_id.clone(), pump);
        self.links = links;
        (orphan, BleResult::Connected { device_id })
    }

    /// A peripheral went away. Disconnect events are radio-wide, so ids that this session never
    /// connected are ignored; else returns the pump to abort and the notice to send.
    pub fn handle_peripheral_disconnect(&mut self, device_id: String) -> (r: Option<(Option<P>, BleResponse)>)
        ensures
            final(self)@.wf(),
            final(self)@ == old(self)@.disconnecting(device_id@),
            match r {
                Some((pump, notice)) => {
                    &&& old(self)@.connected.contains_key(device_id@)
                    &&& pump == held(old(self)@.pumps, device_id@)
                    &&& notice@ == (BleResponseView {
                        id: seq![],
                        body: BleResponseBodyView::Disconnected { device_id: device_id@ },
                    })
                },
                None => !old(self)@.connected.contains_key(device_id@) && final(self)@ == old(self)@,
            },
    {
        proof {
            use_type_invariant(&*self);
        }
        if !self.links.connected.contains(device_id.as_str()) {
            assert(old(self)@.connected.remove(device_id@) =~= old(self)@.connected);
            assert(old(self)@.pumps.remove(device_id@) =~= old(self)@.pumps);
            return None;
        }
        let mut links: Links<C, P> = Links::new();
        std::mem::swap(&mut links, &mut self.links);
        links.connected.remove(device_id.as_str());
        let pump = links.pumps.remove(device_id.as_str());
        self.links = links;
        let notice = BleResponse {
            id: String::new(),
            body: BleResponseBody::Disconnected { device_id },
        };
        assert(notice@.id =~= seq![]);
        Some((pump, notice))
    }

    /// Winds the session down: hands over everything that is to be aborted, cancelled or
    /// disconnected, and leaves none of it behind. Scans release the radio themselves; to stop it
    /// here could end the scan of another session.
    pub fn teardown(&mut self) -> (r: BleTeardown<C, P, S, W>)
        ensures
            final(self)@.wf(),
            final(self)@ == old(self)@.torn_down(),
            r.watch == old(self)@.disconnect_watch,
            strmap::lists_values(old(self)@.pumps, r.pumps@),
            strmap::lists_values(old(self)@.scans, r.scans@),
            strmap::lists_values(old(self)@.connected, r.conns@),
    {
        proof {
            use_type_invariant(&*self);
        }
        let mut links: Links<C, P> = Links::new();
        std::mem::swap(&mut links, &mut self.links);
        let mut scans: StrMap<S> = StrMap::new();
        std::mem::swap(&mut scans, &mut self.scans);
        let mut watch: Option<W> = None;
        std::mem::swap(&mut watch, &mut self.disconnect_watch);
        let pumps = links.pumps.drain();
        let scans = scans.drain();
        let conns = links.connected.drain();
        BleTeardown { watch, pumps, scans, conns }
    }
}

/// What a session that ends leaves to wind down.
pub struct BleTeardown<C, P, S, W> {
    pub watch: Option<W>,
    pub pumps: Vec<P>,
    pub scans: Vec<S>,
    pub conns: Vec<C>,
}

/// The body that tells of an error.
pub open spec fn error_body_view(error: ErrorView) -> BleResponseBodyView {
    BleResponseBodyView::Error { code: error.code(), message: error.message() }
}

/// The terminal reply to a request: its result, or its error.
pub fn reply(outcome: Result<BleResult, Error>) -> (body: BleResponseBody)
    ensures
        body@ == (match outcome {
            Ok(result) => BleResponseBodyView::Result(result@),
            Err(e) => error_body_view(e@),
        }),
        body@.is_terminal(),
{
    match outcome {
        Ok(result) => BleResponseBody::Result(result),
        Err(e) => BleResponseBody::Error { code: e.code().to_owned(), message: e.message() },
    }
}

/// The result of a read, which decodes to the bytes that were read.
pub fn read_result(data: &[u8]) -> (r: BleResult)
    ensures
        r@ == (BleResultView::Data { data: outside::base64_text(data@) }),
        outside::base64_bytes(outside::base64_text(data@)) == Ok::<Seq<u8>, Seq<char>>(data@),
{
    BleResult::Data { data: base64_encode(data) }
}

/// The response that passes a notification on. It belongs to no request, and its data decodes to
/// the bytes that the peripheral sent.
pub fn notify(device_id: &str, notification: Notification) -> (r: BleResponse)
    ensures
        r@ == (BleResponseView {
            id: seq![],
            body: BleResponseBodyView::Notify {
                device_id: device_id@,
                characteristic: notification.characteristic@,
                data: outside::base64_text(notification.data@),
            },
        }),
        outside::base64_bytes(outside::base64_text(notification.data@)) == Ok::<Seq<u8>, Seq<char>>(
            notification.data@,
        ),
{
    let r = BleResponse {
        id: String::new(),
        body: BleResponseBody::Notify {
            device_id: device_id.to_owned(),
            characteristic: notification.characteristic,
            data: base64_encode(notification.data.as_slice()),
        },
    };
    assert(r@.id =~= seq![]);
    r
}

/// The answer to text that is no envelope. It has no id to correlate against.
pub fn malformed_envelope(reason: &str) -> (r: BleResponse)
    ensures
        r@ == (BleResponseView {
            id: seq![],
            body: BleResponseBodyView::Error {
                code: "invalidRequest"@,
                message: "malformed envelope: "@ + reason@,
            },
        }),
{
    let r = BleResponse {
        id: String::new(),
        body: BleResponseBody::Error {
            code: "invalidRequest".to_owned(),
            message: cat("malformed envelope: ", reason),
        },
    };
    assert(r@.id =~= seq![]);
    r
}

/// What a scan can come to next. A cancellation ends it; so does the radio.
pub enum ScanEvent {
    NotStarted(Error),
    Cancelled,
    Found(Device),
    Ended,
}

/// What a scan does next.
pub enum ScanStep {
    /// Send the body and go on.
    Emit(BleResponseBody),
    /// Release the radio where `release` says so, send the body, and the scan is done.
    Finish { release: bool, body: BleResponseBody },
}

/// A [`ScanStep`] with its texts as character sequences.
pub enum ScanStepView {
    Emit(BleResponseBodyView),
    Finish { release: bool, body: BleResponseBodyView },
}

impl View for ScanStep {
    type V = ScanStepView;

    open spec fn view(&self) -> ScanStepView {
        match self {
            ScanStep::Emit(body) => ScanStepView::Emit(body@),
            ScanStep::Finish { release, body } => ScanStepView::Finish {
                release: *release,
                body: body@,
            },
        }
    }
}

/// What a scan does next.
pub open spec fn scan_step_view(event: ScanEvent) -> ScanStepView {
    match event {
        ScanEvent::NotStarted(e) => ScanStepView::Finish {
            release: false,
            body: error_body_view(e@),
        },
        ScanEvent::Found(device) => ScanStepView::Emit(
            BleResponseBodyView::Device {
                device_id: device.id@,
                name: text::opt_text(device.name),
                rssi: device.rssi,
            },
        ),
        ScanEvent::Cancelled => ScanStepView::Finish {
            release: true,
            body: BleResponseBodyView::Result(BleResultView::Empty),
        },
        ScanEvent::Ended => ScanStepView::Finish {
            release: true,
            body: BleResponseBodyView::Result(BleResultView::Empty),
        },
    }
}

/// Decides what a scan tells the editor next, and whether it lets go of the radio. A scan that the
/// radio ended is still released and still gets its terminal reply.
pub fn scan_step(event: ScanEvent) -> (step: ScanStep)
    ensures
        step@ == scan_step_view(event),
{
    match event {
        ScanEvent::NotStarted(e) => ScanStep::Finish { release: false, body: reply(Err(e)) },
        ScanEvent::Found(device) => ScanStep::Emit(
            BleResponseBody::Device { device_id: device.id, name: device.name, rssi: device.rssi },
        ),
        ScanEvent::Cancelled | ScanEvent::Ended => ScanStep::Finish {
            release: true,
            body: reply(Ok(BleResult::Empty)),
        },
    }
}

/// Whether a scan that came to `events` is done, and what it told the editor. Nothing that comes
/// after its end counts.
pub open spec fn scan_told(events: Seq<ScanEvent>) -> (bool, Seq<BleResponseBodyView>)
    decreases events.len(),
{
    if events.len() == 0 {
        (false, seq![])
    } else {
        let (done, bodies) = scan_told(events.drop_last());
        if done {
            (done, bodies)
        } else {
            match scan_step_view(events.last()) {
                ScanStepView::Emit(body) => (false, bodies.push(body)),
                ScanStepView::Finish { release, body } => (true, bodies.push(body)),
            }
        }
    }
}

/// A scan tells the editor one terminal reply, as its last word, and it is done once it was
/// cancelled, ended by the radio or could not start.
pub proof fn a_scan_has_one_terminal_reply(events: Seq<ScanEvent>)
    ensures
        scan_told(events).0 <==> exists|i: int| 0 <= i < events.len() && !(#[trigger] events[i] is Found),
        scan_told(events).0 ==> scan_told(events).1.len() > 0 && scan_told(events).1.last().is_terminal(),
        forall|i: int|
            0 <= i < scan_told(events).1.len() && (#[trigger] scan_told(events).1[i]).is_terminal()
                ==> scan_told(events).0 && i == scan_told(events).1.len() - 1,
    decreases events.len(),
{
    if events.len() > 0 {
        let earlier = events.drop_last();
        a_scan_has_one_terminal_reply(earlier);
        assert forall|i: int| 0 <= i < earlier.len() implies earlier[i] == events[i] by {}
        if scan_told(earlier).0 {
            let i = choose|i: int| 0 <= i < earlier.len() && !(#[trigger] earlier[i] is Found);
            assert(!(events[i] is Found));
        } else {
            assert(events.last() == events[events.len() - 1]);
            if events.last() is Found {
                assert forall|i: int| 0 <= i < events.len() implies #[trigger] events[i] is Found by {
                    if i < earlier.len() {
                        assert(earlier[i] is Found);
                    }
                }
            }
        }
    }
}

/// What a session can come to next: something on the socket, or a peripheral that went away.
pub enum IoEvent {
    Text(String),
    Binary,
    Ping,
    Pong,
    Close,
    Failed,
    Ended,
    PeripheralGone(String),
}

/// What the session does next.
pub enum IoStep {
    /// Handle an envelope.
    Handle(String),
    /// Handle a disconnect.
    PeripheralGone(String),
    /// Go on.
    Ignore,
    /// Wind the session down.
    Stop,
}

/// Decides on what the session came to: text is an envelope, a close, a failure or the end of the
/// stream ends the session, and other frames are ignored.
pub fn on_event(event: IoEvent) -> (step: IoStep)
    ensures
        step == (match event {
            IoEvent::Text(text) => IoStep::Handle(text),
            IoEvent::PeripheralGone(device_id) => IoStep::PeripheralGone(device_id),
            IoEvent::Binary => IoStep::Ignore,
            IoEvent::Ping => IoStep::Ignore,
            IoEvent::Pong => IoStep::Ignore,
            IoEvent::Close => IoStep::Stop,
            IoEvent::Failed => IoStep::Stop,
            IoEvent::Ended => IoStep::Stop,
        }),
{
    match event {
        IoEvent::Text(text) => IoStep::Handle(text),
        IoEvent::PeripheralGone(device_id) => IoStep::PeripheralGone(device_id),
        IoEvent::Binary | IoEvent::Ping | IoEvent::Pong => IoStep::Ignore,
        IoEvent::Close | IoEvent::Failed | IoEvent::Ended => IoStep::Stop,
    }
}

/// A request names a characteristic just where its device is connected and both its texts are UUIDs.
pub proof fn a_characteristic_is_named_by_two_uuids<C>(
    connected: Map<Seq<char>, C>,
    device_id: Seq<char>,
    service: Seq<char>,
    characteristic: Seq<char>,
    s: u128,
    c: u128,
)
    ensures
        addressed(connected, device_id, service, characteristic) == Ok::<(u128, u128), ErrorView>((s, c)) <==> {
            &&& connected.contains_key(device_id)
            &&& outside::uuid_value(service) == Ok::<u128, Seq<char>>(s)
            &&& outside::uuid_value(characteristic) == Ok::<u128, Seq<char>>(c)
        },
{
}

/// What is said of a request that names none: that the device is not connected; else that the
/// service is no UUID; else that the characteristic is none, each with the parser's complaint.
pub proof fn a_bad_address_is_told_why<C>(
    connected: Map<Seq<char>, C>,
    device_id: Seq<char>,
    service: Seq<char>,
    characteristic: Seq<char>,
)
    ensures
        !connected.contains_key(device_id) ==> addressed(connected, device_id, service, characteristic) == Err::<
            (u128, u128),
            ErrorView,
        >(ErrorView::Ble("device "@ + device_id + " is not connected"@)),
        outside::uuid_value(service) matches Err(complaint) ==> connected.contains_key(device_id) ==> addressed(
            connected,
            device_id,
            service,
            characteristic,
        ) == Err::<(u128, u128), ErrorView>(ErrorView::Ble("invalid uuid "@ + service + ": "@ + complaint)),
        outside::uuid_value(characteristic) matches Err(complaint) ==> connected.contains_key(device_id)
            && outside::uuid_value(service) is Ok ==> addressed(connected, device_id, service, characteristic) == Err::<
            (u128, u128),
            ErrorView,
        >(ErrorView::Ble("invalid uuid "@ + characteristic + ": "@ + complaint)),
{
}

/// A scan's filter is read text by text: it is read just where every text is a UUID, and holds them
/// in order.
pub proof fn a_filter_is_read_text_by_text(texts: Seq<Seq<char>>, bits: Seq<u128>)
    ensures
        uuids_of(texts) == Ok::<Seq<u128>, ErrorView>(bits) <==> {
            &&& bits.len() == texts.len()
            &&& forall|i: int|
                0 <= i < texts.len() ==> outside::uuid_value(#[trigger] texts[i]) == Ok::<u128, Seq<char>>(bits[i])
        },
    decreases texts.len(),
{
    if texts.len() == 0 {
        if bits.len() == 0 {
            assert(bits =~= seq![]);
        }
    } else {
        let earlier = texts.drop_last();
        assert(texts[texts.len() - 1] == texts.last());
        assert forall|i: int| 0 <= i < earlier.len() implies #[trigger] earlier[i] == texts[i] by {}
        if uuids_of(texts) == Ok::<Seq<u128>, ErrorView>(bits) {
            let front = uuids_of(earlier)->Ok_0;
            a_filter_is_read_text_by_text(earlier, front);
            assert forall|i: int| 0 <= i < texts.len() implies outside::uuid_value(#[trigger] texts[i]) == Ok::<
                u128,
                Seq<char>,
            >(bits[i]) by {
                if i < earlier.len() {
                    assert(outside::uuid_value(earlier[i]) == Ok::<u128, Seq<char>>(front[i]));
                }
            }
        }
        if bits.len() == texts.len() && forall|i: int|
            0 <= i < texts.len() ==> outside::uuid_value(#[trigger] texts[i]) == Ok::<u128, Seq<char>>(bits[i]) {
            let front = bits.drop_last();
            assert forall|i: int| 0 <= i < earlier.len() implies outside::uuid_value(#[trigger] earlier[i]) == Ok::<
                u128,
                Seq<char>,
            >(front[i]) by {
                assert(outside::uuid_value(texts[i]) == Ok::<u128, Seq<char>>(bits[i]));
            }
            a_filter_is_read_text_by_text(earlier, front);
            assert(outside::uuid_value(texts.last()) == Ok::<u128, Seq<char>>(bits.last()));
            assert(front.push(bits.last()) =~= bits);
        }
    }
}

/// The first text of a filter that is no UUID is the one that is told of.
pub proof fn the_first_bad_uuid_is_told(texts: Seq<Seq<char>>, n: int)
    requires
        0 <= n < texts.len(),
        forall|i: int| 0 <= i < n ==> outside::uuid_value(#[trigger] texts[i]) is Ok,
        outside::uuid_value(texts[n]) is Err,
    ensures
        uuids_of(texts) == Err::<Seq<u128>, ErrorView>(
            ErrorView::Ble("invalid uuid "@ + texts[n] + ": "@ + outside::uuid_value(texts[n])->Err_0),
        ),
{
    let front = texts.take(n);
    let bits = Seq::new(n as nat, |i: int| outside::uuid_value(texts[i])->Ok_0);
    assert forall|i: int| 0 <= i < front.len() implies outside::uuid_value(#[trigger] front[i]) == Ok::<u128, Seq<char>>(
        bits[i],
    ) by {
        assert(outside::uuid_value(texts[i]) is Ok);
    }
    a_filter_is_read_text_by_text(front, bits);
    assert(texts.take(n + 1).drop_last() =~= front);
    assert(texts.take(n + 1).last() == texts[n]);
    lemma_first_error_stays(texts, n + 1);
}

/// What is written is what the payload decodes to; a payload that does not decode is refused with
/// the decoder's complaint.
pub proof fn a_payload_is_what_it_decodes_to(decoded: Result<Seq<u8>, Seq<char>>)
    ensures
        decoded matches Ok(bytes) ==> payload_or_error(decoded) == Ok::<Seq<u8>, ErrorView>(bytes),
        decoded matches Err(complaint) ==> payload_or_error(decoded) == Err::<Seq<u8>, ErrorView>(
            ErrorView::Ble("invalid base64 write payload: "@ + complaint),
        ),
{
}

/// To connect a device adds that device, with its connection and its pump, and changes no other; the
/// scans stay, and so does a watch that runs.
pub proof fn a_connect_touches_one_device<A, C, P, S, W>(
    session: BleSessionView<A, C, P, S, W>,
    id: Seq<char>,
    conn: C,
    pump: P,
    watch: W,
    other: Seq<char>,
)
    ensures
        ({
            let after = session.connecting(id, conn, pump, watch);
            &&& held(after.connected, id) == Some(conn)
            &&& held(after.pumps, id) == Some(pump)
            &&& other != id ==> held(after.connected, other) == held(session.connected, other)
            &&& other != id ==> held(after.pumps, other) == held(session.pumps, other)
            &&& after.scans == session.scans
            &&& after.ble == session.ble
            &&& session.disconnect_watch is Some ==> after.disconnect_watch == session.disconnect_watch
            &&& session.disconnect_watch is None ==> after.disconnect_watch == Some(watch)
        }),
{
}

/// To disconnect a device takes its connection and its pump away, and touches nothing else.
pub proof fn a_disconnect_touches_one_device<A, C, P, S, W>(
    session: BleSessionView<A, C, P, S, W>,
    id: Seq<char>,
    other: Seq<char>,
)
    ensures
        ({
            let after = session.disconnecting(id);
            &&& !after.connected.contains_key(id)
            &&& !after.pumps.contains_key(id)
            &&& other != id ==> held(after.connected, other) == held(session.connected, other)
            &&& other != id ==> held(after.pumps, other) == held(session.pumps, other)
            &&& after.scans == session.scans
            &&& after.ble == session.ble
            &&& after.disconnect_watch == session.disconnect_watch
        }),
{
}

/// A session that was wound down has no connection, no pump, no scan and no watch.
pub proof fn nothing_outlives_a_session<A, C, P, S, W>(session: BleSessionView<A, C, P, S, W>, id: Seq<char>)
    ensures
        !session.torn_down().connected.contains_key(id),
        !session.torn_down().pumps.contains_key(id),
        !session.torn_down().scans.contains_key(id),
        session.torn_down().disconnect_watch is None,
{
}

/// What a map holds under a key is the value that is there, and nothing where the key is not.
pub proof fn a_map_holds_its_values<T>(m: Map<Seq<char>, T>, k: Seq<char>)
    ensures
        m.contains_key(k) ==> held(m, k) == Some(m[k]),
        !m.contains_key(k) ==> held(m, k) is None,
{
}

/// A scan tells of each device as it was seen, ends with the empty result once it was cancelled or the
/// radio ended it, and lets go of the radio just where it had it.
pub proof fn a_scan_tells_what_it_comes_to(event: ScanEvent)
    ensures
        event matches ScanEvent::Found(device) ==> {
            &&& scan_step_view(event) matches ScanStepView::Emit(BleResponseBodyView::Device { device_id, name, rssi })
            &&& device_id == device.id@
            &&& name is Some <==> device.name is Some
            &&& device.name matches Some(n) ==> name == Some(n@)
            &&& rssi == device.rssi
        },
        event is Cancelled || event is Ended ==> scan_step_view(event) == (ScanStepView::Finish {
            release: true,
            body: BleResponseBodyView::Result(BleResultView::Empty),
        }),
        event matches ScanEvent::NotStarted(e) ==> scan_step_view(event) == (ScanStepView::Finish {
            release: false,
            body: BleResponseBodyView::Error { code: e@.code(), message: e@.message() },
        }),
{
}

/// Without a radio every request fails, and nothing changes.
pub proof fn nothing_works_without_a_radio<A, C, P, S, W>(
    session: &mut BleSession<A, C, P, S, W>,
    body: BleRequestBody,
    responder: &Responder,
    r: Result<BleAction<C, P, S>, Error>,
)
    requires
        call_ensures(BleSession::<A, C, P, S, W>::dispatch, (session, body, responder), r),
        old(session)@.ble is None,
    ensures
        r matches Err(e) && e@.code() == "ble"@,
        final(session)@ == old(session)@,
{
}

/// What is written goes to the device that was named, on the characteristic that the two UUIDs name,
/// as the bytes that the payload decodes to, and in the way that was asked for.
pub proof fn a_write_carries_its_payload<A, C, P, S, W>(
    session: &mut BleSession<A, C, P, S, W>,
    device_id: String,
    service: String,
    characteristic: String,
    data: String,
    with_response: bool,
    responder: &Responder,
    r: Result<BleAction<C, P, S>, Error>,
)
    requires
        call_ensures(
            BleSession::<A, C, P, S, W>::dispatch,
            (session, BleRequestBody::Write { device_id, service, characteristic, data, with_response }, responder),
            r,
        ),
        old(session)@.ble is Some,
    ensures
        final(session)@ == old(session)@,
        r is Ok <==> {
            &&& old(session)@.connected.contains_key(device_id@)
            &&& outside::uuid_value(service@) is Ok
            &&& outside::uuid_value(characteristic@) is Ok
            &&& outside::base64_bytes(data@) is Ok
        },
        r matches Ok(action) ==> {
            &&& action matches BleAction::Write { device_id: d, service: s, characteristic: c, bytes, with_response: w }
            &&& d == device_id
            &&& outside::uuid_value(service@) == Ok::<u128, Seq<char>>(s)
            &&& outside::uuid_value(characteristic@) == Ok::<u128, Seq<char>>(c)
            &&& outside::base64_bytes(data@) == Ok::<Seq<u8>, Seq<char>>(bytes@)
            &&& w == with_response
        },
        r matches Err(e) ==> e@.code() == "ble"@,
{
}

/// Whether a request names a connected device and a characteristic.
pub open spec fn names_a_characteristic<C>(
    connected: Map<Seq<char>, C>,
    device_id: Seq<char>,
    service: Seq<char>,
    characteristic: Seq<char>,
) -> bool {
    &&& connected.contains_key(device_id)
    &&& outside::uuid_value(service) is Ok
    &&& outside::uuid_value(characteristic) is Ok
}

/// A read, a subscription and its end go to the device and the characteristic that were named, and to
/// no other.
pub proof fn a_characteristic_request_goes_where_it_says<A, C, P, S, W>(
    session: &mut BleSession<A, C, P, S, W>,
    body: BleRequestBody,
    responder: &Responder,
    r: Result<BleAction<C, P, S>, Error>,
)
    requires
        call_ensures(BleSession::<A, C, P, S, W>::dispatch, (session, body, responder), r),
        old(session)@.ble is Some,
    ensures
        body matches BleRequestBody::Read { device_id, service, characteristic } ==> {
            &&& r is Ok <==> names_a_characteristic(old(session)@.connected, device_id@, service@, characteristic@)
            &&& r matches Ok(action) ==> {
                &&& action matches BleAction::Read { device_id: d, service: s, characteristic: c }
                &&& d == device_id
                &&& outside::uuid_value(service@) == Ok::<u128, Seq<char>>(s)
                &&& outside::uuid_value(characteristic@) == Ok::<u128, Seq<char>>(c)
            }
        },
        body matches BleRequestBody::Subscribe { device_id, service, characteristic } ==> {
            &&& r is Ok <==> names_a_characteristic(old(session)@.connected, device_id@, service@, characteristic@)
            &&& r matches Ok(action) ==> {
                &&& action matches BleAction::Subscribe { device_id: d, service: s, characteristic: c }
                &&& d == device_id
                &&& outside::uuid_value(service@) == Ok::<u128, Seq<char>>(s)
                &&& outside::uuid_value(characteristic@) == Ok::<u128, Seq<char>>(c)
            }
        },
        body matches BleRequestBody::Unsubscribe { device_id, service, characteristic } ==> {
            &&& r is Ok <==> names_a_characteristic(old(session)@.connected, device_id@, service@, characteristic@)
            &&& r matches Ok(action) ==> {
                &&& action matches BleAction::Unsubscribe { device_id: d, service: s, characteristic: c }
                &&& d == device_id
                &&& outside::uuid_value(service@) == Ok::<u128, Seq<char>>(s)
                &&& outside::uuid_value(characteristic@) == Ok::<u128, Seq<char>>(c)
            }
        },
        body is Read || body is Subscribe || body is Unsubscribe ==> final(session)@ == old(session)@,
{
}

/// A scan asks the radio for the services and the name that were asked for, and starts just where
/// every service is a UUID.
pub proof fn a_scan_asks_for_what_was_asked<A, C, P, S, W>(
    session: &mut BleSession<A, C, P, S, W>,
    services: Vec<String>,
    name_prefix: Option<String>,
    responder: &Responder,
    r: Result<BleAction<C, P, S>, Error>,
)
    requires
        call_ensures(
            BleSession::<A, C, P, S, W>::dispatch,
            (session, BleRequestBody::Scan { services, name_prefix }, responder),
            r,
        ),
        old(session)@.ble is Some,
    ensures
        final(session)@ == old(session)@,
        r matches Ok(action) ==> {
            &&& action matches BleAction::Scan { services: bits, name_prefix: n }
            &&& n == name_prefix
            &&& bits@.len() == services@.len()
            &&& forall|i: int|
                0 <= i < services@.len() ==> outside::uuid_value((#[trigger] services@[i])@) == Ok::<u128, Seq<char>>(
                    bits@[i],
                )
        },
        (forall|i: int| 0 <= i < services@.len() ==> outside::uuid_value((#[trigger] services@[i])@) is Ok) ==> r is Ok,
{
    let texts = text::texts(services@);
    assert(texts.len() == services@.len());
    if r is Ok {
        let bits = r->Ok_0->Scan_services@;
        a_filter_is_read_text_by_text(texts, bits);
        assert forall|i: int| 0 <= i < services@.len() implies outside::uuid_value((#[trigger] services@[i])@) == Ok::<
            u128,
            Seq<char>,
        >(bits[i]) by {
            assert(texts[i] == services@[i]@);
        }
    }
    if forall|i: int| 0 <= i < services@.len() ==> outside::uuid_value((#[trigger] services@[i])@) is Ok {
        let bits = Seq::new(texts.len(), |i: int| outside::uuid_value(texts[i])->Ok_0);
        assert forall|i: int| 0 <= i < texts.len() implies outside::uuid_value(#[trigger] texts[i]) == Ok::<
            u128,
            Seq<char>,
        >(bits[i]) by {
            assert(texts[i] == services@[i]@);
        }
        a_filter_is_read_text_by_text(texts, bits);
    }
}

/// A `cancel` hands over the scan that was started under its own id, and no other; the connections
/// stay.
pub proof fn a_cancel_reaches_its_own_scan<A, C, P, S, W>(
    session: &mut BleSession<A, C, P, S, W>,
    responder: &Responder,
    r: Result<BleAction<C, P, S>, Error>,
    other: Seq<char>,
)
    requires
        call_ensures(BleSession::<A, C, P, S, W>::dispatch, (session, BleRequestBody::Cancel {  }, responder), r),
        old(session)@.ble is Some,
    ensures
        old(session)@.scans.contains_key(responder@) ==> r == Ok::<BleAction<C, P, S>, Error>(
            BleAction::Cancel(Some(old(session)@.scans[responder@])),
        ),
        !old(session)@.scans.contains_key(responder@) ==> r == Ok::<BleAction<C, P, S>, Error>(BleAction::Cancel(None)),
        !final(session)@.scans.contains_key(responder@),
        other != responder@ ==> held(final(session)@.scans, other) == held(old(session)@.scans, other),
        final(session)@.connected == old(session)@.connected,
        final(session)@.pumps == old(session)@.pumps,
{
}

/// A `disconnect` hands over the connection and the pump of its own device, and leaves the other
/// devices connected.
pub proof fn a_disconnect_reaches_its_own_device<A, C, P, S, W>(
    session: &mut BleSession<A, C, P, S, W>,
    device_id: String,
    responder: &Responder,
    r: Result<BleAction<C, P, S>, Error>,
    other: Seq<char>,
)
    requires
        call_ensures(
            BleSession::<A, C, P, S, W>::dispatch,
            (session, BleRequestBody::Disconnect { device_id }, responder),
            r,
        ),
        old(session)@.ble is Some,
    ensures
        r matches Ok(BleAction::Disconnect { pump, conn }) && {
            &&& conn is Some <==> old(session)@.connected.contains_key(device_id@)
            &&& conn matches Some(c) ==> c == old(session)@.connected[device_id@]
            &&& pump is Some <==> old(session)@.pumps.contains_key(device_id@)
            &&& pump matches Some(p) ==> p == old(session)@.pumps[device_id@]
        },
        !final(session)@.connected.contains_key(device_id@),
        other != device_id@ ==> held(final(session)@.connected, other) == held(old(session)@.connected, other),
        final(session)@.scans == old(session)@.scans,
{
}

/// A reconnect hands over the pump that it displaces, and the reply names the device.
pub proof fn a_connect_is_told_and_displaces_its_own_pump<A, C, P, S, W>(
    session: &mut BleSession<A, C, P, S, W>,
    device_id: String,
    conn: C,
    pump: P,
    watch: Option<W>,
    r: (Option<P>, BleResult),
    other: Seq<char>,
)
    requires
        call_ensures(BleSession::<A, C, P, S, W>::handle_connect, (session, device_id, conn, pump, watch), r),
        old(session)@.disconnect_watch is Some || watch is Some,
    ensures
        r.0 is Some <==> old(session)@.pumps.contains_key(device_id@),
        r.0 matches Some(p) ==> p == old(session)@.pumps[device_id@],
        r.1 matches BleResult::Connected { device_id: d } && d@ == device_id@,
        held(final(session)@.connected, device_id@) == Some(conn),
        held(final(session)@.pumps, device_id@) == Some(pump),
        other != device_id@ ==> held(final(session)@.connected, other) == held(old(session)@.connected, other),
        final(session)@.disconnect_watch is Some,
{
}

/// A peripheral that went away is told of just where this session had it, by its id and under no
/// request's.
pub proof fn a_lost_peripheral_is_told_where_it_was_connected<A, C, P, S, W>(
    session: &mut BleSession<A, C, P, S, W>,
    device_id: String,
    r: Option<(Option<P>, BleResponse)>,
)
    requires
        call_ensures(BleSession::<A, C, P, S, W>::handle_peripheral_disconnect, (session, device_id), r),
    ensures
        r is Some <==> old(session)@.connected.contains_key(device_id@),
        r matches Some((pump, notice)) ==> {
            &&& notice.id@.len() == 0
            &&& notice.body matches BleResponseBody::Disconnected { device_id: d } && d@ == device_id@
            &&& pump matches Some(p) ==> held(old(session)@.pumps, device_id@) == Some(p)
        },
        !final(session)@.connected.contains_key(device_id@),
{
}

/// What is read and what a peripheral sends reaches the editor as base64 text that decodes to the same
/// bytes, a notification with the device and the characteristic that it came from.
pub proof fn bytes_reach_the_editor_unchanged(
    data: &[u8],
    read: BleResult,
    device_id: &str,
    notification: Notification,
    told: BleResponse,
)
    requires
        call_ensures(read_result, (data,), read),
        call_ensures(notify, (device_id, notification), told),
    ensures
        read matches BleResult::Data { data: text } && outside::base64_bytes(text@) == Ok::<Seq<u8>, Seq<char>>(data@),
        told.id@.len() == 0,
        told.body matches BleResponseBody::Notify { device_id: d, characteristic, data: text } && {
            &&& d@ == device_id@
            &&& characteristic@ == notification.characteristic@
            &&& outside::base64_bytes(text@) == Ok::<Seq<u8>, Seq<char>>(notification.data@)
        },
{
    assert(read@ == (BleResultView::Data { data: outside::base64_text(data@) }));
    assert(told@.id == told.id@);
    assert(told@.body == told.body@);
}

/// The reply to a request is its result, or its error by code and message.
pub proof fn a_request_is_answered_with_its_outcome(outcome: Result<BleResult, Error>, body: BleResponseBody)
    requires
        call_ensures(reply, (outcome,), body),
    ensures
        outcome matches Ok(result) ==> (body matches BleResponseBody::Result(told) && told@ == result@),
        outcome matches Err(e) ==> (body matches BleResponseBody::Error { code, message } && code@ == e@.code() && message@
            == e@.message()),
{
}

/// A session that ends hands over everything that it had to wind down.
pub proof fn a_session_hands_over_all_it_had<A, C, P, S, W>(
    session: &mut BleSession<A, C, P, S, W>,
    r: BleTeardown<C, P, S, W>,
    id: Seq<char>,
)
    requires
        call_ensures(BleSession::<A, C, P, S, W>::teardown, (session,), r),
    ensures
        r.watch == old(session)@.disconnect_watch,
        old(session)@.connected.contains_key(id) ==> r.conns@.contains(old(session)@.connected[id]),
        old(session)@.pumps.contains_key(id) ==> r.pumps@.contains(old(session)@.pumps[id]),
        old(session)@.scans.contains_key(id) ==> r.scans@.contains(old(session)@.scans[id]),
        r.conns@.len() == old(session)@.connected.dom().len(),
        r.pumps@.len() == old(session)@.pumps.dom().len(),
        r.scans@.len() == old(session)@.scans.dom().len(),
        !final(session)@.connected.contains_key(id),
        !final(session)@.pumps.contains_key(id),
        !final(session)@.scans.contains_key(id),
        final(session)@.disconnect_watch is None,
{
    strmap::a_listing_has_every_value(old(session)@.connected, r.conns@);
    strmap::a_listing_has_every_value(old(session)@.pumps, r.pumps@);
    strmap::a_listing_has_every_value(old(session)@.scans, r.scans@);
}

/// A text is read as a UUID just where the parser takes it, as the UUID that the parser made of it.
pub proof fn a_uuid_is_what_the_parser_made_of_it(s: &str, r: Result<u128, Error>)
    requires
        call_ensures(parse_uuid, (s,), r),
    ensures
        r matches Ok(bits) ==> outside::uuid_value(s@) == Ok::<u128, Seq<char>>(bits),
        r matches Err(e) ==> outside::uuid_value(s@) is Err && e@.code() == "ble"@,
{
}

/// What a scan sends is what it came to.
pub proof fn a_scan_sends_what_it_came_to(event: ScanEvent, step: ScanStep)
    requires
        call_ensures(scan_step, (event,), step),
    ensures
        event matches ScanEvent::Found(device) ==> (step matches ScanStep::Emit(
            BleResponseBody::Device { device_id, rssi, .. },
        ) && device_id@ == device.id@ && rssi == device.rssi),
        event is Cancelled || event is Ended <==> (step matches ScanStep::Finish { release, body } && release),
        event is Cancelled || event is Ended <==> (step matches ScanStep::Finish { body, .. } && body is Result),
        event matches ScanEvent::NotStarted(e) ==> (step matches ScanStep::Finish { release, body: BleResponseBody::Error { code, message } }
            && !release && code@ == e@.code() && message@ == e@.message()),
{
}

} // verus!
