//! One editor connection on the flash channel: what it remembers between requests, and how its
//! writer batches streamed text.

use vstd::prelude::*;

use crate::error::Error;
use crate::server::batch;
use crate::server::batch::{is_batchable, push_coalesced};
use crate::server::protocol;
use crate::server::protocol::{Response, ResponseBody, ResponseBodyView, ResponseView};
use crate::strmap;
use crate::strmap::StrMap;
use crate::text::cat;

verus! {

/// How many responses may wait for the writer.
pub const RESPONSE_CHANNEL_CAPACITY: usize = 64;

/// How long streamed text may wait for more, in milliseconds.
pub const BATCH_COOLDOWN_MS: u64 = 100;

/// The requests that can still be cancelled, each with its cancellation handle.
pub type InFlight<T> = StrMap<T>;

/// What a connection remembers between requests. `M` is the handle of an open monitor, `B` that of
/// the scratch directory.
pub struct Session<M, B> {
    pub selected_port: Option<String>,
    /// Session-scoped: a compiled artifact must survive until a later `upload` reads it.
    pub temp_base: Option<B>,
    pub monitor: Option<M>,
}

impl<M, B> Session<M, B> {
    /// A connection with no port selected, no scratch directory and no monitor.
    pub fn new() -> (session: Session<M, B>)
        ensures
            session == (Session::<M, B> { selected_port: None, temp_base: None, monitor: None }),
    {
        Session { selected_port: None, temp_base: None, monitor: None }
    }

    /// Keeps the scratch directory that is there, else takes `fresh` for it.
    pub fn ensure_temp_base(&mut self, fresh: Option<B>) -> (base: &B)
        requires
            old(self).temp_base is Some || fresh is Some,
        ensures
            *final(self) == (Session::<M, B> {
                temp_base: if old(self).temp_base is Some { old(self).temp_base } else { fresh },
                ..*old(self)
            }),
            Some(*base) == final(self).temp_base,
    {
        if self.temp_base.is_none() {
            self.temp_base = fresh;
        }
        self.temp_base.as_ref().unwrap()
    }

    /// Records the port that `connect` named.
    pub fn select_port(&mut self, port: String)
        ensures
            *final(self) == (Session::<M, B> { selected_port: Some(port), ..*old(self) }),
    {
        self.selected_port = Some(port);
    }

    /// Forgets the selected port.
    pub fn clear_port(&mut self)
        ensures
            *final(self) == (Session::<M, B> { selected_port: None, ..*old(self) }),
    {
        self.selected_port = None;
    }

    /// Whether a monitor is open.
    pub fn has_monitor(&self) -> (r: bool)
        ensures
            r == self.monitor is Some,
    {
        self.monitor.is_some()
    }

    /// Remembers the monitor that was opened.
    pub fn set_monitor(&mut self, monitor: M)
        ensures
            *final(self) == (Session::<M, B> { monitor: Some(monitor), ..*old(self) }),
    {
        self.monitor = Some(monitor);
    }

    /// The open monitor, through which commands reach it.
    pub fn monitor_cmd_tx(&self) -> (r: Option<&M>)
        ensures
            match r {
                Some(m) => self.monitor == Some(*m),
                None => self.monitor is None,
            },
    {
        self.monitor.as_ref()
    }

    /// Forgets the open monitor and hands it over to be wound down.
    pub fn close_monitor(&mut self) -> (monitor: Option<M>)
        ensures
            monitor == old(self).monitor,
            *final(self) == (Session::<M, B> { monitor: None, ..*old(self) }),
    {
        self.monitor.take()
    }
}

/// Ends a connection: hands over the monitor to wind down and every cancellation handle to
/// signal, and leaves neither behind.
pub fn teardown<M, B, T>(session: &mut Session<M, B>, in_flight: &mut InFlight<T>) -> (r: (Option<M>, Vec<T>))
    ensures
        r.0 == old(session).monitor,
        *final(session) == (Session::<M, B> { monitor: None, ..*old(session) }),
        strmap::lists_values(old(in_flight)@, r.1@),
        final(in_flight)@ == Map::<Seq<char>, T>::empty(),
{
    let monitor = session.close_monitor();
    let tokens = in_flight.drain();
    (monitor, tokens)
}

/// What a receive on the connection can yield.
pub enum Incoming {
    Text(String),
    Binary,
    Ping,
    Pong,
    Close,
    Failed,
    Ended,
}

/// What the read loop does next.
pub enum ReadStep {
    /// Handle an envelope.
    Handle(String),
    /// Read on.
    Ignore,
    /// Leave the loop.
    Stop,
}

/// Decides on what was received: text is an envelope, a close, a failure or the end of the stream
/// ends the session, and anything else is ignored.
pub fn on_incoming(incoming: Incoming) -> (step: ReadStep)
    ensures
        step == (match incoming {
            Incoming::Text(text) => ReadStep::Handle(text),
            Incoming::Binary => ReadStep::Ignore,
            Incoming::Ping => ReadStep::Ignore,
            Incoming::Pong => ReadStep::Ignore,
            Incoming::Close => ReadStep::Stop,
            Incoming::Failed => ReadStep::Stop,
            Incoming::Ended => ReadStep::Stop,
        }),
{
    match incoming {
        Incoming::Text(text) => ReadStep::Handle(text),
        Incoming::Binary | Incoming::Ping | Incoming::Pong => ReadStep::Ignore,
        Incoming::Close | Incoming::Failed | Incoming::Ended => ReadStep::Stop,
    }
}

/// The answer to text that is no envelope. It has no id to correlate against.
pub fn malformed_envelope(reason: &str) -> (r: Response)
    ensures
        r@ == (ResponseView {
            id: seq![],
            body: ResponseBodyView::Error {
                code: "invalidRequest"@,
                message: "malformed envelope: "@ + reason@,
            },
        }),
{
    let r = Response {
        id: String::new(),
        body: ResponseBody::Error {
            code: "invalidRequest".to_owned(),
            message: cat("malformed envelope: ", reason),
        },
    };
    assert(r@.id =~= seq![]);
    r
}

/// The `error` body that tells of `error`.
pub open spec fn error_body_view(error: crate::error::ErrorView) -> ResponseBodyView {
    ResponseBodyView::Error { code: error.code(), message: error.message() }
}

/// The `error` body that tells of `error`.
pub fn error_body(error: &Error) -> (body: ResponseBody)
    ensures
        body@ == error_body_view(error@),
{
    ResponseBody::Error { code: error.code().to_owned(), message: error.message() }
}

/// The writer of a connection: streamed text waits in `buf` until `flush_at`, on the
/// connection's millisecond clock.
pub struct Writer {
    pub buf: Vec<Response>,
    pub flush_at: Option<u64>,
}

/// A [`Writer`] with its texts as character sequences.
pub struct WriterView {
    pub buf: Seq<ResponseView>,
    pub flush_at: Option<u64>,
}

impl View for Writer {
    type V = WriterView;

    open spec fn view(&self) -> WriterView {
        WriterView { buf: protocol::response_views(self.buf@), flush_at: self.flush_at }
    }
}

impl WriterView {
    /// A writer with nothing to write.
    pub open spec fn idle() -> WriterView {
        WriterView { buf: seq![], flush_at: None }
    }

    /// Only text waits, none of it could still merge, and there is a deadline just when
    /// something waits.
    pub open spec fn wf(self) -> bool {
        &&& forall|i: int| 0 <= i < self.buf.len() ==> batch::batchable((#[trigger] self.buf[i]).body)
        &&& batch::fully_coalesced(self.buf)
        &&& self.flush_at is Some <==> self.buf.len() > 0
    }

    /// The writer after `event`, and the responses that it sends at once.
    pub open spec fn step(self, event: WriterEvent) -> (WriterView, Seq<ResponseView>) {
        match event {
            WriterEvent::Received(response, now) => if batch::batchable(response.body) {
                let flush_at = if self.flush_at is Some {
                    self.flush_at
                } else {
                    Some((now + BATCH_COOLDOWN_MS) as u64)
                };
                (WriterView { buf: batch::coalesced(self.buf, response), flush_at }, seq![])
            } else {
                (WriterView::idle(), self.buf.push(response))
            },
            WriterEvent::Tick => (WriterView::idle(), self.buf),
            WriterEvent::Closed => (WriterView::idle(), self.buf),
        }
    }
}

/// What happens to a writer: a response comes in at some time, the deadline passes, or the last
/// sender is gone.
pub enum WriterEvent {
    Received(ResponseView, u64),
    Tick,
    Closed,
}

/// The writer after `events`, and all that it sent.
pub open spec fn written(events: Seq<WriterEvent>) -> (WriterView, Seq<ResponseView>)
    decreases events.len(),
{
    if events.len() == 0 {
        (WriterView::idle(), seq![])
    } else {
        let (before, sent) = written(events.drop_last());
        let (after, more) = before.step(events.last());
        (after, sent + more)
    }
}

/// The responses that came in, in order.
pub open spec fn received(events: Seq<WriterEvent>) -> Seq<ResponseView>
    decreases events.len(),
{
    if events.len() == 0 {
        seq![]
    } else {
        let before = received(events.drop_last());
        match events.last() {
            WriterEvent::Received(response, _) => before.push(response),
            _ => before,
        }
    }
}

impl Writer {
    /// A writer with nothing to write.
    pub fn new() -> (w: Writer)
        ensures
            w@ == WriterView::idle(),
            w@.wf(),
    {
        let w = Writer { buf: Vec::new(), flush_at: None };
        assert(w@.buf =~= seq![]);
        w
    }

    /// Hands over what waits, and waits for nothing.
    fn flush(&mut self) -> (sent: Vec<Response>)
        ensures
            final(self)@ == WriterView::idle(),
            sent@ == old(self).buf@,
    {
        let mut sent: Vec<Response> = Vec::new();
        std::mem::swap(&mut sent, &mut self.buf);
        self.flush_at = None;
        assert(self@.buf =~= seq![]);
        sent
    }

    /// Takes a response in at `now` and hands over what is to be sent at once: nothing for
    /// streamed text, else all that waits and then the response.
    pub fn receive(&mut self, response: Response, now: u64) -> (sent: Vec<Response>)
        requires
            old(self)@.wf(),
            now + BATCH_COOLDOWN_MS <= u64::MAX,
        ensures
            final(self)@.wf(),
            final(self)@ == old(self)@.step(WriterEvent::Received(response@, now)).0,
            protocol::response_views(sent@) == old(self)@.step(WriterEvent::Received(response@, now)).1,
    {
        proof {
            lemma_step_keeps_wf(self@, WriterEvent::Received(response@, now));
        }
        if is_batchable(&response.body) {
            push_coalesced(&mut self.buf, response);
            if self.flush_at.is_none() {
                self.flush_at = Some(now + BATCH_COOLDOWN_MS);
            }
            let sent: Vec<Response> = Vec::new();
            assert(protocol::response_views(sent@) =~= seq![]);
            sent
        } else {
            let mut sent = self.flush();
            sent.push(response);
            assert(protocol::response_views(sent@) =~= old(self)@.buf.push(response@));
            sent
        }
    }

    /// The deadline has passed: hands over what waits.
    pub fn tick(&mut self) -> (sent: Vec<Response>)
        requires
            old(self)@.wf(),
        ensures
            final(self)@.wf(),
            final(self)@ == old(self)@.step(WriterEvent::Tick).0,
            protocol::response_views(sent@) == old(self)@.step(WriterEvent::Tick).1,
    {
        self.flush()
    }

    /// The last sender is gone: hands over what waits.
    pub fn close(&mut self) -> (sent: Vec<Response>)
        requires
            old(self)@.wf(),
        ensures
            final(self)@.wf(),
            final(self)@ == old(self)@.step(WriterEvent::Closed).0,
            protocol::response_views(sent@) == old(self)@.step(WriterEvent::Closed).1,
    {
        self.flush()
    }
}

proof fn lemma_step_keeps_wf(w: WriterView, event: WriterEvent)
    requires
        w.wf(),
    ensures
        w.step(event).0.wf(),
{
    if let WriterEvent::Received(response, now) = event {
        if batch::batchable(response.body) {
            batch::coalescing_is_complete(w.buf, response);
        }
    }
}

/// Text waits no longer than the cooldown: the first to wait sets the deadline, and what joins it
/// never puts the deadline off.
pub proof fn a_deadline_is_never_put_off(w: WriterView, response: ResponseView, now: u64)
    requires
        w.wf(),
        batch::batchable(response.body),
        now + BATCH_COOLDOWN_MS <= u64::MAX,
    ensures
        ({
            let after = w.step(WriterEvent::Received(response, now)).0;
            after.flush_at == if w.buf.len() > 0 {
                w.flush_at
            } else {
                Some((now + BATCH_COOLDOWN_MS) as u64)
            }
        }),
{
}

/// A writer is in order whatever happens to it.
pub proof fn writer_stays_in_order(events: Seq<WriterEvent>)
    ensures
        written(events).0.wf(),
    decreases events.len(),
{
    if events.len() > 0 {
        writer_stays_in_order(events.drop_last());
        lemma_step_keeps_wf(written(events.drop_last()).0, events.last());
    }
}

/// At every moment, what was sent and what still waits tell the editor just what came in: no
/// text is lost, doubled or moved past another response.
pub proof fn writer_keeps_every_atom(events: Seq<WriterEvent>)
    ensures
        batch::atoms(written(events).1) + batch::atoms(written(events).0.buf) == batch::atoms(received(events)),
    decreases events.len(),
{
    if events.len() == 0 {
        assert(batch::atoms(written(events).1) + batch::atoms(written(events).0.buf) =~= batch::atoms(received(events)));
    } else {
        let earlier = events.drop_last();
        writer_keeps_every_atom(earlier);
        let (before, sent) = written(earlier);
        let (after, more) = before.step(events.last());
        batch::lemma_atoms_concat(sent, more);
        assert(batch::atoms(Seq::<ResponseView>::empty()) =~= seq![]);
        match events.last() {
            WriterEvent::Received(response, _) => {
                let came = received(earlier);
                assert(came.push(response).drop_last() =~= came);
                assert(batch::atoms(came.push(response)) == batch::atoms(came) + batch::atoms_of(response));
                if batch::batchable(response.body) {
                    batch::coalescing_keeps_every_atom(before.buf, response);
                    assert(sent + more =~= sent);
                    assert(batch::atoms(sent) + (batch::atoms(before.buf) + batch::atoms_of(response)) =~= (batch::atoms(sent) + batch::atoms(before.buf)) + batch::atoms_of(response));
                } else {
                    assert(before.buf.push(response).drop_last() =~= before.buf);
                    assert(batch::atoms(sent) + (batch::atoms(before.buf) + batch::atoms_of(response)) =~= (batch::atoms(sent) + batch::atoms(before.buf)) + batch::atoms_of(response));
                    assert((batch::atoms(sent) + batch::atoms(more)) + seq![] =~= batch::atoms(sent) + batch::atoms(more));
                }
            },
            _ => {
                assert((batch::atoms(sent) + batch::atoms(more)) + seq![] =~= batch::atoms(sent) + batch::atoms(more));
            },
        }
    }
}

/// Once the last sender is gone, the editor has been told everything that came in.
pub proof fn writer_ends_with_everything_sent(events: Seq<WriterEvent>)
    requires
        events.len() > 0,
        events.last() is Closed,
    ensures
        batch::atoms(written(events).1) == batch::atoms(received(events)),
        written(events).0 == WriterView::idle(),
{
    writer_keeps_every_atom(events);
    assert(batch::atoms(written(events).1) + seq![] =~= batch::atoms(written(events).1));
}

/// A response that is no streamed text goes out at once, behind all that waited, and leaves nothing
/// waiting.
pub proof fn what_is_no_text_goes_out_at_once(w: WriterView, response: ResponseView, now: u64)
    requires
        !(response.body is Log) && !(response.body is MonitorData),
    ensures
        w.step(WriterEvent::Received(response, now)).1 == w.buf.push(response),
        w.step(WriterEvent::Received(response, now)).0.buf.len() == 0,
        w.step(WriterEvent::Received(response, now)).0.flush_at is None,
{
}

/// Streamed text waits: nothing goes out with it, and the first to wait is due a tenth of a second
/// later.
pub proof fn text_waits_a_tenth_of_a_second(w: WriterView, response: ResponseView, now: u64)
    requires
        w.wf(),
        response.body is Log || response.body is MonitorData,
        now + 100 <= u64::MAX,
    ensures
        w.step(WriterEvent::Received(response, now)).1.len() == 0,
        w.buf.len() == 0 ==> w.step(WriterEvent::Received(response, now)).0.buf == seq![response],
        w.buf.len() == 0 ==> w.step(WriterEvent::Received(response, now)).0.flush_at == Some((now + 100) as u64),
        w.buf.len() > 0 ==> w.step(WriterEvent::Received(response, now)).0.flush_at == w.flush_at,
{
    if w.buf.len() == 0 {
        assert(batch::coalesced(w.buf, response) =~= seq![response]);
    }
}

/// When the deadline passes or the last sender is gone, all that waits goes out, and nothing waits.
pub proof fn what_waits_goes_out_in_the_end(w: WriterView)
    ensures
        w.step(WriterEvent::Tick).1 == w.buf,
        w.step(WriterEvent::Tick).0.buf.len() == 0,
        w.step(WriterEvent::Tick).0.flush_at is None,
        w.step(WriterEvent::Closed).1 == w.buf,
        w.step(WriterEvent::Closed).0.buf.len() == 0,
        w.step(WriterEvent::Closed).0.flush_at is None,
{
}

/// The editor is told of an error by its code and its message.
pub proof fn an_error_is_told_by_code_and_message(error: crate::error::ErrorView)
    ensures
        error_body_view(error) matches ResponseBodyView::Error { code, message } && code == error.code() && message
            == error.message(),
{
}

/// A connection keeps the scratch directory that it has, and takes the fresh one only where it has
/// none.
pub proof fn a_scratch_directory_is_kept<M, B>(session: &mut Session<M, B>, fresh: Option<B>, base: &B)
    requires
        old(session).temp_base is Some || fresh is Some,
        call_ensures(Session::<M, B>::ensure_temp_base, (session, fresh), base),
    ensures
        old(session).temp_base is Some ==> final(session).temp_base == old(session).temp_base,
        old(session).temp_base is None ==> final(session).temp_base == fresh,
        final(session).temp_base == Some(*base),
        final(session).monitor == old(session).monitor,
        final(session).selected_port == old(session).selected_port,
{
}

/// A connection that ends hands over its monitor and every request in flight, and leaves none behind.
pub proof fn a_connection_hands_over_all_it_had<M, B, T>(
    session: &mut Session<M, B>,
    in_flight: &mut InFlight<T>,
    r: (Option<M>, Vec<T>),
    id: Seq<char>,
)
    requires
        call_ensures(teardown::<M, B, T>, (session, in_flight), r),
    ensures
        r.0 == old(session).monitor,
        final(session).monitor is None,
        old(in_flight)@.contains_key(id) ==> r.1@.contains(old(in_flight)@[id]),
        r.1@.len() == old(in_flight)@.dom().len(),
        !final(in_flight)@.contains_key(id),
{
    strmap::a_listing_has_every_value(old(in_flight)@, r.1@);
}

/// A response that is no streamed text goes out at once and last, and what waited goes out before it.
pub proof fn a_reply_is_not_held_back(w: &mut Writer, response: Response, now: u64, sent: Vec<Response>)
    requires
        old(w)@.wf(),
        now + BATCH_COOLDOWN_MS <= u64::MAX,
        call_ensures(Writer::receive, (w, response, now), sent),
        !(response.body is Log) && !(response.body is MonitorData),
    ensures
        sent@.len() == old(w).buf@.len() + 1,
        forall|i: int| 0 <= i < old(w).buf@.len() ==> (#[trigger] sent@[i])@ == old(w).buf@[i]@,
        sent@.last()@ == response@,
        final(w)@.buf.len() == 0,
{
    let out = protocol::response_views(sent@);
    what_is_no_text_goes_out_at_once(old(w)@, response@, now);
    assert(out == old(w)@.buf.push(response@));
    assert(out.len() == sent@.len());
    assert(old(w)@.buf.len() == old(w).buf@.len());
    assert forall|i: int| 0 <= i < old(w).buf@.len() implies (#[trigger] sent@[i])@ == old(w).buf@[i]@ by {
        assert(out[i] == sent@[i]@);
    }
    assert(out[sent@.len() - 1] == sent@.last()@);
}

/// A message of the editor is handled, and only the end of the connection stops the reading.
pub proof fn a_connection_is_read_to_its_end(incoming: Incoming, step: ReadStep)
    requires
        call_ensures(on_incoming, (incoming,), step),
    ensures
        incoming matches Incoming::Text(text) ==> step == ReadStep::Handle(text),
        step is Handle <==> incoming is Text,
        step is Stop <==> incoming is Close || incoming is Failed || incoming is Ended,
{
}

/// Text that is no envelope is answered under no id, as a bad request, with the reason.
pub proof fn a_malformed_envelope_is_answered(reason: &str, r: Response)
    requires
        call_ensures(malformed_envelope, (reason,), r),
    ensures
        r.id@.len() == 0,
        r.body matches ResponseBody::Error { code, message } && code@ == "invalidRequest"@ && reason@.is_suffix_of(message@),
{
    assert(r@.body == r.body@);
    assert(r@.id == r.id@);
    let words = r.body->Error_message@;
    assert(words.subrange(words.len() - reason@.len(), words.len() as int) =~= reason@);
}

/// Streamed text goes out with nothing, waits behind what waits already, and sets the deadline a tenth
/// of a second ahead where nothing waited.
pub proof fn text_is_held_back_for_a_tenth_of_a_second(w: &mut Writer, response: Response, now: u64, sent: Vec<Response>)
    requires
        old(w)@.wf(),
        now + BATCH_COOLDOWN_MS <= u64::MAX,
        call_ensures(Writer::receive, (w, response, now), sent),
        response.body is Log || response.body is MonitorData,
    ensures
        sent@.len() == 0,
        old(w).buf@.len() == 0 ==> final(w).buf@.len() == 1 && final(w).buf@[0]@ == response@,
        old(w).buf@.len() == 0 ==> final(w).flush_at == Some((now + 100) as u64),
        old(w).buf@.len() > 0 ==> final(w).flush_at == old(w).flush_at,
{
    text_waits_a_tenth_of_a_second(old(w)@, response@, now);
    assert(protocol::response_views(sent@).len() == sent@.len());
    assert(old(w)@.buf.len() == old(w).buf@.len());
    assert(final(w)@.buf.len() == final(w).buf@.len());
    if old(w).buf@.len() == 0 {
        assert(final(w)@.buf[0] == final(w).buf@[0]@);
    }
}

} // verus!
