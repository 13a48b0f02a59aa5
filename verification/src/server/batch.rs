//! Coalesces streamed `log`/`monitorData` chunks per `id`; chunk boundaries aren't significant to
//! the editor.

use vstd::prelude::*;

use crate::server::protocol;
use crate::server::protocol::{Response, ResponseBody, ResponseBodyView, ResponseView};
use crate::text::same;

verus! {

/// Whether a body is streamed text, which may wait in the buffer.
pub open spec fn batchable(body: ResponseBodyView) -> bool {
    body is Log || body is MonitorData
}

/// Whether a body is streamed text, which may wait in the buffer.
pub fn is_batchable(body: &ResponseBody) -> (r: bool)
    ensures
        r == batchable(body@),
{
    match body {
        ResponseBody::Log { .. } => true,
        ResponseBody::MonitorData { .. } => true,
        _ => false,
    }
}

/// The one response that stands for `a` and, right behind it, `b`: text of the same kind for the
/// same request.
pub open spec fn merged(a: ResponseView, b: ResponseView) -> Option<ResponseView> {
    if a.id != b.id {
        None
    } else {
        match (a.body, b.body) {
            (ResponseBodyView::Log { chunk }, ResponseBodyView::Log { chunk: more }) => Some(
                ResponseView { id: a.id, body: ResponseBodyView::Log { chunk: chunk + more } },
            ),
            (ResponseBodyView::MonitorData { data }, ResponseBodyView::MonitorData { data: more }) => Some(
                ResponseView { id: a.id, body: ResponseBodyView::MonitorData { data: data + more } },
            ),
            _ => None,
        }
    }
}

/// The buffer with one more response, which joins the last one where the two merge.
pub open spec fn coalesced(buf: Seq<ResponseView>, resp: ResponseView) -> Seq<ResponseView> {
    if buf.len() > 0 && merged(buf.last(), resp) is Some {
        buf.drop_last().push(merged(buf.last(), resp)->0)
    } else {
        buf.push(resp)
    }
}

/// Whether no two neighbours in the buffer could still merge.
pub open spec fn fully_coalesced(buf: Seq<ResponseView>) -> bool {
    forall|i: int| 0 <= i < buf.len() - 1 ==> merged(#[trigger] buf[i], buf[i + 1]) is None
}

/// Buffers `resp`, joined to the last response where the two merge.
pub fn push_coalesced(buf: &mut Vec<Response>, resp: Response)
    ensures
        protocol::response_views(final(buf)@) == coalesced(protocol::response_views(old(buf)@), resp@),
{
    let ghost before = protocol::response_views(buf@);
    match buf.pop() {
        None => {
            buf.push(resp);
            assert(protocol::response_views(buf@) =~= coalesced(before, resp@));
        },
        Some(last) => {
            assert(before.last() == last@);
            assert(protocol::response_views(buf@) =~= before.drop_last());
            let ghost (a, b) = (last@, resp@);
            if same(last.id.as_str(), resp.id.as_str()) {
                let Response { id, body: last_body } = last;
                match (last_body, resp.body) {
                    (ResponseBody::Log { mut chunk }, ResponseBody::Log { chunk: more }) => {
                        chunk.push_str(more.as_str());
                        buf.push(Response { id, body: ResponseBody::Log { chunk } });
                    },
                    (
                        ResponseBody::MonitorData { mut data },
                        ResponseBody::MonitorData { data: more },
                    ) => {
                        data.push_str(more.as_str());
                        buf.push(Response { id, body: ResponseBody::MonitorData { data } });
                    },
                    (last_body, body) => {
                        buf.push(Response { id, body: last_body });
                        buf.push(Response { id: resp.id, body });
                    },
                }
            } else {
                buf.push(last);
                buf.push(resp);
            }
            assert(protocol::response_views(buf@) =~= coalesced(before, b));
        },
    }
}

/// The smallest things that the editor can tell apart: a character of a request's log, one of its
/// monitor data, or a whole response of another kind.
pub enum Atom {
    Log(Seq<char>, char),
    Monitor(Seq<char>, char),
    Whole(ResponseView),
}

/// One character of a request's log.
pub open spec fn log_atom(id: Seq<char>, c: char) -> Atom {
    Atom::Log(id, c)
}

/// One character of a request's monitor data.
pub open spec fn monitor_atom(id: Seq<char>, c: char) -> Atom {
    Atom::Monitor(id, c)
}

/// The atoms of log text.
pub open spec fn log_atoms(id: Seq<char>, text: Seq<char>) -> Seq<Atom> {
    text.map_values(|c: char| log_atom(id, c))
}

/// The atoms of monitor text.
pub open spec fn monitor_atoms(id: Seq<char>, text: Seq<char>) -> Seq<Atom> {
    text.map_values(|c: char| monitor_atom(id, c))
}

/// What one response tells the editor, atom by atom.
pub open spec fn atoms_of(resp: ResponseView) -> Seq<Atom> {
    match resp.body {
        ResponseBodyView::Log { chunk } => log_atoms(resp.id, chunk),
        ResponseBodyView::MonitorData { data } => monitor_atoms(resp.id, data),
        _ => seq![Atom::Whole(resp)],
    }
}

/// What a sequence of responses tells the editor, atom by atom.
pub open spec fn atoms(responses: Seq<ResponseView>) -> Seq<Atom>
    decreases responses.len(),
{
    if responses.len() == 0 {
        seq![]
    } else {
        atoms(responses.drop_last()) + atoms_of(responses.last())
    }
}

/// What two sequences tell one behind the other is what they tell together.
pub proof fn lemma_atoms_concat(a: Seq<ResponseView>, b: Seq<ResponseView>)
    ensures
        atoms(a + b) == atoms(a) + atoms(b),
    decreases b.len(),
{
    if b.len() == 0 {
        assert(a + b =~= a);
        assert(atoms(a) + atoms(b) =~= atoms(a));
    } else {
        lemma_atoms_concat(a, b.drop_last());
        assert((a + b).drop_last() =~= a + b.drop_last());
        assert((a + b).last() == b.last());
        assert(atoms(a + b) =~= atoms(a) + atoms(b));
    }
}

/// Coalescing loses no text, adds none and changes no order: the buffer tells what it told
/// before, then what the new response tells.
pub proof fn coalescing_keeps_every_atom(buf: Seq<ResponseView>, resp: ResponseView)
    ensures
        atoms(coalesced(buf, resp)) == atoms(buf) + atoms_of(resp),
{
    let after = coalesced(buf, resp);
    assert(after.drop_last() == if buf.len() > 0 && merged(buf.last(), resp) is Some {
        buf.drop_last()
    } else {
        buf
    });
    if buf.len() > 0 && merged(buf.last(), resp) is Some {
        match (buf.last().body, resp.body) {
            (ResponseBodyView::Log { chunk }, ResponseBodyView::Log { chunk: more }) => {
                let id = resp.id;
                assert(log_atoms(id, chunk + more) =~= log_atoms(id, chunk) + log_atoms(id, more));
            },
            (ResponseBodyView::MonitorData { data }, ResponseBodyView::MonitorData { data: more }) => {
                let id = resp.id;
                assert(monitor_atoms(id, data + more) =~= monitor_atoms(id, data) + monitor_atoms(id, more));
            },
            _ => {},
        }
        assert(atoms(after) =~= atoms(buf) + atoms_of(resp));
    }
}

/// Coalescing leaves nothing that could still merge, where there was nothing before.
pub proof fn coalescing_is_complete(buf: Seq<ResponseView>, resp: ResponseView)
    requires
        fully_coalesced(buf),
    ensures
        fully_coalesced(coalesced(buf, resp)),
{
    let after = coalesced(buf, resp);
    assert forall|i: int| 0 <= i < after.len() - 1 implies merged(#[trigger] after[i], after[i + 1]) is None by {
        if i + 1 < buf.len() {
            assert(merged(buf[i], buf[i + 1]) is None);
        }
    }
}

/// Two responses join just where they are text of one kind for one request: both of a log, or both
/// of a monitor. Their text then stands one behind the other.
pub proof fn only_text_of_one_request_joins(a: ResponseView, b: ResponseView)
    ensures
        merged(a, b) is Some <==> a.id == b.id && ((a.body is Log && b.body is Log) || (a.body is MonitorData
            && b.body is MonitorData)),
        merged(a, b) matches Some(joined) ==> {
            &&& joined.id == a.id
            &&& a.body matches ResponseBodyView::Log { chunk: x } ==> b.body matches ResponseBodyView::Log { chunk: y }
                ==> joined.body == (ResponseBodyView::Log { chunk: x + y })
            &&& a.body matches ResponseBodyView::MonitorData { data: x } ==> b.body matches ResponseBodyView::MonitorData {
                data: y,
            } ==> joined.body == (ResponseBodyView::MonitorData { data: x + y })
        },
{
}

/// A response that joins the last one leaves the others as they are; one that does not is put behind
/// them all.
pub proof fn a_response_joins_only_the_last(buf: Seq<ResponseView>, resp: ResponseView)
    ensures
        coalesced(buf, resp).len() == if buf.len() > 0 && merged(buf.last(), resp) is Some {
            buf.len()
        } else {
            buf.len() + 1
        },
        forall|i: int| 0 <= i < buf.len() - 1 ==> #[trigger] coalesced(buf, resp)[i] == buf[i],
        buf.len() > 0 && merged(buf.last(), resp) is None ==> coalesced(buf, resp)[buf.len() - 1] == buf.last(),
        buf.len() == 0 || merged(buf.last(), resp) is None ==> coalesced(buf, resp).last() == resp,
        buf.len() > 0 && merged(buf.last(), resp) is Some ==> coalesced(buf, resp).last() == merged(buf.last(), resp)->0,
{
}

/// Streamed text is all that may wait: the text of a log and of a monitor.
pub proof fn only_streamed_text_may_wait(body: ResponseBody)
    ensures
        batchable(body@) <==> body is Log || body is MonitorData,
{
}

} // verus!
