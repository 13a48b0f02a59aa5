//! `POST /compile`: a compile's responses as JSON lines, with the artifact's bytes in them.

use vstd::prelude::*;

use crate::error::{Error, ErrorView};
use crate::outside;
use crate::outside::base64_encode;
use crate::server::protocol::{
    Artifact, ArtifactPart, ArtifactPartView, ArtifactView, CompileResult, ResponseBody,
    ResponseBodyView, ResultPayload, ResultPayloadView,
};
use crate::server::session;
use crate::server::session::error_body;
use crate::text;
use crate::text::{cat, decimal_of};
use crate::utils::counter;

verus! {

/// Caps the untrusted sketch payload, in bytes; generated sources are kilobytes.
pub const MAX_COMPILE_BODY: usize = 1048576;

/// How many responses may wait for the client.
pub const RESPONSE_CHANNEL_CAPACITY: usize = 64;

/// The id of the compile with the number `seq`.
pub open spec fn request_id(seq: nat) -> Seq<char> {
    "compile-"@ + text::decimal(seq)
}

/// Names a compile, to tell concurrent ones apart in the logs; the name never leaves the process.
pub fn next_request_id(seq: u64) -> (id: String)
    ensures
        id@ == request_id(seq as nat),
{
    cat("compile-", decimal_of(seq as u128).as_str())
}

/// Hands out the ids of a process's compiles. There is one per process.
pub struct RequestIds {
    next: u64,
}

impl View for RequestIds {
    type V = u64;

    closed spec fn view(&self) -> u64 {
        self.next
    }
}

impl RequestIds {
    /// No id was handed out yet.
    pub fn new() -> (ids: RequestIds)
        ensures
            ids@ == 0,
    {
        RequestIds { next: 0 }
    }

    /// Hands out the next id. The numbers count up, and begin anew once all were used.
    pub fn fresh(&mut self) -> (id: String)
        ensures
            final(self)@ == counter::number_after(old(self)@),
            id@ == request_id(old(self)@ as nat),
    {
        let id = next_request_id(self.next);
        self.next = self.next.wrapping_add(1);
        id
    }
}

/// No two of a process's compiles have the same id, unless all the numbers were used between them.
pub proof fn no_id_is_handed_out_twice(i: nat, j: nat)
    requires
        i < j,
        j - i <= u64::MAX,
    ensures
        request_id(counter::nth_number(i) as nat) != request_id(counter::nth_number(j) as nat),
{
    counter::numbers_differ(i, j);
    request_ids_are_distinct(counter::nth_number(i) as nat, counter::nth_number(j) as nat);
}

/// Compiles with different numbers have different ids.
pub proof fn request_ids_are_distinct(a: nat, b: nat)
    ensures
        request_id(a) == request_id(b) <==> a == b,
{
    if request_id(a) == request_id(b) {
        let n = "compile-"@.len() as int;
        assert(text::decimal(a) =~= request_id(a).skip(n));
        assert(text::decimal(b) =~= request_id(b).skip(n));
        text::lemma_decimal_injective(a, b);
    }
}

/// The line that a JSON object is sent as.
pub fn ndjson_line(json: &str) -> (line: String)
    ensures
        line@ == json@ + "\n"@,
{
    cat(json, "\n")
}

/// The paths to read before a body can be sent: an artifact's parts in order, then its image.
pub open spec fn paths_of(body: ResponseBodyView) -> Seq<Seq<char>> {
    match body {
        ResponseBodyView::Result(ResultPayloadView::Compiled(artifact)) => artifact.parts.map_values(
            |part: ArtifactPartView| part.path,
        ).push(artifact.path),
        _ => seq![],
    }
}

/// The paths to read before a body can be sent.
pub fn artifact_paths(body: &ResponseBody) -> (paths: Vec<String>)
    ensures
        text::texts(paths@) == paths_of(body@),
{
    let mut paths: Vec<String> = Vec::new();
    if let ResponseBody::Result(ResultPayload::Compiled(result)) = body {
        let artifact = &result.artifact;
        let mut i: usize = 0;
        while i < artifact.parts.len()
            invariant
                i <= artifact.parts@.len(),
                paths@.len() == i,
                forall|j: int| 0 <= j < i ==> (#[trigger] paths@[j])@ == artifact.parts@[j].path@,
            decreases artifact.parts.len() - i,
        {
            paths.push(artifact.parts[i].path.clone());
            i += 1;
        }
        paths.push(artifact.path.clone());
    }
    assert(text::texts(paths@) =~= paths_of(body@));
    paths
}

/// The place of the first read that failed.
pub open spec fn first_failure(reads: Seq<Result<Vec<u8>, String>>) -> Option<int>
    decreases reads.len(),
{
    if reads.len() == 0 {
        None
    } else {
        match first_failure(reads.drop_last()) {
            Some(i) => Some(i),
            None => if reads.last() is Err {
                Some(reads.len() - 1)
            } else {
                None
            },
        }
    }
}

/// An artifact that carries the bytes that were read, in base64, and no path.
pub open spec fn shipped(artifact: ArtifactView, reads: Seq<Result<Vec<u8>, String>>) -> ArtifactView {
    ArtifactView {
        format: artifact.format,
        path: seq![],
        data: Some(outside::base64_text(reads.last()->Ok_0@)),
        parts: Seq::new(
            artifact.parts.len(),
            |i: int|
                ArtifactPartView {
                    offset: artifact.parts[i].offset,
                    path: seq![],
                    data: Some(outside::base64_text(reads[i]->Ok_0@)),
                },
        ),
    }
}

/// What is sent for a body, given what reading its paths came to: a compile's result with bytes
/// for paths, the first error in its stead, and anything else as it is.
pub open spec fn sent(body: ResponseBodyView, reads: Seq<Result<Vec<u8>, String>>) -> ResponseBodyView {
    match body {
        ResponseBodyView::Result(ResultPayloadView::Compiled(artifact)) => match first_failure(reads) {
            Some(i) => session::error_body_view(ErrorView::Io(reads[i]->Err_0@)),
            None => ResponseBodyView::Result(ResultPayloadView::Compiled(shipped(artifact, reads))),
        },
        _ => body,
    }
}

proof fn lemma_first_failure_stays(reads: Seq<Result<Vec<u8>, String>>, n: int)
    requires
        0 <= n < reads.len(),
        first_failure(reads.take(n)) is None,
        reads[n] is Err,
    ensures
        first_failure(reads) == Some(n),
    decreases reads.len(),
{
    if n == reads.len() - 1 {
        assert(reads.drop_last() =~= reads.take(n));
    } else {
        assert(reads.drop_last().take(n) =~= reads.take(n));
        lemma_first_failure_stays(reads.drop_last(), n);
    }
}

/// Whether `data` is base64 text that decodes to `bytes`.
pub open spec fn carries(data: Option<String>, bytes: Seq<u8>) -> bool {
    data matches Some(text) && outside::base64_bytes(text@) == Ok::<Seq<u8>, Seq<char>>(bytes)
}

/// A browser can't read the server's file system, so a compile's result ships bytes, not paths.
/// `reads` is what reading [`artifact_paths`] came to, path by path.
pub fn with_artifact_bytes(body: ResponseBody, reads: Vec<Result<Vec<u8>, String>>) -> (r: ResponseBody)
    requires
        reads@.len() == paths_of(body@).len(),
    ensures
        r@ == sent(body@, reads@),
        body matches ResponseBody::Result(ResultPayload::Compiled(given)) ==> (forall|i: int|
            0 <= i < reads@.len() ==> (#[trigger] reads@[i]) is Ok) ==> {
            &&& r matches ResponseBody::Result(ResultPayload::Compiled(shipped))
            &&& shipped.artifact.format@ == given.artifact.format@
            &&& carries(shipped.artifact.data, reads@.last()->Ok_0@)
            &&& shipped.artifact.parts@.len() == given.artifact.parts@.len()
            &&& forall|i: int|
                0 <= i < given.artifact.parts@.len() ==> {
                    &&& (#[trigger] shipped.artifact.parts@[i]).offset == given.artifact.parts@[i].offset
                    &&& carries(shipped.artifact.parts@[i].data, reads@[i]->Ok_0@)
                }
        },
        !(body matches ResponseBody::Result(ResultPayload::Compiled(_))) ==> r == body,
{
    match body {
        ResponseBody::Result(ResultPayload::Compiled(result)) => {
            let artifact = result.artifact;
            let ghost wanted = shipped(artifact@, reads@);
            let mut parts: Vec<ArtifactPart> = Vec::new();
            let mut i: usize = 0;
            assert(reads@.take(0) =~= seq![]);
            while i < artifact.parts.len()
                invariant
                    body@ == ResponseBodyView::Result(ResultPayloadView::Compiled(artifact@)),
                    i <= artifact.parts@.len(),
                    reads@.len() == artifact.parts@.len() + 1,
                    wanted == shipped(artifact@, reads@),
                    first_failure(reads@.take(i as int)) is None,
                    parts@.len() == i,
                    forall|j: int| 0 <= j < i ==> (#[trigger] parts@[j])@ == wanted.parts[j],
                    forall|j: int| 0 <= j < i ==> carries((#[trigger] parts@[j]).data, reads@[j]->Ok_0@),
                    forall|j: int| 0 <= j < i ==> (#[trigger] parts@[j]).offset == artifact.parts@[j].offset,
                    body == ResponseBody::Result(ResultPayload::Compiled(CompileResult { artifact })),
                decreases artifact.parts.len() - i,
            {
                match &reads[i] {
                    Ok(bytes) => {
                        let part = ArtifactPart {
                            offset: artifact.parts[i].offset,
                            path: String::new(),
                            data: Some(base64_encode(bytes.as_slice())),
                        };
                        assert(part@.path =~= seq![]);
                        parts.push(part);
                        assert(reads@.take(i + 1).drop_last() =~= reads@.take(i as int));
                    },
                    Err(complaint) => {
                        proof {
                            lemma_first_failure_stays(reads@, i as int);
                        }
                        return error_body(&Error::Io(complaint.clone()));
                    },
                }
                i += 1;
            }
            // The app image alone, for single-image targets and as the `parts` fallback.
            match &reads[i] {
                Ok(bytes) => {
                    assert(reads@.drop_last() =~= reads@.take(i as int));
                    let artifact = Artifact {
                        format: artifact.format,
                        path: String::new(),
                        data: Some(base64_encode(bytes.as_slice())),
                        parts,
                    };
                    assert(artifact@.path =~= seq![]);
                    assert(artifact@.parts =~= wanted.parts);
                    ResponseBody::Result(ResultPayload::Compiled(CompileResult { artifact }))
                },
                Err(complaint) => {
                    proof {
                        lemma_first_failure_stays(reads@, i as int);
                    }
                    error_body(&Error::Io(complaint.clone()))
                },
            }
        },
        body => body,
    }
}

/// No path of the server leaves it: a result that is sent names none.
pub proof fn no_path_is_sent(body: ResponseBodyView, reads: Seq<Result<Vec<u8>, String>>)
    ensures
        forall|i: int| 0 <= i < paths_of(sent(body, reads)).len() ==> (#[trigger] paths_of(sent(body, reads))[i]).len() == 0,
{
}

/// A compile's result whose files could all be read is sent as a compile's result: the same format,
/// as many parts, each at its own offset and with the bytes of its own file, and the image's bytes
/// beside them. No path is in it.
pub proof fn every_part_is_sent_at_its_own_offset(artifact: ArtifactView, reads: Seq<Result<Vec<u8>, String>>)
    requires
        reads.len() == artifact.parts.len() + 1,
        forall|i: int| 0 <= i < reads.len() ==> (#[trigger] reads[i]) is Ok,
    ensures
        ({
            let body = ResponseBodyView::Result(ResultPayloadView::Compiled(artifact));
            &&& sent(body, reads) matches ResponseBodyView::Result(ResultPayloadView::Compiled(shipped))
            &&& shipped.format == artifact.format
            &&& shipped.path.len() == 0
            &&& shipped.data == Some(outside::base64_text(reads[artifact.parts.len() as int]->Ok_0@))
            &&& shipped.parts.len() == artifact.parts.len()
            &&& forall|i: int|
                0 <= i < artifact.parts.len() ==> {
                    &&& (#[trigger] shipped.parts[i]).offset == artifact.parts[i].offset
                    &&& shipped.parts[i].path.len() == 0
                    &&& shipped.parts[i].data == Some(outside::base64_text(reads[i]->Ok_0@))
                }
        }),
{
    lemma_first_failure(reads);
}

/// The first file that could not be read is what the client is told of, as an `io` error in the
/// file system's words.
pub proof fn the_first_unreadable_file_is_told(artifact: ArtifactView, reads: Seq<Result<Vec<u8>, String>>, n: int)
    requires
        0 <= n < reads.len(),
        reads[n] is Err,
        forall|i: int| 0 <= i < n ==> (#[trigger] reads[i]) is Ok,
    ensures
        sent(ResponseBodyView::Result(ResultPayloadView::Compiled(artifact)), reads) == (ResponseBodyView::Error {
            code: "io"@,
            message: reads[n]->Err_0@,
        }),
{
    lemma_first_failure(reads);
    let m = first_failure(reads);
    if m is Some && m->0 > n {
        assert(reads[n] is Ok);
    }
}

/// A body that is no compile's result is sent as it is, and needs no file.
pub proof fn other_bodies_are_sent_as_they_are(body: ResponseBodyView, reads: Seq<Result<Vec<u8>, String>>)
    requires
        !(body matches ResponseBodyView::Result(ResultPayloadView::Compiled(_))),
    ensures
        sent(body, reads) == body,
        paths_of(body).len() == 0,
{
}

/// The files to read are those of the parts, one by one, and then the image.
pub proof fn every_file_of_an_artifact_is_read(artifact: ArtifactView, i: int)
    ensures
        ({
            let paths = paths_of(ResponseBodyView::Result(ResultPayloadView::Compiled(artifact)));
            &&& paths.len() == artifact.parts.len() + 1
            &&& 0 <= i < artifact.parts.len() ==> paths[i] == artifact.parts[i].path
            &&& paths[artifact.parts.len() as int] == artifact.path
        }),
{
}

proof fn lemma_first_failure(reads: Seq<Result<Vec<u8>, String>>)
    ensures
        first_failure(reads) matches Some(i) ==> 0 <= i < reads.len() && reads[i] is Err && (forall|j: int|
            0 <= j < i ==> (#[trigger] reads[j]) is Ok),
        first_failure(reads) is None ==> forall|j: int| 0 <= j < reads.len() ==> (#[trigger] reads[j]) is Ok,
    decreases reads.len(),
{
    if reads.len() > 0 {
        let earlier = reads.drop_last();
        lemma_first_failure(earlier);
        assert forall|j: int| 0 <= j < earlier.len() implies #[trigger] reads[j] == earlier[j] by {}
    }
}

/// A compile's id is its number in decimal behind `compile-`.
pub proof fn a_request_id_tells_its_number(seq: nat, digits: Seq<char>)
    ensures
        request_id(seq) == "compile-"@ + digits <==> text::writes_number(digits, seq),
{
    text::a_number_has_one_writing(digits, seq);
    if request_id(seq) == "compile-"@ + digits {
        let n = "compile-"@.len() as int;
        assert(request_id(seq).skip(n) =~= text::decimal(seq));
        assert(("compile-"@ + digits).skip(n) =~= digits);
    }
}

/// What the client gets of a compile whose files could all be read: each part at its own offset, with
/// base64 text that decodes to the bytes of its own file.
pub proof fn every_part_carries_its_own_bytes(
    given: CompileResult,
    reads: Vec<Result<Vec<u8>, String>>,
    r: ResponseBody,
    i: int,
)
    requires
        call_ensures(
            with_artifact_bytes,
            (ResponseBody::Result(ResultPayload::Compiled(given)), reads),
            r,
        ),
        reads@.len() == given.artifact.parts@.len() + 1,
        forall|j: int| 0 <= j < reads@.len() ==> (#[trigger] reads@[j]) is Ok,
    ensures
        r matches ResponseBody::Result(ResultPayload::Compiled(shipped)) && {
            &&& shipped.artifact.format@ == given.artifact.format@
            &&& shipped.artifact.data matches Some(text) && outside::base64_bytes(text@) == Ok::<Seq<u8>, Seq<char>>(
                reads@.last()->Ok_0@,
            )
            &&& shipped.artifact.parts@.len() == given.artifact.parts@.len()
            &&& 0 <= i < given.artifact.parts@.len() ==> {
                &&& shipped.artifact.parts@[i].offset == given.artifact.parts@[i].offset
                &&& shipped.artifact.parts@[i].data matches Some(text) && outside::base64_bytes(text@) == Ok::<
                    Seq<u8>,
                    Seq<char>,
                >(reads@[i]->Ok_0@)
            }
        },
{
}

/// The files that are read for a compile's result are those of its parts, in order, and its image.
pub proof fn the_files_of_an_artifact_are_read(result: CompileResult, body: &ResponseBody, paths: Vec<String>)
    requires
        *body == ResponseBody::Result(ResultPayload::Compiled(result)),
        call_ensures(artifact_paths, (body,), paths),
    ensures
        paths@.len() == result.artifact.parts@.len() + 1,
        forall|i: int|
            0 <= i < result.artifact.parts@.len() ==> (#[trigger] paths@[i])@ == result.artifact.parts@[i].path@,
        paths@.last()@ == result.artifact.path@,
{
    let all = text::texts(paths@);
    let artifact = result.artifact@;
    assert(body@ == ResponseBodyView::Result(ResultPayloadView::Compiled(artifact)));
    assert(all == paths_of(body@));
    assert(all.len() == paths@.len());
    assert(artifact.parts.len() == result.artifact.parts@.len());
    assert forall|i: int| 0 <= i < result.artifact.parts@.len() implies (#[trigger] paths@[i])@
        == result.artifact.parts@[i].path@ by {
        assert(all[i] == paths@[i]@);
        assert(artifact.parts[i] == result.artifact.parts@[i]@);
    }
    assert(all[paths@.len() - 1] == paths@.last()@);
}

/// A JSON object is sent on a line of its own.
pub proof fn an_object_is_a_line(json: &str, line: String)
    requires
        call_ensures(ndjson_line, (json,), line),
    ensures
        line@ == json@.push('\n'),
{
    reveal_strlit("\n");
    assert(json@ + "\n"@ =~= json@.push('\n'));
}

} // verus!
