//! The HTTP platform API: which platform a request asks about, and how a failure is answered.

use vstd::prelude::*;

use crate::error::{Error, HttpError};
use crate::server::protocol::PlatformStatus;
use crate::text::{cat, same};

verus! {

/// The first platform with the id `id`, if there is one.
pub open spec fn platform_at(platforms: Seq<PlatformStatus>, id: Seq<char>) -> Option<int>
    decreases platforms.len(),
{
    if platforms.len() == 0 {
        None
    } else if platforms[0].id@ == id {
        Some(0)
    } else {
        match platform_at(platforms.skip(1), id) {
            Some(i) => Some(i + 1),
            None => None,
        }
    }
}

/// Picks the platform with the id `id` out of a full search, because the daemon's own search is
/// fuzzy. An unknown id is answered 404.
pub fn platform_status(platforms: Vec<PlatformStatus>, id: &str) -> (r: Result<PlatformStatus, HttpError>)
    ensures
        match r {
            Ok(platform) => platform_at(platforms@, id@) is Some && platform == platforms@[platform_at(
                platforms@,
                id@,
            )->0],
            Err(e) => {
                &&& platform_at(platforms@, id@) is None
                &&& e.status == 404
                &&& e.code@ == "invalidRequest"@
                &&& e.message@ == "unknown platform: "@ + id@
            },
        },
        match r {
            Ok(platform) => platform.id@ == id@ && platforms@.contains(platform),
            Err(_) => forall|i: int| 0 <= i < platforms@.len() ==> (#[trigger] platforms@[i]).id@ != id@,
        },
{
    proof {
        lemma_platform_at(platforms@, id@);
    }
    let ghost all = platforms@;
    assert(all.skip(0) =~= all);
    for platform in it: platforms
        invariant
            it.seq() == all,
            platform_at(all, id@) == (match platform_at(all.skip(it.index()), id@) {
                Some(i) => Some(i + it.index()),
                None => None,
            }),
    {
        assert(all.skip(it.index())[0] == platform);
        assert(all.skip(it.index()).skip(1) =~= all.skip(it.index() + 1));
        if same(platform.id.as_str(), id) {
            return Ok(platform);
        }
    }
    Err(
        HttpError {
            status: 404,
            code: "invalidRequest".to_owned(),
            message: cat("unknown platform: ", id),
        },
    )
}

/// How a failed search is answered: a bad request is the caller's, anything else is the daemon's.
pub fn to_http(error: Error) -> (r: HttpError)
    ensures
        r.status == (if error@ is InvalidRequest { 400u16 } else { 502u16 }),
        r.code@ == error@.code(),
        r.message@ == error@.message(),
{
    let status: u16 = match &error {
        Error::InvalidRequest(_) => 400,
        _ => 502,
    };
    HttpError { status, code: error.code().to_owned(), message: error.message() }
}

proof fn lemma_platform_at(platforms: Seq<PlatformStatus>, id: Seq<char>)
    ensures
        platform_at(platforms, id) matches Some(i) ==> 0 <= i < platforms.len() && platforms[i].id@ == id && (forall|j: int|
            0 <= j < i ==> (#[trigger] platforms[j]).id@ != id),
        platform_at(platforms, id) is None ==> forall|j: int| 0 <= j < platforms.len() ==> (#[trigger] platforms[j]).id@ != id,
    decreases platforms.len(),
{
    if platforms.len() > 0 && platforms[0].id@ != id {
        let rest = platforms.skip(1);
        lemma_platform_at(rest, id);
        assert forall|j: int| 1 <= j < platforms.len() implies #[trigger] platforms[j] == rest[j - 1] by {}
    }
}

/// The platform that is reported is the first of the search whose id is, letter for letter, the one
/// that was asked for.
pub proof fn the_platform_asked_for_is_reported(platforms: Seq<PlatformStatus>, id: Seq<char>, i: int)
    ensures
        platform_at(platforms, id) == Some(i) <==> {
            &&& 0 <= i < platforms.len()
            &&& platforms[i].id@ == id
            &&& forall|j: int| 0 <= j < i ==> (#[trigger] platforms[j]).id@ != id
        },
{
    lemma_platform_at(platforms, id);
    let m = platform_at(platforms, id);
    if m is Some && 0 <= i < platforms.len() && i < m->0 {
        assert(platforms[i].id@ != id);
    }
    if m is Some && m->0 < i {
        assert(platforms[m->0].id@ == id);
    }
}

/// A platform is unknown just where nothing in the search has the id that was asked for.
pub proof fn a_platform_is_unknown_only_where_none_has_its_id(platforms: Seq<PlatformStatus>, id: Seq<char>)
    ensures
        platform_at(platforms, id) is None <==> forall|j: int|
            0 <= j < platforms.len() ==> (#[trigger] platforms[j]).id@ != id,
{
    lemma_platform_at(platforms, id);
}

/// A platform that is reported has the id that was asked for, and no platform before it in the search
/// has. An id that no platform has is answered 404.
pub proof fn a_status_is_that_of_the_id_asked_for(
    platforms: Vec<PlatformStatus>,
    id: &str,
    r: Result<PlatformStatus, HttpError>,
)
    requires
        call_ensures(platform_status, (platforms, id), r),
    ensures
        match r {
            Ok(platform) => exists|i: int|
                0 <= i < platforms@.len() && platform == #[trigger] platforms@[i] && platform.id@ == id@ && forall|j: int|
                    0 <= j < i ==> (#[trigger] platforms@[j]).id@ != id@,
            Err(e) => e.status == 404 && forall|j: int|
                0 <= j < platforms@.len() ==> (#[trigger] platforms@[j]).id@ != id@,
        },
{
    lemma_platform_at(platforms@, id@);
    if r is Ok {
        let i = platform_at(platforms@, id@)->0;
        assert(platforms@[i] == r->Ok_0);
    }
}

/// A failed search is the caller's fault just where the request was bad, and is told by code and
/// message.
pub proof fn a_failed_search_is_told(error: Error, r: HttpError)
    requires
        call_ensures(to_http, (error,), r),
    ensures
        r.status == 400 <==> error is InvalidRequest,
        r.status == 502 <==> !(error is InvalidRequest),
        r.code@ == error@.code(),
        r.message@ == error@.message(),
{
}

} // verus!
