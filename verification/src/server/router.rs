//! What the server decides before it serves.

use vstd::prelude::*;

use crate::error::Error;

verus! {

/// The BLE adapter for the `/io` channel. A missing radio, or a subsystem that fails, must not
/// break the rest of the server: `/io` then rejects every request.
pub fn usable_adapter<A>(discovered: Result<Option<A>, Error>) -> (adapter: Option<A>)
    ensures
        adapter == (match discovered {
            Ok(found) => found,
            Err(_) => None,
        }),
{
    match discovered {
        Ok(found) => found,
        Err(_) => None,
    }
}

} // verus!
