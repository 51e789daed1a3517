//! The request-side decision logic: validate a caller-supplied id and run
//! one query against the population.
//!
//! The transport itself (HTTP, serialization, CORS) lives outside the
//! library; it hands in the parsed id and the current monotonic time in
//! milliseconds, and sends the returned flattened transform outward.

use vstd::prelude::*;

use crate::simulation::{query_effect, Sim};
use crate::MAX_ID;

verus! {

/// The one way a request can fail: the id lies outside `0..=MAX_ID`.
#[derive(Clone, Copy, Debug, PartialEq, Eq)]
pub enum QueryError {
    InvalidId,
}

/// The boundary check for a caller-supplied id: valid exactly when it is at
/// most `MAX_ID` (the bound is inclusive).
pub fn valid_id(id: u32) -> (r: bool)
    ensures
        r == (id <= MAX_ID),
{
    id <= MAX_ID
}

/// Handle one position request: reject an id past `MAX_ID`, otherwise
/// advance the body at `id` lazily to `now_ms` and return its flattened
/// transform. A valid id always succeeds; an invalid one always fails and
/// leaves the population untouched.
pub fn get_pos(sim: &mut Sim, id: u32, now_ms: u64) -> (r: Result<Vec<i64>, QueryError>)
    requires
        old(sim).wf(),
    ensures
        final(sim).wf(),
        (id <= MAX_ID) == (r is Ok),
        id > MAX_ID ==> *final(sim) == *old(sim) && r == Err::<Vec<i64>, QueryError>(
            QueryError::InvalidId,
        ),
        id <= MAX_ID ==> (r matches Ok(v) && query_effect(
            *old(sim),
            *final(sim),
            id as int,
            now_ms as int,
            v@,
        )),
{
    if !valid_id(id) {
        return Err(QueryError::InvalidId);
    }
    match sim.get_pos_cache(id, now_ms) {
        Ok(v) => Ok(v),
        // the id was just checked, so the population cannot report a bad index
        Err(_) => vstd::pervasive::unreached(),
    }
}

} // verus!
