//! Deterministic request generation.
//!
//! Every worker builds its requests with the same pure function of the
//! global index, so the union of the payloads generated across all workers
//! is one logical sequence over `[0, total_iterations)`. The payload's
//! numeric value is carried here as an integer; the wire representation the
//! collaborator service expects is the transport layer's concern.

use vstd::prelude::*;

verus! {

/// The payload of one request: a single numeric field.
#[derive(Clone, Copy, PartialEq, Eq, Structural, Debug)]
pub struct RequestPayload {
    pub value: u64,
}

/// Builds the request for a global index: the payload's numeric value is
/// exactly that index. Pure and deterministic, with no error conditions.
pub fn generate(global_index: u32) -> (r: RequestPayload)
    ensures
        r.value == global_index as u64,
{
    RequestPayload { value: global_index as u64 }
}

} // verus!
