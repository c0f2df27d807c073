//! The collaborator RPC service's one decision, modelled.
//!
//! The service is stateless and trivial: whatever the request carries, the
//! reply holds one constant numeric value. The transport that carries the
//! request and reply over the wire lives in the surrounding application;
//! what the service answers is decided here.

use vstd::prelude::*;
use crate::request::RequestPayload;

verus! {

/// The numeric value every reply carries.
pub const REPLY_VALUE: u64 = 42;

/// The payload of one reply: a single numeric field.
#[derive(Clone, Copy, PartialEq, Eq, Structural, Debug)]
pub struct ReplyPayload {
    pub result: u64,
}

/// The greeter service: one stateless method that ignores its request and
/// answers the constant reply.
#[derive(Clone, Copy, PartialEq, Eq, Structural, Debug)]
pub struct MyGreeter {}

impl MyGreeter {
    /// Answers one call: the reply's value is `REPLY_VALUE`, whatever the
    /// request holds.
    pub fn say_hello(&self, _request: &RequestPayload) -> (r: ReplyPayload)
        ensures
            r.result == REPLY_VALUE,
    {
        ReplyPayload { result: REPLY_VALUE }
    }
}

impl Default for MyGreeter {
    /// The service needs no state: the default value is the service.
    fn default() -> (r: MyGreeter)
        ensures
            r == (MyGreeter {  }),
    {
        MyGreeter {  }
    }
}

} // verus!
