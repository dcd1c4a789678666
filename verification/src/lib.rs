//! Verified core of a chat relay: the per-connection session state machine,
//! the wire-envelope codec, the rate limiter, and the membership guard,
//! together with a typed model of the database query layer.
use vstd::prelude::*;

pub mod api;
pub mod channel;
pub mod db;
pub mod envelope;
pub mod guard;
pub mod ratelimit;
pub mod records;
pub mod session;
pub mod text;
pub mod textnum;

verus! {

} // verus!
