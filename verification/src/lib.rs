//! A verified core for a worker node of a distributed compute-sharing
//! network.
//!
//! The worker pulls tasks from a coordinator, computes them, signs the
//! results and reports them back, and redundantly broadcasts the signed
//! results to a peer gossip overlay. This crate holds the orchestration and
//! computation core: the dispatch engine from typed operations to
//! deterministic numeric results and metadata, the identity and signing
//! subsystem, and the decision logic of the two concurrent loops. The
//! process boundary (HTTP calls, the peer-to-peer transport, argument
//! parsing) stays outside and exchanges plain values with this core.
pub mod b64;
pub mod compute;
pub mod float_bits;
pub mod gossip;
pub mod json;
pub mod orchestrator;
pub mod signing;
pub mod task;
pub mod wire;

use vstd::prelude::*;

verus! {

/// True exactly when an HTTP status code lies in the success range.
pub fn status_is_success(status: u16) -> (r: bool)
    ensures
        r <==> 200 <= status < 300,
{
    200 <= status && status < 300
}

} // verus!
