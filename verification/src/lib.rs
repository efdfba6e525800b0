//! Verified core of a local notification bridge.
//!
//! The bridge accepts HTTP requests on a loopback port, turns each request
//! into a string message, pushes the message through a bounded FIFO
//! forwarding channel, and hands every drained message to a host-supplied
//! notification sink under a fixed event name.  This crate holds the
//! decision logic of that pipeline: what each route replies and enqueues,
//! how the forwarder reacts to channel events and to the sink registry's
//! state, and the channel's ordering and backpressure discipline.  The
//! asynchronous plumbing (listener, task scheduler, the host shell itself)
//! lives outside the crate and consults these functions for every decision.

use vstd::prelude::*;
use vstd::string::StringExecFns;

pub mod bridge;
pub mod channel;
pub mod json;
pub mod routes;

verus! {

/// Greeting for the command surface of the host shell.
pub fn greet(name: &str) -> (r: String)
    ensures
        r@ == "Hello, "@ + name@ + "! You've been greeted from Rust!"@,
{
    let mut r: String = "Hello, ".to_owned();
    r.append(name);
    r.append("! You've been greeted from Rust!");
    r
}

} // verus!
