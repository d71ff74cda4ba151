//! Core logic of a desktop shell that joins a distributed model-inference
//! network as a compute contributor or client.
//!
//! The library holds the decision-making parts of that shell: interpretation
//! of capability-probe output, the staged provisioning workflows, worker
//! start/stop policies over shared session state, log-line classification,
//! device selection, and the construction of the exact commands and argument
//! vectors handed to the host's command executor.  Running those commands,
//! spawning processes and forwarding events is left to the surrounding
//! application, which feeds the observed outcomes back in as plain values.

pub mod classify;
pub mod device;
pub mod exec;
pub mod hardware;
pub mod inference;
pub mod install;
pub mod logbuf;
pub mod probes;
pub mod session;
pub mod text;
pub mod worker;
pub mod workflow;

use vstd::prelude::*;

verus! {

/// The host platforms the shell distinguishes.  `Windows` runs the worker
/// inside a Linux sandbox layer, `MacOs` uses a container runtime for
/// hosting, and `Linux` runs it natively.
#[derive(Clone, Copy, PartialEq, Eq, Structural, Debug)]
pub enum Platform {
    Windows,
    MacOs,
    Linux,
}

/// The shell's smoke-test command: greet the caller by name.
pub fn greet(name: &str) -> (r: String)
    ensures
        r@ == "Hello, "@ + name@ + "! You've been greeted from Rust!"@,
{
    let mut msg = String::from_str("Hello, ");
    msg.append(name);
    msg.append("! You've been greeted from Rust!");
    msg
}

} // verus!
