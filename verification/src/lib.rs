//! Core logic of a root-access broker daemon: the wire codec for superuser
//! requests, the command dispatcher, the policy resolution state machine,
//! the audit pipeline, and the privileged execution engine.
//!
//! Everything here is pure logic over plain values; the surrounding process
//! (sockets, credentials, the manager IPC, process spawning) drives these
//! functions from outside.

pub mod audit;
pub mod dispatch;
pub mod engine;
pub mod policy;
pub mod request;
pub mod wire;

use vstd::prelude::*;

verus! {

/// Wire sentinel reported to a client when execution never started
/// (denied, or aborted before the shell ran).
pub const EXEC_NOT_STARTED: i32 = -1;

} // verus!
