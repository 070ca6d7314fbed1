//! Hostcall boundary subsystem of a library-operating-system runtime.
//!
//! Several isolated serverless workloads ("isolations") run inside one host
//! process. A workload never calls a host capability directly: it issues a
//! hostcall, identified by a symbolic identity, which the host routes to the
//! owning service. This crate verifies the four tightly coupled pieces of
//! that boundary: the routing table ([`hostcall`]), the typed-buffer exchange
//! protocol ([`buffer`]), the indexed handle tables every service uses
//! ([`resource`]), and the isolation execution lifecycle ([`runtime`]).

use vstd::prelude::*;

pub mod buffer;
pub mod console;
pub mod fatfs;
pub mod hostcall;
pub mod io;
pub mod resource;
pub mod runtime;

verus! {

/// Identifies one isolation instance; unique for the process lifetime.
pub type IsolationID = u64;

/// Names a host-side service ("fdtab", "fatfs", ...); the empty string names
/// runtime-internal handling.
pub type ServiceName = String;

} // verus!
