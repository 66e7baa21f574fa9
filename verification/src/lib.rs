//! Verified core of a small container runtime: the text parsing used by the
//! command line, the framing of requests between the command line and the
//! daemon, the records the daemon keeps about bridges, veth pairs,
//! namespaces and containers, and the bookkeeping it does on them.

pub mod text;
pub mod ipv4;
pub mod protocol;
pub mod store;
pub mod container;
pub mod namespaces;
pub mod brain;
pub mod request;
pub mod cli;
pub mod sokcet;
pub mod ns;
pub mod laws;

use vstd::prelude::*;

verus! {

/// What the parent does after starting a container's process; nothing yet.
#[allow(non_snake_case)]
pub fn ParentProcessCode() {
}

/// What the child does once it runs in its namespaces; nothing yet.
#[allow(non_snake_case)]
pub fn ChildProcessCode() {
}

} // verus!
