use vstd::prelude::*;

verus! {

/// A PID namespace of a container; the runtime keeps nothing about it.
#[allow(non_camel_case_types)]
#[derive(Clone, Copy, Debug, PartialEq, Eq, Structural)]
pub struct pid_ns {}

} // verus!
