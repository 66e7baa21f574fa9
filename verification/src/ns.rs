//! Helpers for processes that hold namespaces open.

use vstd::prelude::*;
use vstd::string::*;
use crate::ipv4::{int_text, render_i64};

verus! {

/// The PID of a child as `pid_t`, from what `clone3` returned (cut to 32 bits).
#[allow(non_snake_case)]
pub fn GetChildPID(host_pid: i64) -> (r: i32)
    ensures
        r == host_pid as i32,
{
    host_pid as i32
}

/// Sets up a PID namespace; the runtime has nothing to do for it.
#[allow(non_snake_case)]
pub fn Create_PID_namespace() {
}

/// The file through which the kernel exposes namespace `kind` of process `pid`.
pub open spec fn proc_ns_text(pid: int, kind: Seq<char>) -> Seq<char> {
    "/proc/"@ + int_text(pid) + "/ns/"@ + kind
}

/// `/proc/<pid>/ns/<kind>`: the file of namespace `kind` of process `pid`.
pub fn proc_ns_path(pid: i64, kind: &str) -> (r: String)
    ensures
        r@ == proc_ns_text(pid as int, kind@),
{
    let r = String::from_str("/proc/").concat(render_i64(pid).as_str());
    let r = r.concat("/ns/");
    let r = r.concat(kind);
    proof {
        assert(r@ =~= proc_ns_text(pid as int, kind@));
    }
    r
}

} // verus!
