//! Namespaces, and the arguments of the `clone3` call that creates them.

pub mod mount;
pub mod net;
pub mod pid;

use vstd::prelude::*;

verus! {

/// `CLONE_NEWPID`: the child starts in a new PID namespace.
pub open spec fn new_pid_flag() -> u64 {
    0x2000_0000
}

/// `CLONE_NEWNET`: the child starts in a new network namespace.
pub open spec fn new_net_flag() -> u64 {
    0x4000_0000
}

/// `CLONE_NEWNS`: the child starts in a new mount namespace.
pub open spec fn new_mount_flag() -> u64 {
    0x2_0000
}

/// The `clone3` flags for the namespaces asked for.
pub open spec fn namespace_flags(net: bool, pid: bool, mount: bool) -> u64 {
    (if pid { new_pid_flag() } else { 0 }) | (if net { new_net_flag() } else { 0 }) | (if mount {
        new_mount_flag()
    } else {
        0
    })
}

/// Reads `libc::CLONE_NEWPID`, which the libc source defines as `0x20000000`.
#[verifier::external_body]
fn clone_newpid() -> (r: u64)
    ensures
        r == new_pid_flag(),
{
    libc::CLONE_NEWPID as u64
}

/// Reads `libc::CLONE_NEWNET`, which the libc source defines as `0x40000000`.
#[verifier::external_body]
fn clone_newnet() -> (r: u64)
    ensures
        r == new_net_flag(),
{
    libc::CLONE_NEWNET as u64
}

/// Reads `libc::CLONE_NEWNS`, which the libc source defines as `0x20000`.
#[verifier::external_body]
fn clone_newns() -> (r: u64)
    ensures
        r == new_mount_flag(),
{
    libc::CLONE_NEWNS as u64
}

/// The arguments of the `clone3` call that starts a process in new namespaces.
pub struct CloneArgs {
    pub flags: u64,
    pub pidfd: u64,
    pub child_tid: u64,
    pub parent_tid: u64,
    pub exit_signal: u64,
    pub stack: u64,
    pub stack_size: u64,
    pub tls: u64,
    pub set_tid: u64,
    pub set_tid_size: u64,
    pub cgroup: u64,
}

/// The `clone3` flags for the namespaces asked for: new PID, network and
/// mount namespaces as `pid`, `net` and `mount` say.
pub fn namespace_clone_flags(net: bool, pid: bool, mount: bool) -> (r: u64)
    ensures
        r == namespace_flags(net, pid, mount),
{
    let p: u64 = if pid {
        clone_newpid()
    } else {
        0
    };
    let n: u64 = if net {
        clone_newnet()
    } else {
        0
    };
    let m: u64 = if mount {
        clone_newns()
    } else {
        0
    };
    p | n | m
}

impl CloneArgs {
    /// The arguments for a child in the namespaces asked for, which signals
    /// `exit_signal` to its parent when it ends; every other field is zero.
    pub fn for_namespaces(net: bool, pid: bool, mount: bool, exit_signal: u64) -> (r: CloneArgs)
        ensures
            r.flags == namespace_flags(net, pid, mount),
            r.exit_signal == exit_signal,
            r.pidfd == 0 && r.child_tid == 0 && r.parent_tid == 0 && r.stack == 0
                && r.stack_size == 0 && r.tls == 0 && r.set_tid == 0 && r.set_tid_size == 0
                && r.cgroup == 0,
    {
        CloneArgs {
            flags: namespace_clone_flags(net, pid, mount),
            pidfd: 0,
            child_tid: 0,
            parent_tid: 0,
            exit_signal,
            stack: 0,
            stack_size: 0,
            tls: 0,
            set_tid: 0,
            set_tid_size: 0,
            cgroup: 0,
        }
    }
}

/// Each namespace flag is set exactly when its namespace is asked for.
pub proof fn lemma_namespace_flags_bits(net: bool, pid: bool, mount: bool)
    ensures
        (namespace_flags(net, pid, mount) & new_pid_flag() != 0) == pid,
        (namespace_flags(net, pid, mount) & new_net_flag() != 0) == net,
        (namespace_flags(net, pid, mount) & new_mount_flag() != 0) == mount,
        namespace_flags(net, pid, mount) & !(new_pid_flag() | new_net_flag() | new_mount_flag()) == 0,
{
    let p: u64 = if pid { 0x2000_0000 } else { 0 };
    let n: u64 = if net { 0x4000_0000 } else { 0 };
    let m: u64 = if mount { 0x2_0000 } else { 0 };
    assert(((p | n | m) & 0x2000_0000u64 != 0) == (p != 0)) by (bit_vector)
        requires
            p == 0 || p == 0x2000_0000,
            n == 0 || n == 0x4000_0000,
            m == 0 || m == 0x2_0000,
    ;
    assert(((p | n | m) & 0x4000_0000u64 != 0) == (n != 0)) by (bit_vector)
        requires
            p == 0 || p == 0x2000_0000,
            n == 0 || n == 0x4000_0000,
            m == 0 || m == 0x2_0000,
    ;
    assert(((p | n | m) & 0x2_0000u64 != 0) == (m != 0)) by (bit_vector)
        requires
            p == 0 || p == 0x2000_0000,
            n == 0 || n == 0x4000_0000,
            m == 0 || m == 0x2_0000,
    ;
    assert((p | n | m) & !(0x2000_0000u64 | 0x4000_0000u64 | 0x2_0000u64) == 0) by (bit_vector)
        requires
            p == 0 || p == 0x2000_0000,
            n == 0 || n == 0x4000_0000,
            m == 0 || m == 0x2_0000,
    ;
}

} // verus!
