//! Containers, with the bridges and veth pairs that connect them.

pub mod bridge;
pub mod veth;

use vstd::prelude::*;
use crate::container::bridge::{Bridge, BridgeView};
use crate::container::veth::{VethPair, VethPairView};
use crate::namespaces::mount::mount;
use crate::namespaces::net::Net_ns;
use crate::namespaces::pid::pid_ns;

verus! {

/// A container: its name, the bridge and veth pair that connect it, its
/// namespaces, and the process that runs it once it has been started.
#[allow(non_camel_case_types)]
pub struct container {
    pub name: String,
    pub bridge: Bridge,
    pub veth: VethPair,
    pub mount_ns: Option<mount>,
    pub net_ns: Option<Net_ns>,
    pub pid_ns: Option<pid_ns>,
    pub pid: Option<i32>,
}

/// What a `container` record holds.
#[allow(non_camel_case_types)]
pub struct ContainerView {
    pub name: Seq<char>,
    pub bridge: BridgeView,
    pub veth: VethPairView,
    pub mount_ns: Option<Seq<char>>,
    pub net_ns: Option<Seq<char>>,
    pub pid_ns: Option<pid_ns>,
    pub pid: Option<i32>,
}

impl View for container {
    type V = ContainerView;

    open spec fn view(&self) -> ContainerView {
        ContainerView {
            name: self.name@,
            bridge: self.bridge@,
            veth: self.veth@,
            mount_ns: match self.mount_ns {
                Some(m) => Some(m@),
                None => None,
            },
            net_ns: match self.net_ns {
                Some(n) => Some(n@),
                None => None,
            },
            pid_ns: self.pid_ns,
            pid: self.pid,
        }
    }
}

impl Clone for container {
    fn clone(&self) -> (r: Self)
        ensures
            r@ == self@,
    {
        container {
            name: self.name.clone(),
            bridge: self.bridge.clone(),
            veth: self.veth.clone(),
            mount_ns: match &self.mount_ns {
                Some(m) => Some(m.clone()),
                None => None,
            },
            net_ns: match &self.net_ns {
                Some(n) => Some(n.clone()),
                None => None,
            },
            pid_ns: self.pid_ns,
            pid: self.pid,
        }
    }
}

/// The name the namespaces of a newly defined container are given.
pub open spec fn default_ns_name() -> Seq<char> {
    seq!['x', 'y', 'z']
}

/// The record of a container that has been defined but not started: it has
/// copies of its bridge and veth pair, new namespaces named `xyz`, and no process.
pub open spec fn defined_container(
    name: Seq<char>,
    bridge: BridgeView,
    veth: VethPairView,
) -> ContainerView {
    ContainerView {
        name,
        bridge,
        veth,
        mount_ns: Some(default_ns_name()),
        net_ns: Some(default_ns_name()),
        pid_ns: Some(pid_ns {  }),
        pid: None,
    }
}

impl container {
    /// A container called `name` on `bridge` and `veth`, not yet started.
    pub fn define(name: &str, bridge: &Bridge, veth: &VethPair) -> (r: container)
        ensures
            r@ == defined_container(name@, bridge@, veth@),
    {
        let ns_name = String::from_str("xyz");
        proof {
            reveal_strlit("xyz");
            assert(ns_name@ =~= default_ns_name());
        }
        container {
            name: String::from_str(name),
            bridge: bridge.clone(),
            veth: veth.clone(),
            mount_ns: Some(mount { name: ns_name.clone() }),
            net_ns: Some(Net_ns { name: ns_name }),
            pid_ns: Some(pid_ns {  }),
            pid: None,
        }
    }

    /// Records the process that runs the container.
    pub fn set_pid(&mut self, pid: i32)
        ensures
            final(self)@ == (ContainerView { pid: Some(pid), ..old(self)@ }),
    {
        self.pid = Some(pid);
    }
}

} // verus!
