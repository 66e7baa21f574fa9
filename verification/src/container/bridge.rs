use vstd::prelude::*;
use crate::text::{opt_text, copy_opt_string, system_name, insys_name};
use crate::store::Store;

verus! {

/// A bridge the runtime manages, as the daemon records it.
pub struct Bridge {
    pub name: String,
    pub insys: String,
    pub index: Option<u32>,
    pub status: Option<String>,
    pub ip: Option<String>,
    pub subnet: Option<u8>,
    pub network: Option<String>,
}

/// What a `Bridge` record holds.
pub struct BridgeView {
    pub name: Seq<char>,
    pub insys: Seq<char>,
    pub index: Option<u32>,
    pub status: Option<Seq<char>>,
    pub ip: Option<Seq<char>>,
    pub subnet: Option<u8>,
    pub network: Option<Seq<char>>,
}

impl View for Bridge {
    type V = BridgeView;

    open spec fn view(&self) -> BridgeView {
        BridgeView {
            name: self.name@,
            insys: self.insys@,
            index: self.index,
            status: opt_text(self.status),
            ip: opt_text(self.ip),
            subnet: self.subnet,
            network: opt_text(self.network),
        }
    }
}

/// The record of a bridge that has only been named: its system name is
/// `dc-` and its name, and nothing else is known of it.
pub open spec fn named_bridge(name: Seq<char>) -> BridgeView {
    BridgeView {
        name,
        insys: system_name(name),
        index: None,
        status: None,
        ip: None,
        subnet: None,
        network: None,
    }
}

/// The bridge records with `b` kept under its name.
pub open spec fn with_bridge(m: Map<Seq<char>, BridgeView>, b: BridgeView) -> Map<
    Seq<char>,
    BridgeView,
> {
    m.insert(b.name, b)
}

impl Clone for Bridge {
    fn clone(&self) -> (r: Self)
        ensures
            r@ == self@,
    {
        Bridge {
            name: self.name.clone(),
            insys: self.insys.clone(),
            index: self.index,
            status: copy_opt_string(&self.status),
            ip: copy_opt_string(&self.ip),
            subnet: self.subnet,
            network: copy_opt_string(&self.network),
        }
    }
}

impl Bridge {
    /// The record of the bridge called `name`, before anything else is known of it.
    pub fn named(name: &str) -> (r: Bridge)
        ensures
            r@ == named_bridge(name@),
    {
        Bridge {
            name: String::from_str(name),
            insys: insys_name(name),
            index: None,
            status: None,
            ip: None,
            subnet: None,
            network: None,
        }
    }

    /// The name the bridge is looked up by among the system's links.
    pub fn name(&self) -> (r: &str)
        ensures
            r@ == self.name@,
    {
        self.name.as_str()
    }

    /// Records the address, prefix length, status and network the bridge was given.
    pub fn set_address(&mut self, ip: String, subnet: u8, status: String, network: String)
        ensures
            final(self)@ == (BridgeView {
                ip: Some(ip@),
                subnet: Some(subnet),
                status: Some(status@),
                network: Some(network@),
                ..old(self)@
            }),
    {
        self.ip = Some(ip);
        self.subnet = Some(subnet);
        self.status = Some(status);
        self.network = Some(network);
    }

    /// Keeps this bridge under its name among `map`'s records, as the bridge
    /// file is updated before it is written.
    pub fn record_into(&self, map: &mut Store<Bridge>)
        ensures
            final(map)@ == with_bridge(old(map)@, self@),
    {
        map.insert(self.name.clone(), self.clone());
    }
}

} // verus!
