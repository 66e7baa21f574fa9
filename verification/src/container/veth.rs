use vstd::prelude::*;
use crate::text::{system_name, insys_name};
use crate::ipv4::Ipv4Addr;

verus! {

/// One end of a veth pair, as the daemon records it.
pub struct VethEnd {
    pub name: String,
    pub insys: String,
    pub index: Option<u32>,
    pub ip: Option<Ipv4Addr>,
    pub subnet: Option<u8>,
}

/// What a `VethEnd` record holds.
pub struct VethEndView {
    pub name: Seq<char>,
    pub insys: Seq<char>,
    pub index: Option<u32>,
    pub ip: Option<Ipv4Addr>,
    pub subnet: Option<u8>,
}

impl View for VethEnd {
    type V = VethEndView;

    open spec fn view(&self) -> VethEndView {
        VethEndView {
            name: self.name@,
            insys: self.insys@,
            index: self.index,
            ip: self.ip,
            subnet: self.subnet,
        }
    }
}

/// The two ends of a veth pair: the front end goes to the container, the
/// back end stays with the bridge.
pub struct VethPair {
    pub veth_front: VethEnd,
    pub veth_back: VethEnd,
}

/// What a `VethPair` record holds.
pub struct VethPairView {
    pub veth_front: VethEndView,
    pub veth_back: VethEndView,
}

impl View for VethPair {
    type V = VethPairView;

    open spec fn view(&self) -> VethPairView {
        VethPairView { veth_front: self.veth_front@, veth_back: self.veth_back@ }
    }
}

/// The record of a veth end that has only been named.
pub open spec fn named_end(name: Seq<char>) -> VethEndView {
    VethEndView { name, insys: system_name(name), index: None, ip: None, subnet: None }
}

/// The name a veth pair is kept under: the front end's name, `_`, the back end's name.
pub open spec fn pair_key(front: Seq<char>, back: Seq<char>) -> Seq<char> {
    front + seq!['_'] + back
}

/// The name a veth pair with ends `front` and `back` is kept under.
pub fn veth_key(front: &str, back: &str) -> (r: String)
    ensures
        r@ == pair_key(front@, back@),
{
    let r = String::from_str(front).concat("_");
    let r = r.concat(back);
    proof {
        reveal_strlit("_");
        assert(r@ =~= pair_key(front@, back@));
    }
    r
}

impl Clone for VethEnd {
    fn clone(&self) -> (r: Self)
        ensures
            r@ == self@,
    {
        VethEnd {
            name: self.name.clone(),
            insys: self.insys.clone(),
            index: self.index,
            ip: self.ip,
            subnet: self.subnet,
        }
    }
}

impl Clone for VethPair {
    fn clone(&self) -> (r: Self)
        ensures
            r@ == self@,
    {
        VethPair { veth_front: self.veth_front.clone(), veth_back: self.veth_back.clone() }
    }
}

impl VethEnd {
    /// The record of the veth end called `name`, before anything else is known of it.
    pub fn named(name: &str) -> (r: VethEnd)
        ensures
            r@ == named_end(name@),
    {
        VethEnd {
            name: String::from_str(name),
            insys: insys_name(name),
            index: None,
            ip: None,
            subnet: None,
        }
    }
}

impl VethPair {
    /// The record of the pair whose ends are called `front` and `back`.
    pub fn named(front: &str, back: &str) -> (r: VethPair)
        ensures
            r@ == (VethPairView { veth_front: named_end(front@), veth_back: named_end(back@) }),
    {
        VethPair { veth_front: VethEnd::named(front), veth_back: VethEnd::named(back) }
    }

    /// The name the pair is kept under.
    pub fn key(&self) -> (r: String)
        ensures
            r@ == pair_key(self.veth_front.name@, self.veth_back.name@),
    {
        veth_key(self.veth_front.name.as_str(), self.veth_back.name.as_str())
    }

    /// The name the pair is looked up by among the system's links: the front
    /// end's system name.
    pub fn name(&self) -> (r: &str)
        ensures
            r@ == self.veth_front.insys@,
    {
        self.veth_front.insys.as_str()
    }
}

} // verus!
