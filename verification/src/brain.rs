//! What the daemon does with each request, apart from the system calls it
//! makes: the records it builds and how its storage files change.

use vstd::prelude::*;
use vstd::string::*;
use crate::store::Store;
use crate::text::{trim, trimmed, system_name};
use crate::ipv4::{Ipv4Addr, parse_ipv4, parse_ipv4_spec};
use crate::container::container;
use crate::container::ContainerView;
use crate::container::defined_container;
use crate::container::bridge::{Bridge, BridgeView, named_bridge, with_bridge};
use crate::container::veth::{VethPair, VethPairView, VethEndView, pair_key, veth_key};

verus! {

/// Why the daemon refuses a request.
pub enum BrainError {
    /// No bridge is recorded under the name given.
    NoBridge(String),
    /// No veth pair is recorded under the names given.
    NoVethPair,
    /// An address is not in dotted-decimal form.
    BadAddress,
}

/// The text the daemon reports for `e`.
pub open spec fn error_text(e: BrainError) -> Seq<char> {
    match e {
        BrainError::NoBridge(name) => "no bridge found for name "@ + name@,
        BrainError::NoVethPair => "no veth pair found"@,
        BrainError::BadAddress => "invalid IPv4 address syntax"@,
    }
}

impl BrainError {
    /// The text the daemon reports for this refusal.
    pub fn message(&self) -> (r: String)
        ensures
            r@ == error_text(*self),
    {
        match self {
            BrainError::NoBridge(name) => {
                let r = String::from_str("no bridge found for name ").concat(name.as_str());
                r
            },
            BrainError::NoVethPair => String::from_str("no veth pair found"),
            BrainError::BadAddress => String::from_str("invalid IPv4 address syntax"),
        }
    }
}

/// The prefix length a request carries as a JSON number, cut to a byte as
/// the daemon does (`as u8`).
pub fn subnet_byte(raw: u64) -> (r: u8)
    ensures
        r == raw % 256,
{
    (raw % 256) as u8
}

/// The record of a bridge that has been created and given its address.
pub open spec fn addressed_bridge(
    name: Seq<char>,
    ip: Seq<char>,
    subnet: u64,
    status: Seq<char>,
    network: Seq<char>,
) -> BridgeView {
    BridgeView {
        ip: Some(ip),
        subnet: Some((subnet % 256) as u8),
        status: Some(status),
        network: Some(network),
        ..named_bridge(name)
    }
}

/// The record of the bridge `name` once it has been created with the
/// address, prefix length, status and network of the request.
pub fn created_bridge(name: &str, ip: &str, subnet: u64, status: &str, network: &str) -> (r:
    Bridge)
    ensures
        r@ == addressed_bridge(name@, ip@, subnet, status@, network@),
        r@.name == name@,
        r@.insys == system_name(name@),
        r@.index is None,
        r@.ip == Some(ip@),
        r@.subnet == Some((subnet % 256) as u8),
        r@.status == Some(status@),
        r@.network == Some(network@),
{
    let mut b = Bridge::named(name);
    b.set_address(
        String::from_str(ip),
        subnet_byte(subnet),
        String::from_str(status),
        String::from_str(network),
    );
    b
}

/// The bridge records once the record of a deleted bridge called `name` is dropped.
pub open spec fn without_bridge(m: Map<Seq<char>, BridgeView>, name: Seq<char>) -> Map<
    Seq<char>,
    BridgeView,
> {
    m.remove(name)
}

/// Records a bridge that has been created: it is kept under its name (the
/// bridge file is then written with `Bridge::record_into`).
pub fn bridge_created(map: &mut Store<Bridge>, bridge: &Bridge)
    ensures
        final(map)@ == with_bridge(old(map)@, bridge@),
{
    map.insert(bridge.name.clone(), bridge.clone());
}

/// Records a bridge that has been deleted: its record is dropped (the bridge
/// file is then written with `Bridge::record_into`, which keeps the bridge
/// the request named under its name again).
pub fn bridge_deleted(map: &mut Store<Bridge>, bridge: &Bridge)
    ensures
        final(map)@ == without_bridge(old(map)@, bridge.name@),
{
    map.remove(bridge.name.as_str());
}

/// Records a veth pair that has been created: it is kept under its ends' names.
pub fn veth_created(map: &mut Store<VethPair>, pair: &VethPair)
    ensures
        final(map)@ == old(map)@.insert(
            pair_key(pair.veth_front.name@, pair.veth_back.name@),
            pair@,
        ),
{
    map.insert(pair.key(), pair.clone());
}

/// The pair `p` with `front` and `back` as its ends' addresses and
/// `subnet` as both ends' prefix length.
pub open spec fn addressed_pair(p: VethPairView, front: Ipv4Addr, back: Ipv4Addr, subnet: u8) -> VethPairView {
    VethPairView {
        veth_front: VethEndView { ip: Some(front), subnet: Some(subnet), ..p.veth_front },
        veth_back: VethEndView { ip: Some(back), subnet: Some(subnet), ..p.veth_back },
    }
}

/// A copy of the pair recorded under `veth0` and `veth1`, which is about to
/// be given addresses; refused when no such pair is recorded.
pub fn veth_to_address(map: &Store<VethPair>, veth0: &str, veth1: &str) -> (r: Result<
    VethPair,
    BrainError,
>)
    ensures
        !map@.dom().contains(pair_key(veth0@, veth1@)) ==> r matches Err(BrainError::NoVethPair),
        map@.dom().contains(pair_key(veth0@, veth1@)) ==> (r matches Ok(p) && p@ == map@[pair_key(
            veth0@,
            veth1@,
        )]),
{
    let key = veth_key(veth0, veth1);
    match map.get(key.as_str()) {
        Some(p) => Ok(p.clone()),
        None => Err(BrainError::NoVethPair),
    }
}

/// `pair` with the addresses written in `ip0` (front end) and `ip1` (back
/// end), and the prefix length `subnet` (cut to a byte) on both ends; refused
/// when either address is not in dotted-decimal form, the front end's first.
pub fn with_addresses(pair: &VethPair, ip0: &str, ip1: &str, subnet: u64) -> (r: Result<
    VethPair,
    BrainError,
>)
    ensures
        parse_ipv4_spec(ip0@) is None || parse_ipv4_spec(ip1@) is None ==> r matches Err(
            BrainError::BadAddress,
        ),
        parse_ipv4_spec(ip0@) is Some && parse_ipv4_spec(ip1@) is Some ==> (r matches Ok(p)
            && p@ == addressed_pair(
            pair@,
            parse_ipv4_spec(ip0@)->0,
            parse_ipv4_spec(ip1@)->0,
            (subnet % 256) as u8,
        )),
        r matches Ok(p) ==> p.veth_front@.name == pair.veth_front@.name && p.veth_front@.insys
            == pair.veth_front@.insys && p.veth_front@.index == pair.veth_front@.index
            && p.veth_back@.name == pair.veth_back@.name && p.veth_back@.insys
            == pair.veth_back@.insys && p.veth_back@.index == pair.veth_back@.index
            && p.veth_front@.ip == parse_ipv4_spec(ip0@) && p.veth_back@.ip == parse_ipv4_spec(
            ip1@,
        ) && p.veth_front@.subnet == Some((subnet % 256) as u8) && p.veth_back@.subnet == Some(
            (subnet % 256) as u8,
        ),
{
    let mut pair = pair.clone();
    let front_ip = match parse_ipv4(ip0) {
        Some(ip) => ip,
        None => return Err(BrainError::BadAddress),
    };
    let s = subnet_byte(subnet);
    pair.veth_front.ip = Some(front_ip);
    pair.veth_front.subnet = Some(s);
    let back_ip = match parse_ipv4(ip1) {
        Some(ip) => ip,
        None => return Err(BrainError::BadAddress),
    };
    pair.veth_back.ip = Some(back_ip);
    pair.veth_back.subnet = Some(s);
    Ok(pair)
}

/// Records a veth pair whose ends have been given addresses: it is kept
/// under the names of the request.
pub fn veth_addressed(map: &mut Store<VethPair>, veth0: &str, veth1: &str, pair: &VethPair)
    ensures
        final(map)@ == old(map)@.insert(pair_key(veth0@, veth1@), pair@),
{
    map.insert(veth_key(veth0, veth1), pair.clone());
}

/// Records a veth pair that has been deleted: the entry under its ends'
/// names, without surrounding white space, is dropped.
pub fn veth_deleted(map: &mut Store<VethPair>, pair: &VethPair)
    ensures
        final(map)@ == old(map)@.remove(
            trimmed(pair_key(pair.veth_front.name@, pair.veth_back.name@)),
        ),
{
    let key = pair.key();
    map.remove(trim(key.as_str()));
}

/// The container `name` on the bridge recorded as `bridge_name` and the
/// veth pair recorded under `veth0` and `veth1`; refused when the bridge,
/// then when the pair, is not recorded.
pub fn define_container(
    bridges: &Store<Bridge>,
    veths: &Store<VethPair>,
    name: &str,
    bridge_name: &str,
    veth0: &str,
    veth1: &str,
) -> (r: Result<container, BrainError>)
    ensures
        !bridges@.dom().contains(bridge_name@) ==> (r matches Err(BrainError::NoBridge(n))
            && n@ == bridge_name@),
        bridges@.dom().contains(bridge_name@) && !veths@.dom().contains(pair_key(veth0@, veth1@))
            ==> r matches Err(BrainError::NoVethPair),
        bridges@.dom().contains(bridge_name@) && veths@.dom().contains(pair_key(veth0@, veth1@))
            ==> (r matches Ok(c) && c@ == defined_container(
            name@,
            bridges@[bridge_name@],
            veths@[pair_key(veth0@, veth1@)],
        )),
{
    let bridge = match bridges.get(bridge_name) {
        Some(b) => b,
        None => return Err(BrainError::NoBridge(String::from_str(bridge_name))),
    };
    let key = veth_key(veth0, veth1);
    let pair = match veths.get(key.as_str()) {
        Some(p) => p,
        None => return Err(BrainError::NoVethPair),
    };
    Ok(container::define(name, bridge, pair))
}

/// Records a container that has been defined: it is kept under its name.
pub fn container_defined(init: &mut Store<container>, con: &container)
    ensures
        final(init)@ == old(init)@.insert(con.name@, con@),
{
    init.insert(con.name.clone(), con.clone());
}

/// The record of the defined container `name`, which is about to be started.
pub fn container_to_start(init: &Store<container>, name: &str) -> (r: container)
    requires
        init@.dom().contains(name@),
    ensures
        r@ == init@[name@],
{
    init.get(name).unwrap().clone()
}

/// The running containers once `con` has been started as process `pid`
/// under the name `name`.
pub open spec fn started_containers(
    m: Map<Seq<char>, ContainerView>,
    name: Seq<char>,
    con: ContainerView,
    pid: i32,
) -> Map<Seq<char>, ContainerView> {
    m.insert(name, ContainerView { pid: Some(pid), ..con })
}

/// The running containers once the one called `name` has been stopped.
pub open spec fn stopped_containers(m: Map<Seq<char>, ContainerView>, name: Seq<char>) -> Map<
    Seq<char>,
    ContainerView,
> {
    m.remove(name)
}

/// Records a container that has been started as process `pid`: it is
/// kept under `name` among the running containers.
pub fn container_started(running: &mut Store<container>, name: &str, con: container, pid: i32)
    ensures
        final(running)@ == started_containers(old(running)@, name@, con@, pid),
{
    let mut con = con;
    con.set_pid(pid);
    running.insert(String::from_str(name), con);
}

/// The process of the running container `name`, which is about to be stopped.
pub fn container_to_stop(running: &Store<container>, name: &str) -> (r: i32)
    requires
        running@.dom().contains(name@),
        running@[name@].pid is Some,
    ensures
        r == running@[name@].pid->0,
{
    running.get(name).unwrap().pid.unwrap()
}

/// Records a container that has been stopped: it is no longer running.
pub fn container_stopped(running: &mut Store<container>, name: &str)
    ensures
        final(running)@ == stopped_containers(old(running)@, name@),
{
    running.remove(name);
}

} // verus!
