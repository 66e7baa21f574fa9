//! The fields of the requests the daemon receives, read from their JSON text.

use vstd::prelude::*;

verus! {

/// The text of field `key` of the JSON object `msg`, as serde_json reads it:
/// `msg` parsed as a `Value`, indexed by `key`, taken as a string; `None` when
/// `msg` is not JSON, or the field is missing or not a string.
pub uninterp spec fn json_text_field(msg: Seq<u8>, key: Seq<char>) -> Option<Seq<char>>;

/// The number in field `key` of the JSON object `msg`, as serde_json reads it:
/// `msg` parsed as a `Value`, indexed by `key`, taken as a `u64`; `None` when
/// `msg` is not JSON, or the field is missing or not such a number.
pub uninterp spec fn json_u64_field(msg: Seq<u8>, key: Seq<char>) -> Option<u64>;

/// Calls `serde_json::from_slice::<Value>(msg)`, indexes the value by `key`
/// and takes it with `Value::as_str`. The result depends on `msg` and `key`
/// alone and is named `json_text_field`; what serde_json accepts as JSON is
/// not written out here.
#[verifier::external_body]
fn request_text(msg: &[u8], key: &str) -> (r: Option<String>)
    ensures
        match r {
            Some(t) => json_text_field(msg@, key@) == Some(t@),
            None => json_text_field(msg@, key@) is None,
        },
{
    match serde_json::from_slice::<serde_json::Value>(msg) {
        Ok(v) => v[key].as_str().map(|t| t.to_string()),
        Err(_) => None,
    }
}

/// Calls `serde_json::from_slice::<Value>(msg)`, indexes the value by `key`
/// and takes it with `Value::as_u64`. The result depends on `msg` and `key`
/// alone and is named `json_u64_field`.
#[verifier::external_body]
fn request_u64(msg: &[u8], key: &str) -> (r: Option<u64>)
    ensures
        r == json_u64_field(msg@, key@),
{
    match serde_json::from_slice::<serde_json::Value>(msg) {
        Ok(v) => v[key].as_u64(),
        Err(_) => None,
    }
}

/// A request that names one thing.
pub struct NameFields {
    pub name: String,
}

/// A request to create a bridge.
pub struct BridgeFields {
    pub name: String,
    pub ip: String,
    pub subnet: u64,
    pub status: String,
    pub network: String,
}

/// A request that names the two ends of a veth pair.
pub struct VethNameFields {
    pub veth0_name: String,
    pub veth1_name: String,
}

/// The addresses and prefix length of a request to address a veth pair.
pub struct VethAddressFields {
    pub veth0_ip: String,
    pub veth1_ip: String,
    pub subnet: u64,
}

/// A request to define a container.
pub struct ContainerFields {
    pub name: String,
    pub bridge_name: String,
    pub veth0_name: String,
    pub veth1_name: String,
}

/// The `name` of a request; `None` when it has none.
pub fn decode_name_request(msg: &[u8]) -> (r: Option<NameFields>)
    ensures
        r is Some <==> json_text_field(msg@, "name"@) is Some,
        r matches Some(f) ==> Some(f.name@) == json_text_field(msg@, "name"@),
{
    match request_text(msg, "name") {
        Some(name) => Some(NameFields { name }),
        None => None,
    }
}

/// The fields of a request to create a bridge; `None` when one is missing.
pub fn decode_bridge_request(msg: &[u8]) -> (r: Option<BridgeFields>)
    ensures
        r is Some <==> json_text_field(msg@, "name"@) is Some && json_text_field(msg@, "ip"@) is Some
            && json_u64_field(msg@, "subnet"@) is Some && json_text_field(msg@, "status"@) is Some
            && json_text_field(msg@, "network"@) is Some,
        r matches Some(f) ==> Some(f.name@) == json_text_field(msg@, "name"@) && Some(f.ip@)
            == json_text_field(msg@, "ip"@) && Some(f.subnet) == json_u64_field(msg@, "subnet"@)
            && Some(f.status@) == json_text_field(msg@, "status"@) && Some(f.network@)
            == json_text_field(msg@, "network"@),
{
    let name = request_text(msg, "name");
    let ip = request_text(msg, "ip");
    let subnet = request_u64(msg, "subnet");
    let status = request_text(msg, "status");
    let network = request_text(msg, "network");
    match (name, ip, subnet, status, network) {
        (Some(name), Some(ip), Some(subnet), Some(status), Some(network)) => Some(
            BridgeFields { name, ip, subnet, status, network },
        ),
        _ => None,
    }
}

/// The names of a request's veth ends; `None` when one is missing.
pub fn decode_veth_names(msg: &[u8]) -> (r: Option<VethNameFields>)
    ensures
        r is Some <==> json_text_field(msg@, "veth0_name"@) is Some && json_text_field(
            msg@,
            "veth1_name"@,
        ) is Some,
        r matches Some(f) ==> Some(f.veth0_name@) == json_text_field(msg@, "veth0_name"@) && Some(
            f.veth1_name@,
        ) == json_text_field(msg@, "veth1_name"@),
{
    let veth0_name = request_text(msg, "veth0_name");
    let veth1_name = request_text(msg, "veth1_name");
    match (veth0_name, veth1_name) {
        (Some(veth0_name), Some(veth1_name)) => Some(VethNameFields { veth0_name, veth1_name }),
        _ => None,
    }
}

/// The addresses and prefix length of a request to address a veth pair;
/// `None` when one is missing.
pub fn decode_veth_addresses(msg: &[u8]) -> (r: Option<VethAddressFields>)
    ensures
        r is Some <==> json_text_field(msg@, "veth0_ip"@) is Some && json_text_field(
            msg@,
            "veth1_ip"@,
        ) is Some && json_u64_field(msg@, "subnet"@) is Some,
        r matches Some(f) ==> Some(f.veth0_ip@) == json_text_field(msg@, "veth0_ip"@) && Some(
            f.veth1_ip@,
        ) == json_text_field(msg@, "veth1_ip"@) && Some(f.subnet) == json_u64_field(
            msg@,
            "subnet"@,
        ),
{
    let veth0_ip = request_text(msg, "veth0_ip");
    let veth1_ip = request_text(msg, "veth1_ip");
    let subnet = request_u64(msg, "subnet");
    match (veth0_ip, veth1_ip, subnet) {
        (Some(veth0_ip), Some(veth1_ip), Some(subnet)) => Some(
            VethAddressFields { veth0_ip, veth1_ip, subnet },
        ),
        _ => None,
    }
}

/// The fields of a request to define a container; `None` when one is missing.
pub fn decode_container_request(msg: &[u8]) -> (r: Option<ContainerFields>)
    ensures
        r is Some <==> json_text_field(msg@, "name"@) is Some && json_text_field(
            msg@,
            "bridge_name"@,
        ) is Some && json_text_field(msg@, "veth0_name"@) is Some && json_text_field(
            msg@,
            "veth1_name"@,
        ) is Some,
        r matches Some(f) ==> Some(f.name@) == json_text_field(msg@, "name"@) && Some(
            f.bridge_name@,
        ) == json_text_field(msg@, "bridge_name"@) && Some(f.veth0_name@) == json_text_field(
            msg@,
            "veth0_name"@,
        ) && Some(f.veth1_name@) == json_text_field(msg@, "veth1_name"@),
{
    let name = request_text(msg, "name");
    let bridge_name = request_text(msg, "bridge_name");
    let veth0_name = request_text(msg, "veth0_name");
    let veth1_name = request_text(msg, "veth1_name");
    match (name, bridge_name, veth0_name, veth1_name) {
        (Some(name), Some(bridge_name), Some(veth0_name), Some(veth1_name)) => Some(
            ContainerFields { name, bridge_name, veth0_name, veth1_name },
        ),
        _ => None,
    }
}

} // verus!
