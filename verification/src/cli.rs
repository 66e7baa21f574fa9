//! What the command line decides: which menu entry a line selects, which
//! answers it accepts, and the requests it sends to the daemon.

use vstd::prelude::*;
use vstd::string::*;
use crate::text::{trim, trimmed, parse_u8, parse_u8_spec, str_equal};
use crate::ipv4::{Ipv4Addr, parse_ipv4, parse_ipv4_spec, dotted, decimal};

verus! {

/// The prefix length a line gives, if it is one: the line without
/// surrounding white space read as a `u8`, at most 32.
pub open spec fn subnet_answer(s: Seq<char>) -> Option<u8> {
    match parse_u8_spec(trimmed(s)) {
        Some(p) => if p <= 32 {
            Some(p)
        } else {
            None
        },
        None => None,
    }
}

/// The prefix length a line typed at the prompt gives; `None` asks again.
pub fn parse_subnet(input: &str) -> (r: Option<u8>)
    ensures
        r == subnet_answer(input@),
        r matches Some(p) ==> p <= 32,
{
    match parse_u8(trim(input)) {
        Some(p) => if p <= 32 {
            Some(p)
        } else {
            None
        },
        None => None,
    }
}

/// The address a line typed at the prompt gives; `None` asks again.
pub fn parse_ip(input: &str) -> (r: Option<Ipv4Addr>)
    ensures
        r == parse_ipv4_spec(trimmed(input@)),
{
    parse_ipv4(trim(input))
}

/// The state a bridge is asked to be in.
#[derive(Clone, Copy, Debug, PartialEq, Eq, Structural)]
pub enum Status {
    Up,
    Down,
}

/// The text of a status, as the request carries it.
pub open spec fn status_text(s: Status) -> Seq<char> {
    match s {
        Status::Up => "up"@,
        Status::Down => "down"@,
    }
}

/// The code of `c` with an ASCII capital letter made small.
pub open spec fn lower_code(c: char) -> u32 {
    if 65 <= (c as u32) <= 90 {
        ((c as u32) + 32) as u32
    } else {
        c as u32
    }
}

/// `t` is `word` but for the case of ASCII letters in `t` (`word` in small letters).
pub open spec fn same_ignoring_case(t: Seq<char>, word: Seq<char>) -> bool {
    &&& t.len() == word.len()
    &&& forall|i: int| 0 <= i < t.len() ==> lower_code(#[trigger] t[i]) == (word[i] as u32)
}

/// The status a line gives: an empty line means down; otherwise the line
/// without surrounding white space, without regard to case, must be `up` or `down`.
pub open spec fn status_answer(s: Seq<char>) -> Option<Status> {
    let t = trimmed(s);
    if t.len() == 0 {
        Some(Status::Down)
    } else if same_ignoring_case(t, "up"@) {
        Some(Status::Up)
    } else if same_ignoring_case(t, "down"@) {
        Some(Status::Down)
    } else {
        None
    }
}

impl Status {
    /// The text of this status.
    pub fn text(&self) -> (r: String)
        ensures
            r@ == status_text(*self),
    {
        match self {
            Status::Up => String::from_str("up"),
            Status::Down => String::from_str("down"),
        }
    }
}

/// Whether `t` is `word` but for the case of ASCII letters in `t`.
fn equals_ignoring_case(t: &str, word: &str) -> (r: bool)
    ensures
        r == same_ignoring_case(t@, word@),
{
    let n = t.unicode_len();
    if n != word.unicode_len() {
        return false;
    }
    let mut i: usize = 0;
    while i < n
        invariant
            n == t@.len(),
            n == word@.len(),
            i <= n,
            forall|j: int| 0 <= j < i ==> lower_code(#[trigger] t@[j]) == (word@[j] as u32),
        decreases n - i,
    {
        let u = t.get_char(i) as u32;
        let lc = if 65 <= u && u <= 90 {
            u + 32
        } else {
            u
        };
        if lc != word.get_char(i) as u32 {
            return false;
        }
        i = i + 1;
    }
    true
}

/// The status a line typed at the prompt gives; `None` asks again.
pub fn parse_status(input: &str) -> (r: Option<Status>)
    ensures
        r == status_answer(input@),
{
    let t = trim(input);
    if t.unicode_len() == 0 {
        Some(Status::Down)
    } else if equals_ignoring_case(t, "up") {
        Some(Status::Up)
    } else if equals_ignoring_case(t, "down") {
        Some(Status::Down)
    } else {
        None
    }
}

/// Whether a line names an image the runtime offers: `Ubuntu`, without
/// surrounding white space.
pub fn is_known_image(input: &str) -> (r: bool)
    ensures
        r == (trimmed(input@) == "Ubuntu"@),
{
    str_equal(trim(input), "Ubuntu")
}

/// What a command prompt does with what has been typed so far: a blank
/// entry ends the list; anything else is taken as a command, as typed.
pub fn command_entry(typed: &str) -> (r: Option<String>)
    ensures
        trimmed(typed@).len() == 0 ==> r is None,
        trimmed(typed@).len() > 0 ==> (r matches Some(c) && c@ == typed@),
{
    if trim(typed).unicode_len() == 0 {
        None
    } else {
        Some(String::from_str(typed))
    }
}

#[verifier::external_type_specification]
#[verifier::external_body]
pub struct ExIpNetworkError(ipnetwork::IpNetworkError);

/// The CIDR text of the network with address `ip` and prefix length `prefix`.
pub open spec fn cidr_text(ip: Ipv4Addr, prefix: u8) -> Seq<char> {
    dotted(ip) + seq!['/'] + decimal(prefix as nat)
}

/// Calls `ipnetwork::Ipv4Network::new(ip, prefix)` and writes the network
/// with its `Display`. The crate's source refuses a prefix above 32 and
/// otherwise keeps the address and prefix as given; `Display` writes the
/// address (`std`'s dotted-decimal `Display`), `/`, and the prefix in decimal.
#[verifier::external_body]
fn ipv4_network_text(ip: Ipv4Addr, prefix: u8) -> (r: Result<String, ipnetwork::IpNetworkError>)
    ensures
        r is Ok <==> prefix <= 32,
        r matches Ok(t) ==> t@ == cidr_text(ip, prefix),
{
    match ipnetwork::Ipv4Network::new([ip.a, ip.b, ip.c, ip.d].into(), prefix) {
        Ok(net) => Ok(format!("{}", net)),
        Err(e) => Err(e),
    }
}

/// The network of a bridge with address `ip` and prefix length `prefix`,
/// in CIDR form.
pub fn bridge_network(ip: Ipv4Addr, prefix: u8) -> (r: String)
    requires
        prefix <= 32,
    ensures
        r@ == cidr_text(ip, prefix),
{
    ipv4_network_text(ip, prefix).unwrap()
}

/// A request that names one thing: a bridge to delete, a namespace to
/// create or delete, a container to start or stop.
pub struct NameRequest {
    pub name: String,
}

/// A request to create a bridge.
pub struct BridgeRequest {
    pub name: String,
    pub status: String,
    pub network: String,
    pub ip: Ipv4Addr,
    pub subnet: u8,
}

/// A request that names the two ends of a veth pair.
pub struct VethRequest {
    pub veth0_name: String,
    pub veth1_name: String,
}

/// A request to give the ends of a veth pair their addresses.
pub struct VethAddressRequest {
    pub veth0_name: String,
    pub veth1_name: String,
    pub veth0_ip: Ipv4Addr,
    pub veth1_ip: Ipv4Addr,
    pub subnet: u8,
}

/// A request to define a container.
pub struct ContainerRequest {
    pub name: String,
    pub image: String,
    pub bridge_name: String,
    pub veth0_name: String,
    pub veth1_name: String,
}

/// `s` without surrounding white space, as an owned string.
fn trimmed_string(s: &str) -> (r: String)
    ensures
        r@ == trimmed(s@),
{
    String::from_str(trim(s))
}

impl NameRequest {
    /// The request for the name typed as `line`.
    pub fn new(line: &str) -> (r: NameRequest)
        ensures
            r.name@ == trimmed(line@),
    {
        NameRequest { name: trimmed_string(line) }
    }
}

impl BridgeRequest {
    /// The request for a bridge named by `name_line`, in state `status`, with
    /// address `ip` and prefix length `subnet`; its network is written in CIDR form.
    pub fn new(name_line: &str, status: Status, ip: Ipv4Addr, subnet: u8) -> (r: BridgeRequest)
        requires
            subnet <= 32,
        ensures
            r.name@ == trimmed(name_line@),
            r.status@ == status_text(status),
            r.network@ == cidr_text(ip, subnet),
            r.ip == ip,
            r.subnet == subnet,
    {
        BridgeRequest {
            name: trimmed_string(name_line),
            status: status.text(),
            network: bridge_network(ip, subnet),
            ip,
            subnet,
        }
    }
}

impl VethRequest {
    /// The request for the veth ends typed as `line0` and `line1`.
    pub fn new(line0: &str, line1: &str) -> (r: VethRequest)
        ensures
            r.veth0_name@ == trimmed(line0@),
            r.veth1_name@ == trimmed(line1@),
    {
        VethRequest { veth0_name: trimmed_string(line0), veth1_name: trimmed_string(line1) }
    }
}

impl VethAddressRequest {
    /// The request to give the ends typed as `line0` and `line1` the
    /// addresses `ip0` and `ip1` with prefix length `subnet`.
    pub fn new(line0: &str, line1: &str, ip0: Ipv4Addr, ip1: Ipv4Addr, subnet: u8) -> (r:
        VethAddressRequest)
        ensures
            r.veth0_name@ == trimmed(line0@),
            r.veth1_name@ == trimmed(line1@),
            r.veth0_ip == ip0,
            r.veth1_ip == ip1,
            r.subnet == subnet,
    {
        VethAddressRequest {
            veth0_name: trimmed_string(line0),
            veth1_name: trimmed_string(line1),
            veth0_ip: ip0,
            veth1_ip: ip1,
            subnet,
        }
    }
}

impl ContainerRequest {
    /// The request for a container from the lines typed for its name, image,
    /// bridge and veth ends.
    pub fn new(name: &str, image: &str, bridge: &str, veth0: &str, veth1: &str) -> (r:
        ContainerRequest)
        ensures
            r.name@ == trimmed(name@),
            r.image@ == trimmed(image@),
            r.bridge_name@ == trimmed(bridge@),
            r.veth0_name@ == trimmed(veth0@),
            r.veth1_name@ == trimmed(veth1@),
    {
        ContainerRequest {
            name: trimmed_string(name),
            image: trimmed_string(image),
            bridge_name: trimmed_string(bridge),
            veth0_name: trimmed_string(veth0),
            veth1_name: trimmed_string(veth1),
        }
    }
}

} // verus!
