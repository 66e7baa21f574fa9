//! Properties that relate several of the library's functions.

use vstd::prelude::*;
use crate::protocol::{Op, op_code, op_from_code, frame_bytes, read_frame, menu_choice_spec};
use crate::ipv4::{Ipv4Addr, dotted, decimal, parse_ipv4_spec, lemma_ipv4_grammar, lemma_parse_spec_is_grammar, lemma_decimal};
use crate::text::{parse_u8_spec, unsigned_digits, is_digit, trimmed, lemma_unpadded_of_trimmed, lemma_trimmed_of_unpadded, lemma_trimmed_idempotent};
use crate::store::Store;
use crate::cli::{Status, status_text, status_answer, same_ignoring_case, lower_code};
use crate::text::is_white_space;
use crate::container::{ContainerView, defined_container};
use crate::container::bridge::{BridgeView, named_bridge, with_bridge};
use crate::brain::{without_bridge, started_containers, stopped_containers, addressed_bridge, addressed_pair};
use crate::text::system_name;
use crate::container::veth::{VethPairView, pair_key};

verus! {

/// A request framed by the command line is read back whole by the daemon,
/// whatever follows it on the stream, as long as its payload fits the
/// one-byte length (at most 255 bytes).
pub proof fn lemma_frame_round_trip(op: u8, payload: Seq<u8>, rest: Seq<u8>)
    requires
        payload.len() <= 255,
    ensures
        read_frame(frame_bytes(op, payload) + rest) == Some((op, payload, (payload.len() + 2) as nat)),
        (frame_bytes(op, payload) + rest).skip(payload.len() + 2int) == rest,
{
    let b = frame_bytes(op, payload) + rest;
    assert(b[1] == payload.len());
    assert(b.subrange(2, 2 + payload.len() as int) =~= payload);
    assert(b.skip(payload.len() + 2int) =~= rest);
}

/// A payload longer than 255 bytes does not fit the length byte: the daemon
/// reads only its first `len % 256` bytes as the request.
pub proof fn lemma_frame_long_payload(op: u8, payload: Seq<u8>)
    requires
        payload.len() > 255,
    ensures
        read_frame(frame_bytes(op, payload)) == Some((
            op,
            payload.take((payload.len() % 256) as int),
            (payload.len() % 256 + 2) as nat,
        )),
{
    let b = frame_bytes(op, payload);
    let k = (payload.len() % 256) as int;
    assert(b[1] == k);
    assert(b.subrange(2, 2 + k) =~= payload.take(k));
}

/// Every operation's byte names that operation, and only operations' bytes
/// name one.
pub proof fn lemma_op_code_round_trip(op: Op, b: u8)
    ensures
        op_from_code(op_code(op)) == Some(op),
        op_from_code(b) == Some(op) ==> op_code(op) == b,
{
}

/// The operation chosen at the menu is the one the daemon carries out: the
/// command line sends its byte, and the daemon names the operation by the
/// byte it reads.
pub proof fn lemma_menu_choice_reaches_daemon(line: Seq<char>, payload: Seq<u8>, rest: Seq<u8>)
    requires
        menu_choice_spec(line) is Some,
        payload.len() <= 255,
    ensures
        ({
            let op = menu_choice_spec(line)->0;
            let read = read_frame(frame_bytes(op_code(op), payload) + rest);
            &&& read is Some
            &&& op_from_code(read.unwrap().0) == Some(op)
            &&& read.unwrap().1 == payload
        }),
{
    let op = menu_choice_spec(line)->0;
    lemma_frame_round_trip(op_code(op), payload, rest);
}

/// The dotted-decimal text of an address reads back as that address.
pub proof fn lemma_ipv4_text_round_trip(ip: Ipv4Addr)
    ensures
        parse_ipv4_spec(dotted(ip)) == Some(ip),
{
    lemma_parse_spec_is_grammar(dotted(ip));
    lemma_ipv4_grammar(dotted(ip), ip);
}

/// Different addresses have different dotted-decimal texts.
pub proof fn lemma_dotted_injective(ip1: Ipv4Addr, ip2: Ipv4Addr)
    ensures
        dotted(ip1) == dotted(ip2) ==> ip1 == ip2,
{
    lemma_ipv4_text_round_trip(ip1);
    lemma_ipv4_text_round_trip(ip2);
}

/// The decimal text of a byte reads back as that byte.
pub proof fn lemma_u8_text_round_trip(n: u8)
    ensures
        parse_u8_spec(decimal(n as nat)) == Some(n),
{
    lemma_decimal(n as nat);
    let d = decimal(n as nat);
    assert(is_digit(d[0]));
    assert(unsigned_digits(d) == d);
}

/// What is kept under a name is what was last written there; writing or
/// forgetting one name leaves every other name as it was.
pub proof fn lemma_store_read_after_write<V: View>(
    store: Store<V>,
    key: Seq<char>,
    value: V::V,
    other: Seq<char>,
)
    requires
        other != key,
    ensures
        store@.insert(key, value).dom().contains(key),
        store@.insert(key, value)[key] == value,
        !store@.remove(key).dom().contains(key),
        store@.insert(key, value).dom().contains(other) == store@.dom().contains(other),
        store@.remove(key).dom().contains(other) == store@.dom().contains(other),
        store@.dom().contains(other) ==> store@.insert(key, value)[other] == store@[other]
            && store@.remove(key)[other] == store@[other],
{
}

/// The name the command line sends has no surrounding white space, so it is
/// its own trimmed form.
pub proof fn lemma_request_names_are_trimmed(line: Seq<char>)
    ensures
        trimmed(trimmed(line)) == trimmed(line),
{
    lemma_trimmed_idempotent(line);
}

/// When both ends' names have no surrounding white space (as the command
/// line sends them), deleting a veth pair forgets exactly the entry its
/// creation wrote.
pub proof fn lemma_veth_delete_forgets_created(
    veths: Map<Seq<char>, VethPairView>,
    front: Seq<char>,
    back: Seq<char>,
    pair: VethPairView,
)
    requires
        trimmed(front) == front,
        trimmed(back) == back,
    ensures
        trimmed(pair_key(front, back)) == pair_key(front, back),
        !veths.insert(pair_key(front, back), pair).remove(trimmed(pair_key(front, back))).dom().contains(
            pair_key(front, back),
        ),
{
    lemma_unpadded_of_trimmed(front);
    lemma_unpadded_of_trimmed(back);
    let k = pair_key(front, back);
    assert(k[0] == if front.len() > 0 {
        front[0]
    } else {
        '_'
    });
    assert(k.last() == if back.len() > 0 {
        back.last()
    } else {
        '_'
    });
    lemma_trimmed_of_unpadded(k);
}

/// After a bridge is deleted (`bridge_deleted`, then the bridge file written
/// with `record_into` for the bridge the request named), the daemon keeps under
/// its name the bare record it deleted it by: the address, prefix, status and
/// network are gone; every other bridge is kept as it was.
pub proof fn lemma_deleted_bridge_is_bare(
    bridges: Map<Seq<char>, BridgeView>,
    name: Seq<char>,
    other: Seq<char>,
)
    requires
        other != name,
    ensures
        with_bridge(without_bridge(bridges, name), named_bridge(name))[name] == named_bridge(name),
        with_bridge(without_bridge(bridges, name), named_bridge(name))[name].ip is None,
        with_bridge(without_bridge(bridges, name), named_bridge(name))[name].subnet is None,
        with_bridge(without_bridge(bridges, name), named_bridge(name))[name].status is None,
        with_bridge(without_bridge(bridges, name), named_bridge(name))[name].network is None,
        with_bridge(without_bridge(bridges, name), named_bridge(name)).dom().contains(other)
            == bridges.dom().contains(other),
        bridges.dom().contains(other) ==> with_bridge(without_bridge(bridges, name), named_bridge(name))[other]
            == bridges[other],
{
}

/// Creating a bridge and then writing the bridge file keeps the bridge once,
/// under its name.
pub proof fn lemma_created_bridge_is_kept(bridges: Map<Seq<char>, BridgeView>, b: BridgeView)
    ensures
        with_bridge(with_bridge(bridges, b), b) == with_bridge(bridges, b),
        with_bridge(with_bridge(bridges, b), b)[b.name] == b,
{
    assert(with_bridge(with_bridge(bridges, b), b) =~= with_bridge(bridges, b));
}

/// A container runs as the process it was started as: after
/// `container_started` the record under its name carries that process, which
/// `container_to_stop` then reads; after `container_stopped` it is no longer
/// running, and the other running containers are untouched. A defined
/// container carries copies of its bridge and veth pair and no process.
pub proof fn lemma_container_lifecycle(
    running: Map<Seq<char>, ContainerView>,
    name: Seq<char>,
    con: ContainerView,
    pid: i32,
    other: Seq<char>,
    bridge: BridgeView,
    veth: VethPairView,
)
    requires
        other != name,
    ensures
        started_containers(running, name, con, pid).dom().contains(name),
        started_containers(running, name, con, pid)[name].pid == Some(pid),
        !stopped_containers(started_containers(running, name, con, pid), name).dom().contains(name),
        stopped_containers(started_containers(running, name, con, pid), name).dom().contains(other)
            == running.dom().contains(other),
        defined_container(name, bridge, veth).pid is None,
        defined_container(name, bridge, veth).bridge == bridge,
        defined_container(name, bridge, veth).veth == veth,
{
}

/// Typing the number the menu shows for an operation selects that operation.
pub proof fn lemma_menu_number_selects(op: Op)
    ensures
        menu_choice_spec(decimal(op_code(op) as nat)) == Some(op),
{
    let t = decimal(op_code(op) as nat);
    lemma_decimal(op_code(op) as nat);
    assert(is_digit(t[0]));
    assert(is_digit(t[t.len() - 1]));
    assert(!is_white_space(t[0]));
    assert(!is_white_space(t.last()));
    lemma_trimmed_of_unpadded(t);
    assert forall|op2: Op| decimal(op_code(op2) as nat) == t implies op2 == op by {
        lemma_u8_text_round_trip(op_code(op2));
        lemma_u8_text_round_trip(op_code(op));
    }
}

/// The status the command line sends reads back as the same status.
pub proof fn lemma_status_text_round_trip(st: Status)
    ensures
        status_answer(status_text(st)) == Some(st),
{
    reveal_strlit("up");
    reveal_strlit("down");
    let t = status_text(st);
    assert(t.len() > 0);
    assert(!is_white_space(t[0]));
    assert(!is_white_space(t.last()));
    lemma_trimmed_of_unpadded(t);
    if st == Status::Down {
        assert(!same_ignoring_case(t, "up"@)) by {
            assert(lower_code(t[0]) != ("up"@[0] as u32));
        }
        assert(same_ignoring_case(t, "down"@));
    } else {
        assert(same_ignoring_case(t, "up"@));
    }
}

/// A line whose text, without surrounding white space, is the number of
/// `op` selects `op`.
proof fn lemma_menu_line(line: Seq<char>, op: Op)
    requires
        trimmed(line) == decimal(op_code(op) as nat),
    ensures
        menu_choice_spec(line) == Some(op),
{
    lemma_menu_number_selects(op);
    let t = decimal(op_code(op) as nat);
    lemma_decimal(op_code(op) as nat);
    assert(is_digit(t[0]));
    assert(is_digit(t[t.len() - 1]));
    lemma_trimmed_of_unpadded(t);
}

/// The menu's numbering, which is also the wire's: the line holding the
/// number that the menu prints beside an operation (white space around it
/// aside) selects that operation, that number is the operation's byte, and
/// the daemon reads that byte as that operation. Entry 1 creates a bridge,
/// 2 deletes one, 3 creates a veth pair, 4 gives it addresses, 5 deletes it,
/// 6 creates a network namespace, 7 deletes one, 8 creates a mount
/// namespace, 9 deletes one, 10 creates a container, 11 starts one and
/// 12 stops one.
pub proof fn lemma_menu_entries(line: Seq<char>)
    ensures
        trimmed(line) == seq!['1'] ==> menu_choice_spec(line) == Some(Op::CreateBridge),
        trimmed(line) == seq!['2'] ==> menu_choice_spec(line) == Some(Op::DeleteBridge),
        trimmed(line) == seq!['3'] ==> menu_choice_spec(line) == Some(Op::CreateVeth),
        trimmed(line) == seq!['4'] ==> menu_choice_spec(line) == Some(Op::AssignVethIp),
        trimmed(line) == seq!['5'] ==> menu_choice_spec(line) == Some(Op::DeleteVeth),
        trimmed(line) == seq!['6'] ==> menu_choice_spec(line) == Some(Op::CreateNetNs),
        trimmed(line) == seq!['7'] ==> menu_choice_spec(line) == Some(Op::DeleteNetNs),
        trimmed(line) == seq!['8'] ==> menu_choice_spec(line) == Some(Op::CreateMountNs),
        trimmed(line) == seq!['9'] ==> menu_choice_spec(line) == Some(Op::DeleteMountNs),
        trimmed(line) == seq!['1', '0'] ==> menu_choice_spec(line) == Some(Op::CreateContainer),
        trimmed(line) == seq!['1', '1'] ==> menu_choice_spec(line) == Some(Op::StartContainer),
        trimmed(line) == seq!['1', '2'] ==> menu_choice_spec(line) == Some(Op::StopContainer),
        op_code(Op::CreateBridge) == 1 && op_from_code(1) == Some(Op::CreateBridge),
        op_code(Op::DeleteBridge) == 2 && op_from_code(2) == Some(Op::DeleteBridge),
        op_code(Op::CreateVeth) == 3 && op_from_code(3) == Some(Op::CreateVeth),
        op_code(Op::AssignVethIp) == 4 && op_from_code(4) == Some(Op::AssignVethIp),
        op_code(Op::DeleteVeth) == 5 && op_from_code(5) == Some(Op::DeleteVeth),
        op_code(Op::CreateNetNs) == 6 && op_from_code(6) == Some(Op::CreateNetNs),
        op_code(Op::DeleteNetNs) == 7 && op_from_code(7) == Some(Op::DeleteNetNs),
        op_code(Op::CreateMountNs) == 8 && op_from_code(8) == Some(Op::CreateMountNs),
        op_code(Op::DeleteMountNs) == 9 && op_from_code(9) == Some(Op::DeleteMountNs),
        op_code(Op::CreateContainer) == 10 && op_from_code(10) == Some(Op::CreateContainer),
        op_code(Op::StartContainer) == 11 && op_from_code(11) == Some(Op::StartContainer),
        op_code(Op::StopContainer) == 12 && op_from_code(12) == Some(Op::StopContainer),
{
    vstd::utf8::char_u32_cast('0', 48);
    vstd::utf8::char_u32_cast('1', 49);
    vstd::utf8::char_u32_cast('2', 50);
    vstd::utf8::char_u32_cast('3', 51);
    vstd::utf8::char_u32_cast('4', 52);
    vstd::utf8::char_u32_cast('5', 53);
    vstd::utf8::char_u32_cast('6', 54);
    vstd::utf8::char_u32_cast('7', 55);
    vstd::utf8::char_u32_cast('8', 56);
    vstd::utf8::char_u32_cast('9', 57);
    reveal_with_fuel(decimal, 2);
    assert(decimal(1) =~= seq!['1']);
    assert(decimal(2) =~= seq!['2']);
    assert(decimal(3) =~= seq!['3']);
    assert(decimal(4) =~= seq!['4']);
    assert(decimal(5) =~= seq!['5']);
    assert(decimal(6) =~= seq!['6']);
    assert(decimal(7) =~= seq!['7']);
    assert(decimal(8) =~= seq!['8']);
    assert(decimal(9) =~= seq!['9']);
    assert(decimal(10) =~= seq!['1', '0']);
    assert(decimal(11) =~= seq!['1', '1']);
    assert(decimal(12) =~= seq!['1', '2']);
    if trimmed(line) == seq!['1'] { lemma_menu_line(line, Op::CreateBridge); }
    if trimmed(line) == seq!['2'] { lemma_menu_line(line, Op::DeleteBridge); }
    if trimmed(line) == seq!['3'] { lemma_menu_line(line, Op::CreateVeth); }
    if trimmed(line) == seq!['4'] { lemma_menu_line(line, Op::AssignVethIp); }
    if trimmed(line) == seq!['5'] { lemma_menu_line(line, Op::DeleteVeth); }
    if trimmed(line) == seq!['6'] { lemma_menu_line(line, Op::CreateNetNs); }
    if trimmed(line) == seq!['7'] { lemma_menu_line(line, Op::DeleteNetNs); }
    if trimmed(line) == seq!['8'] { lemma_menu_line(line, Op::CreateMountNs); }
    if trimmed(line) == seq!['9'] { lemma_menu_line(line, Op::DeleteMountNs); }
    if trimmed(line) == seq!['1', '0'] { lemma_menu_line(line, Op::CreateContainer); }
    if trimmed(line) == seq!['1', '1'] { lemma_menu_line(line, Op::StartContainer); }
    if trimmed(line) == seq!['1', '2'] { lemma_menu_line(line, Op::StopContainer); }
}

/// A created bridge is recorded as the request asked: under its name, with
/// the system name derived from it and no interface index yet, and with the
/// request's address, status and network and its prefix length cut to a
/// byte. Nothing of the request is replaced by a default.
pub proof fn lemma_created_bridge_keeps_request(
    name: Seq<char>,
    ip: Seq<char>,
    subnet: u64,
    status: Seq<char>,
    network: Seq<char>,
)
    ensures
        ({
            let b = addressed_bridge(name, ip, subnet, status, network);
            &&& b.name == name
            &&& b.insys == system_name(name)
            &&& b.index is None
            &&& b.ip == Some(ip)
            &&& b.subnet == Some((subnet % 256) as u8)
            &&& b.status == Some(status)
            &&& b.network == Some(network)
        }),
{
}

/// Giving a veth pair addresses changes only the address and prefix length
/// of each end: the front end gets `front`, the back end `back`, both get
/// `subnet`, and each end keeps its own name, system name and interface
/// index.
pub proof fn lemma_addressing_keeps_ends(p: VethPairView, front: Ipv4Addr, back: Ipv4Addr, subnet: u8)
    ensures
        ({
            let q = addressed_pair(p, front, back, subnet);
            &&& q.veth_front.name == p.veth_front.name
            &&& q.veth_front.insys == p.veth_front.insys
            &&& q.veth_front.index == p.veth_front.index
            &&& q.veth_front.ip == Some(front)
            &&& q.veth_front.subnet == Some(subnet)
            &&& q.veth_back.name == p.veth_back.name
            &&& q.veth_back.insys == p.veth_back.insys
            &&& q.veth_back.index == p.veth_back.index
            &&& q.veth_back.ip == Some(back)
            &&& q.veth_back.subnet == Some(subnet)
        }),
{
}

/// Case folding covers every ASCII capital, `A` to `Z`, each mapped to its
/// small letter, and leaves every other character as it is.
pub proof fn lemma_ascii_case_folding(c: char)
    ensures
        ('A' as u32) <= (c as u32) <= ('Z' as u32) ==> lower_code(c) == (c as u32) + 32,
        !(('A' as u32) <= (c as u32) <= ('Z' as u32)) ==> lower_code(c) == (c as u32),
{
}

/// A character that folds to the small letter `small` is that letter or
/// its capital.
proof fn lemma_folds_to(c: char, small: char, capital: char)
    requires
        lower_code(c) == (small as u32),
        (capital as u32) + 32 == (small as u32),
        ('a' as u32) <= (small as u32) <= ('z' as u32),
    ensures
        c == small || c == capital,
{
    vstd::utf8::char_u32_cast(c, c as u32);
    vstd::utf8::char_u32_cast(small, small as u32);
    vstd::utf8::char_u32_cast(capital, capital as u32);
}

/// The status prompt ignores case and surrounding white space: a line
/// means up exactly when it reads `up` in any mix of case, and down exactly
/// when it is blank or reads `down` in any mix of case (so `DOWN` is down);
/// any other line is refused.
pub proof fn lemma_status_ignores_case(s: Seq<char>)
    ensures
        ({
            let t = trimmed(s);
            let up = t.len() == 2 && (t[0] == 'u' || t[0] == 'U') && (t[1] == 'p' || t[1] == 'P');
            let down = t.len() == 4 && (t[0] == 'd' || t[0] == 'D') && (t[1] == 'o' || t[1] == 'O')
                && (t[2] == 'w' || t[2] == 'W') && (t[3] == 'n' || t[3] == 'N');
            &&& (status_answer(s) == Some(Status::Up)) == up
            &&& (status_answer(s) == Some(Status::Down)) == (t.len() == 0 || down)
            &&& (status_answer(s) is None) == (t.len() > 0 && !up && !down)
        }),
{
    reveal_strlit("up");
    reveal_strlit("down");
    let t = trimmed(s);
    let up = t.len() == 2 && (t[0] == 'u' || t[0] == 'U') && (t[1] == 'p' || t[1] == 'P');
    let down = t.len() == 4 && (t[0] == 'd' || t[0] == 'D') && (t[1] == 'o' || t[1] == 'O')
        && (t[2] == 'w' || t[2] == 'W') && (t[3] == 'n' || t[3] == 'N');
    if up {
        assert(same_ignoring_case(t, "up"@));
    }
    if down {
        assert(same_ignoring_case(t, "down"@));
    }
    if same_ignoring_case(t, "up"@) {
        assert(lower_code(t[0]) == ("up"@[0] as u32));
        assert(lower_code(t[1]) == ("up"@[1] as u32));
        lemma_folds_to(t[0], 'u', 'U');
        lemma_folds_to(t[1], 'p', 'P');
    }
    if same_ignoring_case(t, "down"@) {
        assert(lower_code(t[0]) == ("down"@[0] as u32));
        assert(lower_code(t[1]) == ("down"@[1] as u32));
        assert(lower_code(t[2]) == ("down"@[2] as u32));
        assert(lower_code(t[3]) == ("down"@[3] as u32));
        lemma_folds_to(t[0], 'd', 'D');
        lemma_folds_to(t[1], 'o', 'O');
        lemma_folds_to(t[2], 'w', 'W');
        lemma_folds_to(t[3], 'n', 'N');
    }
}

} // verus!
