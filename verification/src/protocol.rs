//! The operations of the menu and how a request is framed on the wire.

use vstd::prelude::*;
use crate::text::{trimmed, trim, parse_u8, parse_u8_spec, unsigned_digits, is_digit};
use crate::ipv4::{decimal, canonical, lemma_decimal, lemma_canonical_is_decimal};

verus! {

/// The operations the daemon carries out, one per entry of the command-line menu.
#[derive(Clone, Copy, Debug, PartialEq, Eq, Structural)]
pub enum Op {
    CreateBridge,
    DeleteBridge,
    CreateVeth,
    AssignVethIp,
    DeleteVeth,
    CreateNetNs,
    DeleteNetNs,
    CreateMountNs,
    DeleteMountNs,
    CreateContainer,
    StartContainer,
    StopContainer,
}

/// The byte that names `op` on the wire (and its number in the menu).
pub open spec fn op_code(op: Op) -> u8 {
    match op {
        Op::CreateBridge => 1,
        Op::DeleteBridge => 2,
        Op::CreateVeth => 3,
        Op::AssignVethIp => 4,
        Op::DeleteVeth => 5,
        Op::CreateNetNs => 6,
        Op::DeleteNetNs => 7,
        Op::CreateMountNs => 8,
        Op::DeleteMountNs => 9,
        Op::CreateContainer => 10,
        Op::StartContainer => 11,
        Op::StopContainer => 12,
    }
}

/// The operation that the byte `b` names, if any.
pub open spec fn op_from_code(b: u8) -> Option<Op> {
    if b == 1 {
        Some(Op::CreateBridge)
    } else if b == 2 {
        Some(Op::DeleteBridge)
    } else if b == 3 {
        Some(Op::CreateVeth)
    } else if b == 4 {
        Some(Op::AssignVethIp)
    } else if b == 5 {
        Some(Op::DeleteVeth)
    } else if b == 6 {
        Some(Op::CreateNetNs)
    } else if b == 7 {
        Some(Op::DeleteNetNs)
    } else if b == 8 {
        Some(Op::CreateMountNs)
    } else if b == 9 {
        Some(Op::DeleteMountNs)
    } else if b == 10 {
        Some(Op::CreateContainer)
    } else if b == 11 {
        Some(Op::StartContainer)
    } else if b == 12 {
        Some(Op::StopContainer)
    } else {
        None
    }
}

impl Op {
    /// The byte that names this operation.
    pub fn code(&self) -> (r: u8)
        ensures
            r == op_code(*self),
            1 <= r <= 12,
            *self == Op::CreateBridge ==> r == 1,
            *self == Op::DeleteBridge ==> r == 2,
            *self == Op::CreateVeth ==> r == 3,
            *self == Op::AssignVethIp ==> r == 4,
            *self == Op::DeleteVeth ==> r == 5,
            *self == Op::CreateNetNs ==> r == 6,
            *self == Op::DeleteNetNs ==> r == 7,
            *self == Op::CreateMountNs ==> r == 8,
            *self == Op::DeleteMountNs ==> r == 9,
            *self == Op::CreateContainer ==> r == 10,
            *self == Op::StartContainer ==> r == 11,
            *self == Op::StopContainer ==> r == 12,
    {
        match self {
            Op::CreateBridge => 1,
            Op::DeleteBridge => 2,
            Op::CreateVeth => 3,
            Op::AssignVethIp => 4,
            Op::DeleteVeth => 5,
            Op::CreateNetNs => 6,
            Op::DeleteNetNs => 7,
            Op::CreateMountNs => 8,
            Op::DeleteMountNs => 9,
            Op::CreateContainer => 10,
            Op::StartContainer => 11,
            Op::StopContainer => 12,
        }
    }

    /// The operation named by the byte `b`; `None` for a byte that names none.
    pub fn from_code(b: u8) -> (r: Option<Op>)
        ensures
            r == op_from_code(b),
            (b == 0 || b > 12) <==> r is None,
            b == 1 ==> r == Some(Op::CreateBridge),
            b == 2 ==> r == Some(Op::DeleteBridge),
            b == 3 ==> r == Some(Op::CreateVeth),
            b == 4 ==> r == Some(Op::AssignVethIp),
            b == 5 ==> r == Some(Op::DeleteVeth),
            b == 6 ==> r == Some(Op::CreateNetNs),
            b == 7 ==> r == Some(Op::DeleteNetNs),
            b == 8 ==> r == Some(Op::CreateMountNs),
            b == 9 ==> r == Some(Op::DeleteMountNs),
            b == 10 ==> r == Some(Op::CreateContainer),
            b == 11 ==> r == Some(Op::StartContainer),
            b == 12 ==> r == Some(Op::StopContainer),
    {
        if b == 1 {
            Some(Op::CreateBridge)
        } else if b == 2 {
            Some(Op::DeleteBridge)
        } else if b == 3 {
            Some(Op::CreateVeth)
        } else if b == 4 {
            Some(Op::AssignVethIp)
        } else if b == 5 {
            Some(Op::DeleteVeth)
        } else if b == 6 {
            Some(Op::CreateNetNs)
        } else if b == 7 {
            Some(Op::DeleteNetNs)
        } else if b == 8 {
            Some(Op::CreateMountNs)
        } else if b == 9 {
            Some(Op::DeleteMountNs)
        } else if b == 10 {
            Some(Op::CreateContainer)
        } else if b == 11 {
            Some(Op::StartContainer)
        } else if b == 12 {
            Some(Op::StopContainer)
        } else {
            None
        }
    }
}

/// The menu entry that the line `s` selects: the operation whose number,
/// written in decimal, is the line without surrounding white space.
pub open spec fn menu_choice_spec(s: Seq<char>) -> Option<Op> {
    if exists|op: Op| decimal(op_code(op) as nat) == trimmed(s) {
        Some(choose|op: Op| decimal(op_code(op) as nat) == trimmed(s))
    } else {
        None
    }
}

/// The menu entry a line typed at the prompt selects, if any.
pub fn menu_choice(input: &str) -> (r: Option<Op>)
    ensures
        r == menu_choice_spec(input@),
        r matches Some(op) ==> decimal(op_code(op) as nat) == trimmed(input@),
        r is None ==> forall|op: Op| decimal(op_code(op) as nat) != trimmed(input@),
{
    let t = trim(input);
    let ghost ts = t@;
    assert forall|op: Op| #[trigger] decimal(op_code(op) as nat) == ts implies parse_u8_spec(ts)
        == Some(op_code(op)) && ts[0] != '+' && canonical(ts) by {
        lemma_decimal(op_code(op) as nat);
        assert(is_digit(ts[0]));
        assert(unsigned_digits(ts) == ts);
    }
    let v = match parse_u8(t) {
        Some(v) => v,
        None => return None,
    };
    let op = match Op::from_code(v) {
        Some(op) => op,
        None => {
            assert forall|op: Op| decimal(op_code(op) as nat) != ts by {
                if decimal(op_code(op) as nat) == ts {
                    assert(op_from_code(op_code(op)) == Some(op));
                }
            }
            return None;
        },
    };
    let n = t.unicode_len();
    let first = t.get_char(0);
    if first == '+' || (first == '0' && n > 1) {
        assert forall|op2: Op| decimal(op_code(op2) as nat) != ts by {
            if decimal(op_code(op2) as nat) == ts {
                assert(ts[0] != '+' && canonical(ts));
            }
        }
        return None;
    }
    proof {
        let d = unsigned_digits(ts);
        assert(d == ts);
        lemma_canonical_is_decimal(ts);
        assert(op_code(op) == v);
        assert(decimal(op_code(op) as nat) == ts);
        assert forall|op2: Op| decimal(op_code(op2) as nat) == ts implies op2 == op by {
            assert(parse_u8_spec(ts) == Some(op_code(op2)));
        }
    }
    Some(op)
}

/// The bytes that carry one request: the operation byte, the payload length
/// as one byte (taken modulo 256), then the payload.
pub open spec fn frame_bytes(op: u8, payload: Seq<u8>) -> Seq<u8> {
    seq![op, (payload.len() % 256) as u8] + payload
}

/// What the daemon reads from the front of `bytes`: the operation byte, the
/// payload of the length the second byte gives, and how many bytes that took;
/// `None` while fewer bytes than that are at hand.
pub open spec fn read_frame(bytes: Seq<u8>) -> Option<(u8, Seq<u8>, nat)> {
    if bytes.len() >= 2 && bytes.len() >= 2 + bytes[1] {
        Some((bytes[0], bytes.subrange(2, 2 + bytes[1]), (2 + bytes[1]) as nat))
    } else {
        None
    }
}

/// One request as it travels between the command line and the daemon.
pub struct Frame {
    pub op: u8,
    pub payload: Vec<u8>,
}

/// Frames `payload` as a request for the operation byte `op`.
pub fn encode_frame(op: u8, payload: &[u8]) -> (r: Vec<u8>)
    ensures
        r@ == frame_bytes(op, payload@),
{
    let mut out: Vec<u8> = Vec::new();
    out.push(op);
    out.push((payload.len() % 256) as u8);
    let mut i: usize = 0;
    while i < payload.len()
        invariant
            i <= payload.len(),
            out@ == seq![op, (payload@.len() % 256) as u8] + payload@.subrange(0, i as int),
        decreases payload.len() - i,
    {
        out.push(payload[i]);
        i = i + 1;
        assert(out@ =~= seq![op, (payload@.len() % 256) as u8] + payload@.subrange(0, i as int));
    }
    assert(payload@.subrange(0, payload@.len() as int) =~= payload@);
    out
}

/// Reads one request from the front of `bytes`, with the number of bytes it took.
pub fn decode_frame(bytes: &[u8]) -> (r: Option<(Frame, usize)>)
    ensures
        match r {
            Some((f, used)) => read_frame(bytes@) == Some((f.op, f.payload@, used as nat)),
            None => read_frame(bytes@) is None,
        },
{
    if bytes.len() < 2 {
        return None;
    }
    let len = bytes[1] as usize;
    if bytes.len() < 2 + len {
        return None;
    }
    let mut payload: Vec<u8> = Vec::new();
    let mut i: usize = 0;
    while i < len
        invariant
            i <= len,
            len == bytes@[1],
            2 + len <= bytes@.len(),
            payload@ == bytes@.subrange(2, 2 + i),
        decreases len - i,
    {
        payload.push(bytes[2 + i]);
        i = i + 1;
        assert(payload@ =~= bytes@.subrange(2, 2 + i));
    }
    Some((Frame { op: bytes[0], payload }, 2 + len))
}

} // verus!
