//! IPv4 addresses: their dotted-decimal text, reading it, and writing numbers in decimal.

use vstd::prelude::*;
use vstd::string::*;
use crate::text::{is_digit, digit_value, all_digits, digits_value, char_is_digit};

verus! {

/// An IPv4 address, by its four octets in the order they are written.
#[derive(Clone, Copy, Debug, PartialEq, Eq, Structural)]
pub struct Ipv4Addr {
    pub a: u8,
    pub b: u8,
    pub c: u8,
    pub d: u8,
}

/// The dotted-decimal text of `ip`, as `Ipv4Addr`'s `Display` writes it.
pub open spec fn dotted(ip: Ipv4Addr) -> Seq<char> {
    decimal(ip.a as nat) + seq!['.'] + decimal(ip.b as nat) + seq!['.'] + decimal(ip.c as nat)
        + seq!['.'] + decimal(ip.d as nat)
}

/// What `str::parse::<Ipv4Addr>` gives for `s`: the address whose dotted-decimal
/// text `s` is, if there is one. Each octet is written in decimal without a
/// superfluous leading zero; no white space, sign or other character is allowed.
pub open spec fn parse_ipv4_spec(s: Seq<char>) -> Option<Ipv4Addr> {
    if exists|ip: Ipv4Addr| dotted(ip) == s {
        Some(choose|ip: Ipv4Addr| dotted(ip) == s)
    } else {
        None
    }
}

/// The character of the decimal digit `n` (for `n < 10`).
pub open spec fn digit_char(n: nat) -> char {
    ((n + 48) as u32) as char
}

/// The canonical decimal text of `n`: no sign, no leading zero.
pub open spec fn decimal(n: nat) -> Seq<char>
    decreases n,
{
    if n < 10 {
        seq![digit_char(n)]
    } else {
        decimal(n / 10).push(digit_char(n % 10))
    }
}

/// Decimal digits without a superfluous leading zero.
pub open spec fn canonical(d: Seq<char>) -> bool {
    d.len() == 1 || d[0] != '0'
}

proof fn lemma_digit_char(n: nat)
    requires
        n < 10,
    ensures
        is_digit(digit_char(n)),
        digit_value(digit_char(n)) == n,
        (digit_char(n) == '0') == (n == 0),
{
}

proof fn lemma_digit_char_of_value(c: char)
    requires
        is_digit(c),
    ensures
        digit_char(digit_value(c)) == c,
        digit_value(c) < 10,
{
    assert(((digit_value(c) + 48) as u32) == (c as u32));
    vstd::utf8::char_u32_cast(c, c as u32);
}

pub(crate) proof fn lemma_decimal(n: nat)
    ensures
        decimal(n).len() > 0,
        all_digits(decimal(n)),
        digits_value(decimal(n)) == n,
        canonical(decimal(n)),
        n > 0 ==> decimal(n)[0] != '0',
        n < 10 ==> decimal(n).len() == 1,
        n >= 10 ==> decimal(n).len() >= 2,
    decreases n,
{
    if n < 10 {
        lemma_digit_char(n);
        assert(decimal(n).drop_last() =~= Seq::<char>::empty());
        assert(digits_value(Seq::<char>::empty()) == 0);
    } else {
        lemma_decimal(n / 10);
        lemma_digit_char(n % 10);
        let d = decimal(n);
        assert(d.drop_last() =~= decimal(n / 10));
        assert forall|i: int| 0 <= i < d.len() implies #[trigger] is_digit(d[i]) by {
            if i < d.len() - 1 {
                assert(d[i] == decimal(n / 10)[i]);
            }
        }
    }
}

pub(crate) proof fn lemma_canonical_is_decimal(d: Seq<char>)
    requires
        d.len() > 0,
        all_digits(d),
        canonical(d),
    ensures
        d == decimal(digits_value(d)),
    decreases d.len(),
{
    let v = digits_value(d);
    let c = d.last();
    assert(is_digit(d[d.len() - 1]));
    if d.len() == 1 {
        assert(d.drop_last() =~= Seq::<char>::empty());
        assert(digits_value(Seq::<char>::empty()) == 0);
        assert(v == digit_value(c));
        lemma_digit_char_of_value(c);
        assert(d =~= seq![c]);
    } else {
        let p = d.drop_last();
        assert(p[0] == d[0]);
        assert forall|i: int| 0 <= i < p.len() implies #[trigger] is_digit(p[i]) by {
            assert(p[i] == d[i]);
        }
        lemma_canonical_is_decimal(p);
        let w = digits_value(p);
        lemma_decimal(w);
        if w == 0 {
            assert(p[0] == '0');
        }
        assert(v == w * 10 + digit_value(c));
        assert(v / 10 == w);
        assert(v % 10 == digit_value(c));
        lemma_digit_char_of_value(c);
        assert(d =~= p.push(c));
    }
}

/// Where the run of decimal digits that starts at `i` in `s` ends.
pub open spec fn run_end(s: Seq<char>, i: int) -> int
    decreases s.len() - i,
{
    if 0 <= i < s.len() && is_digit(s[i]) {
        run_end(s, i + 1)
    } else {
        i
    }
}

/// The octet that the digit run at `i` in `s` denotes, and where it ends.
pub open spec fn octet_at(s: Seq<char>, i: int) -> Option<(u8, int)> {
    let e = run_end(s, i);
    let d = s.subrange(i, e);
    if d.len() > 0 && canonical(d) && digits_value(d) <= 255 {
        Some((digits_value(d) as u8, e))
    } else {
        None
    }
}

/// A `.` at `e` in `s`, then an octet.
pub open spec fn dot_octet_at(s: Seq<char>, e: int) -> Option<(u8, int)> {
    if 0 <= e < s.len() && s[e] == '.' {
        octet_at(s, e + 1)
    } else {
        None
    }
}

/// The grammar the parser follows: four octets separated by dots, then the end.
pub open spec fn ipv4_grammar(s: Seq<char>) -> Option<Ipv4Addr> {
    match octet_at(s, 0) {
        Some((a, e1)) => match dot_octet_at(s, e1) {
            Some((b, e2)) => match dot_octet_at(s, e2) {
                Some((c, e3)) => match dot_octet_at(s, e3) {
                    Some((d, e4)) => if e4 == s.len() {
                        Some(Ipv4Addr { a, b, c, d })
                    } else {
                        None
                    },
                    None => None,
                },
                None => None,
            },
            None => None,
        },
        None => None,
    }
}

proof fn lemma_run_end_ge(s: Seq<char>, i: int)
    requires
        0 <= i <= s.len(),
    ensures
        i <= run_end(s, i) <= s.len(),
        forall|j: int| i <= j < run_end(s, i) ==> #[trigger] is_digit(s[j]),
        run_end(s, i) == s.len() || !is_digit(s[run_end(s, i)]),
    decreases s.len() - i,
{
    if i < s.len() && is_digit(s[i]) {
        lemma_run_end_ge(s, i + 1);
    }
}

proof fn lemma_run_end_exact(s: Seq<char>, i: int, k: int)
    requires
        0 <= i <= k <= s.len(),
        forall|j: int| i <= j < k ==> #[trigger] is_digit(s[j]),
        k == s.len() || !is_digit(s[k]),
    ensures
        run_end(s, i) == k,
    decreases k - i,
{
    if i < k {
        lemma_run_end_exact(s, i + 1, k);
    }
}

/// A run found by `octet_at` is the decimal text of its octet.
proof fn lemma_octet_text(s: Seq<char>, i: int)
    requires
        0 <= i <= s.len(),
        octet_at(s, i) is Some,
    ensures
        s.subrange(i, octet_at(s, i).unwrap().1) == decimal(octet_at(s, i).unwrap().0 as nat),
        i < octet_at(s, i).unwrap().1 <= s.len(),
        octet_at(s, i).unwrap().1 == s.len() || !is_digit(s[octet_at(s, i).unwrap().1]),
{
    lemma_run_end_ge(s, i);
    let e = run_end(s, i);
    let d = s.subrange(i, e);
    assert forall|j: int| 0 <= j < d.len() implies #[trigger] is_digit(d[j]) by {
        assert(d[j] == s[i + j]);
    }
    lemma_canonical_is_decimal(d);
}

/// The octet written at `i` is read back by `octet_at`.
proof fn lemma_octet_read(s: Seq<char>, i: int, v: u8)
    requires
        0 <= i,
        i + decimal(v as nat).len() <= s.len(),
        s.subrange(i, i + decimal(v as nat).len()) == decimal(v as nat),
        i + decimal(v as nat).len() == s.len() || !is_digit(s[i + decimal(v as nat).len()]),
    ensures
        octet_at(s, i) == Some((v, i + decimal(v as nat).len())),
{
    let t = decimal(v as nat);
    lemma_decimal(v as nat);
    let k = i + t.len();
    assert forall|j: int| i <= j < k implies #[trigger] is_digit(s[j]) by {
        assert(s[j] == s.subrange(i, k)[j - i]);
    }
    lemma_run_end_exact(s, i, k);
}

/// The grammar accepts exactly the dotted-decimal texts of addresses.
pub proof fn lemma_ipv4_grammar(s: Seq<char>, ip: Ipv4Addr)
    ensures
        (ipv4_grammar(s) == Some(ip)) <==> (s == dotted(ip)),
{
    if ipv4_grammar(s) == Some(ip) {
        let (a, e1) = octet_at(s, 0)->0;
        lemma_octet_text(s, 0);
        let (b, e2) = dot_octet_at(s, e1)->0;
        lemma_octet_text(s, e1 + 1);
        let (c, e3) = dot_octet_at(s, e2)->0;
        lemma_octet_text(s, e2 + 1);
        let (d, e4) = dot_octet_at(s, e3)->0;
        lemma_octet_text(s, e3 + 1);
        assert(s =~= s.subrange(0, e1) + seq!['.'] + s.subrange(e1 + 1, e2) + seq!['.']
            + s.subrange(e2 + 1, e3) + seq!['.'] + s.subrange(e3 + 1, e4));
    }
    if s == dotted(ip) {
        let ta = decimal(ip.a as nat);
        let tb = decimal(ip.b as nat);
        let tc = decimal(ip.c as nat);
        let td = decimal(ip.d as nat);
        lemma_decimal(ip.a as nat);
        lemma_decimal(ip.b as nat);
        lemma_decimal(ip.c as nat);
        lemma_decimal(ip.d as nat);
        let e1 = ta.len() as int;
        let e2 = e1 + 1 + tb.len();
        let e3 = e2 + 1 + tc.len();
        let e4 = e3 + 1 + td.len();
        assert(s.len() == e4);
        assert(s.subrange(0, e1) =~= ta);
        assert(s[e1] == '.');
        assert(s.subrange(e1 + 1, e2) =~= tb);
        assert(s[e2] == '.');
        assert(s.subrange(e2 + 1, e3) =~= tc);
        assert(s[e3] == '.');
        assert(s.subrange(e3 + 1, e4) =~= td);
        lemma_octet_read(s, 0, ip.a);
        lemma_octet_read(s, e1 + 1, ip.b);
        lemma_octet_read(s, e2 + 1, ip.c);
        lemma_octet_read(s, e3 + 1, ip.d);
    }
}

/// `parse_ipv4_spec` is the grammar the parser follows.
pub proof fn lemma_parse_spec_is_grammar(s: Seq<char>)
    ensures
        parse_ipv4_spec(s) == ipv4_grammar(s),
{
    if exists|ip: Ipv4Addr| dotted(ip) == s {
        let ip = choose|ip: Ipv4Addr| dotted(ip) == s;
        lemma_ipv4_grammar(s, ip);
    } else {
        match ipv4_grammar(s) {
            Some(ip) => {
                lemma_ipv4_grammar(s, ip);
            },
            None => {},
        }
    }
}

/// Reads the octet whose digits start at `i` in `s`.
fn read_octet(s: &str, n: usize, i: usize) -> (r: Option<(u8, usize)>)
    requires
        n == s@.len(),
        i <= n,
    ensures
        match r {
            Some((v, e)) => octet_at(s@, i as int) == Some((v, e as int)),
            None => octet_at(s@, i as int) is None,
        },
{
    let mut j: usize = i;
    let mut acc: u32 = 0;
    let mut over = false;
    assert(s@.subrange(i as int, i as int) =~= Seq::<char>::empty());
    assert(digits_value(Seq::<char>::empty()) == 0);
    while j < n && char_is_digit(s.get_char(j))
        invariant
            n == s@.len(),
            i <= j <= n,
            run_end(s@, i as int) == run_end(s@, j as int),
            over ==> digits_value(s@.subrange(i as int, j as int)) > 255,
            !over ==> acc == digits_value(s@.subrange(i as int, j as int)) && acc <= 255,
        decreases n - j,
    {
        let c = s.get_char(j);
        assert(s@.subrange(i as int, j + 1).drop_last() =~= s@.subrange(i as int, j as int));
        let dv = (c as u32) - 48;
        if !over {
            let next = acc * 10 + dv;
            if next > 255 {
                over = true;
            } else {
                acc = next;
            }
        }
        j = j + 1;
    }
    assert(run_end(s@, j as int) == j);
    if j == i || over {
        return None;
    }
    let first = s.get_char(i);
    if j - i != 1 && first == '0' {
        assert(s@.subrange(i as int, j as int)[0] == '0');
        return None;
    }
    Some((acc as u8, j))
}

/// Reads `s` as an IPv4 address in dotted-decimal form, as `str::parse::<Ipv4Addr>` does.
pub fn parse_ipv4(s: &str) -> (r: Option<Ipv4Addr>)
    ensures
        r == parse_ipv4_spec(s@),
        r matches Some(ip) ==> dotted(ip) == s@,
        r is None ==> forall|ip: Ipv4Addr| dotted(ip) != s@,
{
    proof {
        lemma_parse_spec_is_grammar(s@);
        assert forall|ip: Ipv4Addr| ipv4_grammar(s@) == Some(ip) <==> dotted(ip) == s@ by {
            lemma_ipv4_grammar(s@, ip);
        }
    }
    let n = s.unicode_len();
    let (a, e1) = match read_octet(s, n, 0) {
        Some(x) => x,
        None => return None,
    };
    if !(e1 < n && s.get_char(e1) == '.') {
        return None;
    }
    let (b, e2) = match read_octet(s, n, e1 + 1) {
        Some(x) => x,
        None => return None,
    };
    if !(e2 < n && s.get_char(e2) == '.') {
        return None;
    }
    let (c, e3) = match read_octet(s, n, e2 + 1) {
        Some(x) => x,
        None => return None,
    };
    if !(e3 < n && s.get_char(e3) == '.') {
        return None;
    }
    let (d, e4) = match read_octet(s, n, e3 + 1) {
        Some(x) => x,
        None => return None,
    };
    if e4 != n {
        return None;
    }
    Some(Ipv4Addr { a, b, c, d })
}

/// The one-character text of the decimal digit `d`.
fn digit_text(d: u64) -> (r: &'static str)
    requires
        d < 10,
    ensures
        r@ == seq![digit_char(d as nat)],
{
    proof {
        reveal_strlit("0");
        reveal_strlit("1");
        reveal_strlit("2");
        reveal_strlit("3");
        reveal_strlit("4");
        reveal_strlit("5");
        reveal_strlit("6");
        reveal_strlit("7");
        reveal_strlit("8");
        reveal_strlit("9");
    }
    let r = if d == 0 {
        "0"
    } else if d == 1 {
        "1"
    } else if d == 2 {
        "2"
    } else if d == 3 {
        "3"
    } else if d == 4 {
        "4"
    } else if d == 5 {
        "5"
    } else if d == 6 {
        "6"
    } else if d == 7 {
        "7"
    } else if d == 8 {
        "8"
    } else {
        "9"
    };
    assert(r@ =~= seq![digit_char(d as nat)]);
    r
}

/// `n` written in decimal, as `u64`'s `Display` writes it.
pub fn render_u64(n: u64) -> (r: String)
    ensures
        r@ == decimal(n as nat),
    decreases n,
{
    if n < 10 {
        String::from_str(digit_text(n))
    } else {
        let r = render_u64(n / 10).concat(digit_text(n % 10));
        assert(r@ =~= decimal(n as nat));
        r
    }
}

/// The decimal text of the integer `i`, with `-` before a negative one.
pub open spec fn int_text(i: int) -> Seq<char> {
    if i < 0 {
        seq!['-'] + decimal((-i) as nat)
    } else {
        decimal(i as nat)
    }
}

/// `n` written in decimal, as `i64`'s `Display` writes it.
pub fn render_i64(n: i64) -> (r: String)
    ensures
        r@ == int_text(n as int),
{
    if n < 0 {
        let m: u64 = (-(n as i128)) as u64;
        let r = String::from_str("-").concat(render_u64(m).as_str());
        proof {
            reveal_strlit("-");
            assert(r@ =~= int_text(n as int));
        }
        r
    } else {
        render_u64(n as u64)
    }
}

} // verus!
