use dcontainer::cli::{bridge_network, command_entry, is_known_image, parse_ip, parse_status, parse_subnet, Status};
use dcontainer::ipv4::{parse_ipv4, render_i64, render_u64, Ipv4Addr};
use dcontainer::protocol::{menu_choice, Op};
use dcontainer::text::{parse_u8, str_equal, trim};

fn ip(a: u8, b: u8, c: u8, d: u8) -> Ipv4Addr {
    Ipv4Addr { a, b, c, d }
}

#[test]
fn trim_drops_surrounding_white_space() {
    assert_eq!(trim("  br0 \n"), "br0");
    assert_eq!(trim("\t\u{3000}a b\u{a0}"), "a b");
    assert_eq!(trim(" \n\t "), "");
    assert_eq!(trim("x"), "x");
}

#[test]
fn str_equal_compares_characters() {
    assert!(str_equal("veth0", "veth0"));
    assert!(!str_equal("veth0", "veth1"));
    assert!(!str_equal("veth", "veth0"));
}

#[test]
fn parse_u8_follows_std() {
    assert_eq!(parse_u8("24"), Some(24));
    assert_eq!(parse_u8("+5"), Some(5));
    assert_eq!(parse_u8("007"), Some(7));
    assert_eq!(parse_u8("255"), Some(255));
    assert_eq!(parse_u8("256"), None);
    assert_eq!(parse_u8(""), None);
    assert_eq!(parse_u8("+"), None);
    assert_eq!(parse_u8("-1"), None);
    assert_eq!(parse_u8(" 5"), None);
    assert_eq!(parse_u8("99999999999"), None);
    for n in 0..=255u8 {
        assert_eq!(parse_u8(&n.to_string()), Some(n));
        assert_eq!(parse_u8(&n.to_string()), n.to_string().parse::<u8>().ok());
    }
}

#[test]
fn parse_ipv4_follows_std() {
    assert_eq!(parse_ipv4("192.168.1.10"), Some(ip(192, 168, 1, 10)));
    assert_eq!(parse_ipv4("0.0.0.0"), Some(ip(0, 0, 0, 0)));
    assert_eq!(parse_ipv4("255.255.255.255"), Some(ip(255, 255, 255, 255)));
    for s in [
        "01.2.3.4", "256.1.1.1", "1.2.3", "1.2.3.4.5", "1.2.3.4 ", " 1.2.3.4", "1..2.3", "a.b.c.d",
        "1.2.3.-4", "1.2.3.+4", "", "1.2.3.4.", "1000.1.1.1", "1.2.3.00",
    ] {
        assert_eq!(parse_ipv4(s), None, "{s}");
    }
    for (a, b, c, d) in [(10, 0, 0, 1), (1, 2, 3, 4), (127, 0, 0, 1), (100, 64, 0, 255)] {
        let s = format!("{a}.{b}.{c}.{d}");
        assert_eq!(parse_ipv4(&s), Some(ip(a, b, c, d)));
    }
}

#[test]
fn rendering_numbers() {
    assert_eq!(render_u64(0), "0");
    assert_eq!(render_u64(1234567890), "1234567890");
    assert_eq!(render_u64(u64::MAX), u64::MAX.to_string());
    assert_eq!(render_i64(-42), "-42");
    assert_eq!(render_i64(i64::MIN), i64::MIN.to_string());
    assert_eq!(render_i64(7), "7");
}

#[test]
fn menu_choice_selects_entries() {
    assert_eq!(menu_choice("1\n"), Some(Op::CreateBridge));
    assert_eq!(menu_choice(" 3 "), Some(Op::CreateVeth));
    assert_eq!(menu_choice("12"), Some(Op::StopContainer));
    assert_eq!(menu_choice("10\r\n"), Some(Op::CreateContainer));
    assert_eq!(menu_choice("13"), None);
    assert_eq!(menu_choice("0"), None);
    assert_eq!(menu_choice("03"), None);
    assert_eq!(menu_choice("+1"), None);
    assert_eq!(menu_choice(""), None);
    assert_eq!(menu_choice("one"), None);
}

#[test]
fn subnet_answers() {
    assert_eq!(parse_subnet("24\n"), Some(24));
    assert_eq!(parse_subnet("0"), Some(0));
    assert_eq!(parse_subnet("32"), Some(32));
    assert_eq!(parse_subnet("33"), None);
    assert_eq!(parse_subnet("abc"), None);
}

#[test]
fn ip_answers() {
    assert_eq!(parse_ip(" 10.0.0.1\n"), Some(ip(10, 0, 0, 1)));
    assert_eq!(parse_ip("10.0.0"), None);
}

#[test]
fn status_answers() {
    assert_eq!(parse_status("\n"), Some(Status::Down));
    assert_eq!(parse_status("UP\n"), Some(Status::Up));
    assert_eq!(parse_status(" Down "), Some(Status::Down));
    assert_eq!(parse_status("uP"), Some(Status::Up));
    assert_eq!(parse_status("upp"), None);
    assert_eq!(parse_status("sideways"), None);
    assert_eq!(Status::Up.text(), "up");
    assert_eq!(Status::Down.text(), "down");
}

#[test]
fn image_answers() {
    assert!(is_known_image("Ubuntu\n"));
    assert!(is_known_image("  Ubuntu "));
    assert!(!is_known_image("ubuntu"));
    assert!(!is_known_image("Debian"));
}

#[test]
fn bridge_network_is_cidr_text() {
    assert_eq!(bridge_network(ip(10, 0, 0, 1), 24), "10.0.0.1/24");
    assert_eq!(bridge_network(ip(192, 168, 7, 200), 0), "192.168.7.200/0");
    assert_eq!(bridge_network(ip(1, 2, 3, 4), 32), "1.2.3.4/32");
}

#[test]
fn command_entries() {
    assert_eq!(command_entry("ls -l\n"), Some("ls -l\n".to_string()));
    assert_eq!(command_entry(" \n"), None);
    assert_eq!(command_entry(""), None);
}

#[test]
fn menu_numbers_select_their_entries() {
    let all = [
        Op::CreateBridge,
        Op::DeleteBridge,
        Op::CreateVeth,
        Op::AssignVethIp,
        Op::DeleteVeth,
        Op::CreateNetNs,
        Op::DeleteNetNs,
        Op::CreateMountNs,
        Op::DeleteMountNs,
        Op::CreateContainer,
        Op::StartContainer,
        Op::StopContainer,
    ];
    for op in all {
        assert_eq!(menu_choice(&op.code().to_string()), Some(op));
    }
}

#[test]
fn trimming_twice_is_trimming_once() {
    for s in ["  a b  ", "\n\n", "x", " \u{2003}y\t"] {
        assert_eq!(trim(trim(s)), trim(s));
    }
}

#[test]
fn status_text_reads_back() {
    assert_eq!(parse_status(&Status::Up.text()), Some(Status::Up));
    assert_eq!(parse_status(&Status::Down.text()), Some(Status::Down));
}
