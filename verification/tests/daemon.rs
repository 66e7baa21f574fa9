use dcontainer::brain::{
    bridge_created, bridge_deleted, container_defined, container_started,
    container_stopped, container_to_start, container_to_stop, created_bridge, define_container,
    subnet_byte, veth_addressed, veth_created, veth_deleted, veth_to_address, with_addresses,
    BrainError,
};
use dcontainer::container::bridge::Bridge;
use dcontainer::container::veth::{veth_key, VethPair};
use dcontainer::ipv4::Ipv4Addr;
use dcontainer::namespaces::mount::mount;
use dcontainer::namespaces::net::Net_ns;
use dcontainer::ns::{proc_ns_path, GetChildPID};
use dcontainer::namespaces::CloneArgs;
use dcontainer::protocol::{decode_frame, encode_frame, Op};
use dcontainer::sokcet::brain_address;
use dcontainer::store::Store;

#[test]
fn frames_round_trip() {
    let payload = br#"{"name":"br0"}"#;
    let bytes = encode_frame(2, payload);
    assert_eq!(bytes[0], 2);
    assert_eq!(bytes[1] as usize, payload.len());
    assert_eq!(&bytes[2..], payload);
    let mut stream = bytes.clone();
    stream.extend_from_slice(&[9, 9, 9]);
    let (frame, used) = decode_frame(&stream).unwrap();
    assert_eq!(frame.op, 2);
    assert_eq!(frame.payload, payload.to_vec());
    assert_eq!(used, payload.len() + 2);
}

#[test]
fn frames_cut_long_lengths_to_a_byte() {
    let payload = vec![b'a'; 300];
    let bytes = encode_frame(1, &payload);
    assert_eq!(bytes.len(), 302);
    assert_eq!(bytes[1], 44);
    let (frame, used) = decode_frame(&bytes).unwrap();
    assert_eq!(frame.payload.len(), 44);
    assert_eq!(used, 46);
}

#[test]
fn short_frames_wait_for_more() {
    assert!(decode_frame(&[]).is_none());
    assert!(decode_frame(&[1]).is_none());
    assert!(decode_frame(&[1, 3, b'a']).is_none());
    let (f, used) = decode_frame(&[7, 0]).unwrap();
    assert_eq!(f.op, 7);
    assert!(f.payload.is_empty());
    assert_eq!(used, 2);
}

#[test]
fn op_codes_round_trip() {
    for b in 0..=255u8 {
        match Op::from_code(b) {
            Some(op) => assert_eq!(op.code(), b),
            None => assert!(b == 0 || b > 12),
        }
    }
    assert_eq!(Op::AssignVethIp.code(), 4);
}

#[test]
fn store_keeps_last_write() {
    let mut s: Store<Net_ns> = Store::new();
    assert!(!s.contains_key("a"));
    s.insert("a".to_string(), Net_ns::named("a"));
    s.insert("b".to_string(), Net_ns::named("b"));
    s.insert("a".to_string(), Net_ns::named("a2"));
    assert_eq!(s.get("a").unwrap().name, "a2");
    assert_eq!(s.entries.len(), 2);
    s.remove("a");
    assert!(s.get("a").is_none());
    assert_eq!(s.get("b").unwrap().name, "b");
    s.remove("zzz");
    assert_eq!(s.entries.len(), 1);
}

#[test]
fn bridge_records() {
    let b = created_bridge("br0", "10.0.0.1", 24, "up", "10.0.0.1/24");
    assert_eq!(b.name, "br0");
    assert_eq!(b.insys, "dc-br0");
    assert_eq!(b.ip.as_deref(), Some("10.0.0.1"));
    assert_eq!(b.subnet, Some(24));
    assert_eq!(b.status.as_deref(), Some("up"));
    assert_eq!(b.network.as_deref(), Some("10.0.0.1/24"));
    assert_eq!(b.index, None);
    assert_eq!(b.name(), "br0");
    let mut map = Store::new();
    bridge_created(&mut map, &b);
    assert_eq!(map.get("br0").unwrap().subnet, Some(24));
    let bare = Bridge::named("br0");
    bridge_deleted(&mut map, &bare);
    assert!(!map.contains_key("br0"));
    bare.record_into(&mut map);
    let kept = map.get("br0").unwrap();
    assert_eq!(kept.insys, "dc-br0");
    assert!(kept.ip.is_none() && kept.subnet.is_none() && kept.status.is_none());
    assert_eq!(map.entries.len(), 1);
}

#[test]
fn subnet_bytes_wrap() {
    assert_eq!(subnet_byte(24), 24);
    assert_eq!(subnet_byte(300), 44);
}

#[test]
fn veth_records() {
    let mut veths = Store::new();
    let mut pair = VethPair::named("v0", "v1");
    assert_eq!(pair.veth_front.insys, "dc-v0");
    assert_eq!(pair.name(), "dc-v0");
    assert_eq!(veth_key("v0", "v1"), "v0_v1");
    pair.veth_front.index = Some(7);
    veth_created(&mut veths, &pair);
    assert!(veths.contains_key("v0_v1"));

    match veth_to_address(&veths, "v0", "vX") {
        Err(BrainError::NoVethPair) => {}
        _ => panic!("expected a missing pair"),
    }
    let found = match veth_to_address(&veths, "v0", "v1") {
        Ok(p) => p,
        Err(_) => panic!("expected the pair"),
    };
    assert_eq!(found.veth_front.index, Some(7));
    match with_addresses(&found, "10.0.0", "10.0.0.3", 24) {
        Err(BrainError::BadAddress) => {}
        _ => panic!("expected a bad address"),
    }
    match with_addresses(&found, "10.0.0.2", "x", 24) {
        Err(e) => assert_eq!(e.message(), "invalid IPv4 address syntax"),
        _ => panic!("expected a bad address"),
    }
    let addressed = match with_addresses(&found, "10.0.0.2", "10.0.0.3", 280) {
        Ok(p) => p,
        Err(_) => panic!("expected the pair"),
    };
    assert_eq!(addressed.veth_front.ip, Some(Ipv4Addr { a: 10, b: 0, c: 0, d: 2 }));
    assert_eq!(addressed.veth_back.ip, Some(Ipv4Addr { a: 10, b: 0, c: 0, d: 3 }));
    assert_eq!(addressed.veth_front.subnet, Some(24));
    assert_eq!(addressed.veth_back.subnet, Some(24));
    assert_eq!(addressed.veth_front.index, Some(7));
    veth_addressed(&mut veths, "v0", "v1", &addressed);
    assert_eq!(veths.get("v0_v1").unwrap().veth_back.subnet, Some(24));
    veth_deleted(&mut veths, &VethPair::named("v0", "v1"));
    assert!(!veths.contains_key("v0_v1"));
}

#[test]
fn containers() {
    let mut bridges = Store::new();
    let mut veths = Store::new();
    match define_container(&bridges, &veths, "c1", "br0", "v0", "v1") {
        Err(e) => assert_eq!(e.message(), "no bridge found for name br0"),
        Ok(_) => panic!("no bridge yet"),
    }
    bridge_created(&mut bridges, &Bridge::named("br0"));
    match define_container(&bridges, &veths, "c1", "br0", "v0", "v1") {
        Err(e) => assert_eq!(e.message(), "no veth pair found"),
        Ok(_) => panic!("no veth pair yet"),
    }
    veth_created(&mut veths, &VethPair::named("v0", "v1"));
    let c = match define_container(&bridges, &veths, "c1", "br0", "v0", "v1") {
        Ok(c) => c,
        Err(_) => panic!("both are there"),
    };
    assert_eq!(c.name, "c1");
    assert_eq!(c.bridge.insys, "dc-br0");
    assert_eq!(c.veth.veth_back.name, "v1");
    assert_eq!(c.mount_ns.as_ref().unwrap().name, "xyz");
    assert_eq!(c.net_ns.as_ref().unwrap().name, "xyz");
    assert!(c.pid_ns.is_some());
    assert_eq!(c.pid, None);

    let mut init = Store::new();
    container_defined(&mut init, &c);
    let to_start = container_to_start(&init, "c1");
    let mut running = Store::new();
    container_started(&mut running, "c1", to_start, 4242);
    assert_eq!(running.get("c1").unwrap().pid, Some(4242));
    assert_eq!(init.get("c1").unwrap().pid, None);
    assert_eq!(container_to_stop(&running, "c1"), 4242);
    container_stopped(&mut running, "c1");
    assert!(!running.contains_key("c1"));
}

#[test]
fn namespace_records_and_paths() {
    let n = Net_ns::named("blue");
    assert_eq!(n.bind_path(), "dc_ns/net/blue");
    let m = mount::named("box");
    assert_eq!(m.bind_path(), "dc_ns/mount/box");
    assert_eq!(m.old_root_path(), "dc_ns/mount/box/old_root");
    let mut nets = Store::new();
    n.record_into(&mut nets);
    assert!(nets.contains_key("blue"));
    n.forget_in(&mut nets);
    assert!(!nets.contains_key("blue"));
    let mut mounts = Store::new();
    m.record_into(&mut mounts);
    assert_eq!(mounts.get("box").unwrap().name, "box");
    m.forget_in(&mut mounts);
    assert!(mounts.entries.is_empty());
    assert_eq!(proc_ns_path(1234, "net"), "/proc/1234/ns/net");
    assert_eq!(proc_ns_path(7, "mnt"), "/proc/7/ns/mnt");
}

#[test]
fn clone_arguments() {
    let all = CloneArgs::for_namespaces(true, true, true, 17);
    assert_eq!(all.flags, 0x6002_0000);
    assert_eq!(all.exit_signal, 17);
    assert_eq!(CloneArgs::for_namespaces(true, false, false, 17).flags, 0x4000_0000);
    assert_eq!(CloneArgs::for_namespaces(false, false, true, 17).flags, 0x2_0000);
    assert_eq!(CloneArgs::for_namespaces(false, false, false, 17).flags, 0);
    let child = CloneArgs::for_namespaces(false, true, false, 20);
    assert_eq!(child.flags, 0x2000_0000);
    assert_eq!(child.exit_signal, 20);
    assert_eq!(child.cgroup, 0);
    assert_eq!(child.stack_size, 0);
}

#[test]
fn child_pids_and_addresses() {
    assert_eq!(GetChildPID(4242), 4242);
    assert_eq!(GetChildPID(0x1_0000_0005), 5);
    assert_eq!(GetChildPID(-1), -1);
    assert_eq!(brain_address(None), "127.0.0.1:8080");
    assert_eq!(brain_address(Some("0.0.0.0:9000".to_string())), "0.0.0.0:9000");
}
