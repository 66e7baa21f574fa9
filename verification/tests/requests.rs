use dcontainer::request::{
    decode_bridge_request, decode_container_request, decode_name_request, decode_veth_addresses,
    decode_veth_names,
};

#[test]
fn name_requests() {
    let f = decode_name_request(br#"{"name":"br0"}"#).unwrap();
    assert_eq!(f.name, "br0");
    assert!(decode_name_request(br#"{"nom":"br0"}"#).is_none());
    assert!(decode_name_request(br#"{"name":7}"#).is_none());
    assert!(decode_name_request(b"not json").is_none());
}

#[test]
fn bridge_requests() {
    let msg = br#"{"name":"br0","status":"up","network":"10.0.0.1/24","ip":"10.0.0.1","subnet":24}"#;
    let f = decode_bridge_request(msg).unwrap();
    assert_eq!(f.name, "br0");
    assert_eq!(f.ip, "10.0.0.1");
    assert_eq!(f.subnet, 24);
    assert_eq!(f.status, "up");
    assert_eq!(f.network, "10.0.0.1/24");
    assert!(decode_bridge_request(br#"{"name":"br0","ip":"10.0.0.1","subnet":24}"#).is_none());
    assert!(decode_bridge_request(
        br#"{"name":"br0","status":"up","network":"n","ip":"10.0.0.1","subnet":"24"}"#
    )
    .is_none());
}

#[test]
fn veth_requests() {
    let msg = br#"{"veth0_name":"v0","veth1_name":"v1","veth0_ip":"10.0.0.2","veth1_ip":"10.0.0.3","subnet":24}"#;
    let names = decode_veth_names(msg).unwrap();
    assert_eq!(names.veth0_name, "v0");
    assert_eq!(names.veth1_name, "v1");
    let addresses = decode_veth_addresses(msg).unwrap();
    assert_eq!(addresses.veth0_ip, "10.0.0.2");
    assert_eq!(addresses.veth1_ip, "10.0.0.3");
    assert_eq!(addresses.subnet, 24);
    assert!(decode_veth_addresses(br#"{"veth0_name":"v0","veth1_name":"v1"}"#).is_none());
    assert!(decode_veth_names(br#"{"veth0_name":"v0"}"#).is_none());
}

#[test]
fn container_requests() {
    let msg = br#"{"name":"c1","image":"Ubuntu","bridge_name":"br0","veth0_name":"v0","veth1_name":"v1"}"#;
    let f = decode_container_request(msg).unwrap();
    assert_eq!(f.name, "c1");
    assert_eq!(f.bridge_name, "br0");
    assert_eq!(f.veth0_name, "v0");
    assert_eq!(f.veth1_name, "v1");
    assert!(decode_container_request(br#"{"name":"c1"}"#).is_none());
}
