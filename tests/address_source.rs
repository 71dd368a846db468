use cf_ddns::interface::{
    candidate_addresses, global_addresses, is_global_ipv6, AddrInfo, AddressError, InterfaceInfo,
};

fn addr(family: &str, local: &str, scope: &str) -> AddrInfo {
    AddrInfo {
        family: family.to_string(),
        local: local.to_string(),
        prefixlen: 64,
        scope: scope.to_string(),
    }
}

fn iface(name: &str, addrs: Vec<AddrInfo>) -> InterfaceInfo {
    InterfaceInfo {
        ifindex: 2,
        ifname: name.to_string(),
        flags: vec!["UP".to_string()],
        mtu: 1500,
        qdisc: "fq_codel".to_string(),
        operstate: "UP".to_string(),
        group: "default".to_string(),
        txqlen: 1000,
        addr_info: addrs,
    }
}

#[test]
fn global_ipv6_only() {
    assert!(is_global_ipv6(&addr("inet6", "2001:db8::1", "global")));
    assert!(!is_global_ipv6(&addr("inet6", "fe80::1", "link")));
    assert!(!is_global_ipv6(&addr("inet", "192.0.2.1", "global")));
    assert!(!is_global_ipv6(&addr("inet6", "::1", "host")));
}

#[test]
fn global_addresses_keep_order() {
    let addrs = vec![
        addr("inet6", "2001:db8::2", "global"),
        addr("inet6", "fe80::1", "link"),
        addr("inet6", "2001:db8::1", "global"),
    ];
    assert_eq!(global_addresses(&addrs), vec!["2001:db8::2", "2001:db8::1"]);
    assert!(global_addresses(&vec![]).is_empty());
}

#[test]
fn candidates_of_first_matching_interface() {
    let infos = vec![
        iface("eth1", vec![addr("inet6", "2001:db8::a", "global")]),
        iface("eth0", vec![addr("inet6", "2001:db8::1", "global"), addr("inet6", "fe80::1", "link")]),
        iface("eth0", vec![addr("inet6", "2001:db8::2", "global")]),
    ];
    assert_eq!(candidate_addresses(&infos, "eth0"), Ok(vec!["2001:db8::1".to_string()]));
}

#[test]
fn interface_without_candidates_gives_empty_list() {
    let infos = vec![iface("eth0", vec![addr("inet6", "fe80::1", "link")])];
    assert_eq!(candidate_addresses(&infos, "eth0"), Ok(vec![]));
}

#[test]
fn missing_interface_is_not_found() {
    let infos = vec![iface("eth1", vec![addr("inet6", "2001:db8::a", "global")])];
    assert_eq!(candidate_addresses(&infos, "eth0"), Err(AddressError::NotFound));
    assert_eq!(candidate_addresses(&vec![], "eth0"), Err(AddressError::NotFound));
}
