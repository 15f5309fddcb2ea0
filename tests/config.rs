use easytier_gui::{parse_network_config, ConfigError, NetworkConfig};

const ID: &str = "d7e0c1a0-5b3e-4f7a-9c2d-0123456789ab";

fn base() -> NetworkConfig {
    NetworkConfig {
        id: ID.to_string(),
        dhcp: true,
        ipv4: None,
        device_name: None,
        token: None,
        network_name: Some("home".to_string()),
        network_secret: None,
        peer_urls: vec!["tcp://1.2.3.4:11010".to_string()],
        proxy_cidrs: None,
        vpn_portal_port: None,
        vpn_portal_addr: None,
        listener_urls: vec![],
        rpc_port: None,
    }
}

#[test]
fn full_config_is_built() {
    let mut c = base();
    c.dhcp = false;
    c.ipv4 = Some("10.144.144.1".to_string());
    c.device_name = Some("laptop".to_string());
    c.network_secret = Some("pw".to_string());
    c.peer_urls = vec!["".to_string(), "udp://5.6.7.8:11010".to_string()];
    c.listener_urls = vec!["tcp://0.0.0.0:11010".to_string()];
    c.proxy_cidrs = Some(vec!["192.168.1.0/24".to_string()]);
    c.vpn_portal_addr = Some("10.14.14.0".to_string());
    c.rpc_port = Some(15888);
    let e = parse_network_config(&c).unwrap();
    assert_eq!(e.id, 0xd7e0c1a0_5b3e_4f7a_9c2d_0123456789ab_u128);
    assert_eq!(e.hostname, Some("laptop".to_string()));
    assert_eq!(e.network_name, "home");
    assert_eq!(e.inst_name, "home");
    assert_eq!(e.network_secret, "pw");
    assert!(!e.dhcp);
    assert_eq!(e.ipv4, Some(0x0a90_9001));
    assert_eq!(e.peers, vec!["udp://5.6.7.8:11010".to_string()]);
    assert_eq!(e.listeners, vec!["tcp://0.0.0.0:11010".to_string()]);
    assert_eq!(e.proxy_cidrs, vec!["192.168.1.0/24".to_string()]);
    assert_eq!(e.rpc_port, 15888);
    let vpn = e.vpn_portal.unwrap();
    assert_eq!(vpn.client_cidr, "10.14.14.0/24");
    assert_eq!(vpn.wireguard_port, 22022);
}

#[test]
fn token_gives_md5_identity() {
    let mut c = base();
    c.network_name = None;
    c.token = Some("abc".to_string());
    let e = parse_network_config(&c).unwrap();
    assert_eq!(e.network_name, "90015098");
    assert_eq!(e.network_secret, "3cd24fb0d6963f7d28e17f72");
    assert_eq!(e.inst_name, "90015098");
}

#[test]
fn missing_secret_is_empty_and_dhcp_ignores_address() {
    let mut c = base();
    c.ipv4 = Some("not an address".to_string());
    let e = parse_network_config(&c).unwrap();
    assert_eq!(e.network_secret, "");
    assert_eq!(e.ipv4, None);
    assert_eq!(e.rpc_port, 0);
    assert!(e.vpn_portal.is_none());
    assert!(e.proxy_cidrs.is_empty());
}

#[test]
fn bad_id_is_rejected() {
    let c = NetworkConfig { id: "x".to_string(), ..base() };
    match parse_network_config(&c) {
        Err(ConfigError::InvalidId(s)) => assert_eq!(s, "x"),
        other => panic!("unexpected {:?}", other.err()),
    }
}

#[test]
fn no_identity_is_rejected() {
    let c = NetworkConfig { network_name: None, token: None, ..base() };
    assert!(matches!(parse_network_config(&c), Err(ConfigError::NoNetworkIdentity)));
}

#[test]
fn bad_ipv4_is_rejected() {
    let c = NetworkConfig { dhcp: false, ipv4: Some("10.0.0.256".to_string()), ..base() };
    match parse_network_config(&c) {
        Err(ConfigError::InvalidIpv4(s)) => assert_eq!(s, "10.0.0.256"),
        other => panic!("unexpected {:?}", other.err()),
    }
    let c = NetworkConfig { dhcp: false, ipv4: Some("".to_string()), ..base() };
    assert_eq!(parse_network_config(&c).unwrap().ipv4, None);
}

#[test]
fn bad_peer_url_is_rejected() {
    let c = NetworkConfig {
        peer_urls: vec!["tcp://1.2.3.4:11010".to_string(), "no scheme".to_string()],
        ..base()
    };
    match parse_network_config(&c) {
        Err(ConfigError::InvalidPeerUrl(s)) => assert_eq!(s, "no scheme"),
        other => panic!("unexpected {:?}", other.err()),
    }
}

#[test]
fn no_peer_url_is_rejected() {
    let c = NetworkConfig { peer_urls: vec!["".to_string()], ..base() };
    assert!(matches!(parse_network_config(&c), Err(ConfigError::NoPeerUrls)));
    let c = NetworkConfig { peer_urls: vec![], ..base() };
    assert!(matches!(parse_network_config(&c), Err(ConfigError::NoPeerUrls)));
}

#[test]
fn bad_listener_url_is_rejected() {
    let c = NetworkConfig { listener_urls: vec!["::".to_string()], ..base() };
    match parse_network_config(&c) {
        Err(ConfigError::InvalidListenerUrl(s)) => assert_eq!(s, "::"),
        other => panic!("unexpected {:?}", other.err()),
    }
}

#[test]
fn bad_proxy_cidr_is_rejected() {
    let c = NetworkConfig { proxy_cidrs: Some(vec!["10.0.0.0/99".to_string()]), ..base() };
    match parse_network_config(&c) {
        Err(ConfigError::InvalidProxyCidr(s)) => assert_eq!(s, "10.0.0.0/99"),
        other => panic!("unexpected {:?}", other.err()),
    }
}

#[test]
fn bad_rpc_port_is_rejected() {
    let c = NetworkConfig { rpc_port: Some(70000), ..base() };
    assert!(matches!(parse_network_config(&c), Err(ConfigError::InvalidRpcPort(70000))));
    let c = NetworkConfig { rpc_port: Some(65535), ..base() };
    assert_eq!(parse_network_config(&c).unwrap().rpc_port, 65535);
}

#[test]
fn bad_vpn_portal_is_rejected() {
    let c = NetworkConfig { vpn_portal_addr: Some("nowhere".to_string()), ..base() };
    match parse_network_config(&c) {
        Err(ConfigError::InvalidVpnPortalCidr(s)) => assert_eq!(s, "nowhere"),
        other => panic!("unexpected {:?}", other.err()),
    }
    let c = NetworkConfig {
        vpn_portal_addr: Some("10.14.14.0".to_string()),
        vpn_portal_port: Some(65536),
        ..base()
    };
    assert!(matches!(parse_network_config(&c), Err(ConfigError::InvalidVpnPortalPort(65536))));
}

#[test]
fn first_failing_check_wins() {
    let c = NetworkConfig {
        peer_urls: vec![],
        rpc_port: Some(70000),
        ..base()
    };
    assert!(matches!(parse_network_config(&c), Err(ConfigError::NoPeerUrls)));
}

#[test]
fn urls_and_networks_come_back_normalized() {
    let c = NetworkConfig {
        peer_urls: vec!["TCP://1.2.3.4:11010".to_string()],
        listener_urls: vec!["UDP://0.0.0.0:11010".to_string()],
        proxy_cidrs: Some(vec!["2001:DB8::/32".to_string()]),
        ..base()
    };
    let e = parse_network_config(&c).unwrap();
    assert_eq!(e.peers, vec!["tcp://1.2.3.4:11010".to_string()]);
    assert_eq!(e.listeners, vec!["udp://0.0.0.0:11010".to_string()]);
    assert_eq!(e.proxy_cidrs, vec!["2001:db8::/32".to_string()]);
}

#[test]
fn short_vpn_portal_address_is_completed() {
    let c = NetworkConfig { vpn_portal_addr: Some("10.14.14".to_string()), vpn_portal_port: Some(51820), ..base() };
    let vpn = parse_network_config(&c).unwrap().vpn_portal.unwrap();
    assert_eq!(vpn.client_cidr, "10.14.14.0/24");
    assert_eq!(vpn.wireguard_port, 51820);
}
