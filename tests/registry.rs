use easytier_gui::{
    collect_network_infos, parse_network_config, start_network_instance, stop_network_instance,
    ConfigError, Event, LauncherState, NetworkConfig, NodeInfo, PeerInfo, Registry,
    RegistryError, Route, StunInfo,
};

const ID: &str = "d7e0c1a0-5b3e-4f7a-9c2d-0123456789ab";

fn config(id: &str) -> NetworkConfig {
    NetworkConfig {
        id: id.to_string(),
        dhcp: false,
        ipv4: Some("10.144.144.1".to_string()),
        device_name: Some("laptop".to_string()),
        token: None,
        network_name: Some("home".to_string()),
        network_secret: Some("s3cret".to_string()),
        peer_urls: vec!["tcp://1.2.3.4:11010".to_string()],
        proxy_cidrs: None,
        vpn_portal_port: None,
        vpn_portal_addr: None,
        listener_urls: vec!["tcp://0.0.0.0:11010".to_string(), "".to_string()],
        rpc_port: Some(15888),
    }
}

#[test]
fn second_start_is_already_exists() {
    let mut reg = Registry::new();
    assert!(start_network_instance(&mut reg, &config(ID)).is_ok());
    let second = start_network_instance(&mut reg, &config(ID));
    assert!(matches!(second, Err(RegistryError::AlreadyExists)));
    assert_eq!(reg.len(), 1);
    assert_eq!(collect_network_infos(&reg).len(), 1);
}

#[test]
fn stop_unknown_is_not_found() {
    let mut reg = Registry::new();
    start_network_instance(&mut reg, &config(ID)).unwrap();
    let r = stop_network_instance(&mut reg, &"nobody".to_string());
    assert!(matches!(r, Err(RegistryError::NotFound)));
    assert_eq!(reg.len(), 1);
    let empty = &mut Registry::new();
    assert!(matches!(stop_network_instance(empty, &ID.to_string()), Err(RegistryError::NotFound)));
    assert_eq!(empty.len(), 0);
}

#[test]
fn stop_removes_and_asks_for_teardown() {
    let mut reg = Registry::new();
    start_network_instance(&mut reg, &config(ID)).unwrap();
    assert_eq!(stop_network_instance(&mut reg, &ID.to_string()).unwrap(), true);
    assert_eq!(reg.len(), 0);
    assert!(collect_network_infos(&reg).is_empty());
    assert!(start_network_instance(&mut reg, &config(ID)).is_ok());
}

#[test]
fn engine_failure_stays_listed() {
    let mut reg = Registry::new();
    start_network_instance(&mut reg, &config(ID)).unwrap();
    reg.engine_exited(&ID.to_string(), Err("address in use".to_string())).unwrap();
    let infos = collect_network_infos(&reg);
    assert_eq!(infos.len(), 1);
    assert_eq!(infos[0].0, ID);
    assert!(!infos[0].1.running);
    assert_eq!(infos[0].1.error, Some("address in use".to_string()));
    assert_eq!(stop_network_instance(&mut reg, &ID.to_string()).unwrap(), false);
}

#[test]
fn config_without_identity_is_rejected_and_absent() {
    let mut reg = Registry::new();
    let mut cfg = config("x");
    cfg.network_name = None;
    cfg.token = None;
    let r = start_network_instance(&mut reg, &cfg);
    assert!(matches!(r, Err(RegistryError::Config(_))));
    assert!(!reg.contains(&"x".to_string()));
    assert_eq!(reg.len(), 0);
    let mut cfg = config(ID);
    cfg.network_name = None;
    cfg.token = None;
    let r = start_network_instance(&mut reg, &cfg);
    assert!(matches!(r, Err(RegistryError::Config(ConfigError::NoNetworkIdentity))));
    assert!(!reg.contains(&ID.to_string()));
}

#[test]
fn broadcaster_suspends_after_quiet_ticks_and_resumes() {
    let mut reg = Registry::new();
    assert!(!reg.is_broadcasting());
    assert!(reg.broadcast_tick().is_none());
    start_network_instance(&mut reg, &config(ID)).unwrap();
    let first = reg.broadcast_tick().unwrap();
    assert_eq!(first.len(), 1);
    stop_network_instance(&mut reg, &ID.to_string()).unwrap();
    for _ in 0..5 {
        assert!(reg.broadcast_tick().is_none());
        assert!(reg.is_broadcasting());
    }
    assert!(reg.broadcast_tick().is_none());
    assert!(!reg.is_broadcasting());
    for _ in 0..10 {
        assert!(reg.broadcast_tick().is_none());
    }
    start_network_instance(&mut reg, &config(ID)).unwrap();
    assert!(reg.is_broadcasting());
    assert_eq!(reg.broadcast_tick().unwrap().len(), 1);
}

#[test]
fn rearm_while_armed_keeps_counting() {
    let mut reg = Registry::new();
    start_network_instance(&mut reg, &config(ID)).unwrap();
    stop_network_instance(&mut reg, &ID.to_string()).unwrap();
    for _ in 0..3 {
        assert!(reg.broadcast_tick().is_none());
    }
    let other = "0f0e0d0c-0b0a-4908-8706-050403020100";
    start_network_instance(&mut reg, &config(other)).unwrap();
    assert_eq!(reg.broadcast_tick().unwrap().len(), 1);
    stop_network_instance(&mut reg, &other.to_string()).unwrap();
    for _ in 0..5 {
        assert!(reg.broadcast_tick().is_none());
        assert!(reg.is_broadcasting());
    }
    assert!(reg.broadcast_tick().is_none());
    assert!(!reg.is_broadcasting());
}

#[test]
fn older_event_is_refused_and_log_stays_ordered() {
    let mut reg = Registry::new();
    start_network_instance(&mut reg, &config(ID)).unwrap();
    let key = ID.to_string();
    reg.record_event(&key, Event::new(5, "later".to_string())).unwrap();
    let r = reg.record_event(&key, Event::new(1, "earlier".to_string()));
    assert!(matches!(r, Err(RegistryError::StaleEvent)));
    reg.record_event(&key, Event::new(5, "same time".to_string())).unwrap();
    reg.record_event_now(&key, "now".to_string()).unwrap();
    let events = &collect_network_infos(&reg)[0].1.events;
    let times: Vec<i64> = events.iter().map(|e| e.time).collect();
    assert_eq!(times.len(), 3);
    assert_eq!(&times[..2], &[5, 5]);
    assert!(times[2] >= 5);
    assert_eq!(events[2].payload, "now");
}

#[test]
fn engine_failure_without_text_gets_one() {
    let mut reg = Registry::new();
    start_network_instance(&mut reg, &config(ID)).unwrap();
    reg.engine_exited(&ID.to_string(), Err(String::new())).unwrap();
    let infos = collect_network_infos(&reg);
    assert!(!infos[0].1.running);
    assert_eq!(infos[0].1.error, Some("engine task failed".to_string()));
}

#[test]
fn snapshot_copies_status_and_lowercases_id() {
    let mut reg = Registry::new();
    let upper = "D7E0C1A0-5B3E-4F7A-9C2D-0123456789AB";
    start_network_instance(&mut reg, &config(upper)).unwrap();
    let key = upper.to_string();
    for n in 0..120 {
        reg.record_event(&key, Event::new(n, format!("e{}", n))).unwrap();
    }
    let node = NodeInfo {
        virtual_ipv4: "10.144.144.1".to_string(),
        ips: vec!["203.0.113.7".to_string()],
        stun_info: StunInfo { udp_nat_type: 3, tcp_nat_type: 1, last_update_time: 42 },
        listeners: vec!["tcp://0.0.0.0:11010".to_string()],
        vpn_portal_cfg: None,
    };
    let routes = vec![Route {
        peer_id: 9,
        ipv4_addr: "10.144.144.2".to_string(),
        next_hop_peer_id: 9,
        cost: 1,
        hostname: "desk".to_string(),
    }];
    let peers = vec![PeerInfo { peer_id: 9, conn_count: 2 }];
    reg.refresh(&key, node, routes, peers).unwrap();
    let infos = collect_network_infos(&reg);
    assert_eq!(infos.len(), 1);
    let (k, info) = &infos[0];
    assert_eq!(k, upper);
    assert_eq!(info.id, upper.to_lowercase());
    assert!(info.running);
    assert_eq!(info.error, None);
    assert_eq!(info.events.len(), 100);
    assert_eq!(info.events[0].time, 20);
    assert!(info.events.windows(2).all(|w| w[0].time <= w[1].time));
    assert_eq!(info.node.virtual_ipv4, "10.144.144.1");
    assert_eq!(info.node.stun_info.udp_nat_type, 3);
    assert_eq!(info.routes.len(), 1);
    assert_eq!(info.routes[0].hostname, "desk");
    assert_eq!(info.peers, vec![PeerInfo { peer_id: 9, conn_count: 2 }]);
}

#[test]
fn events_for_unknown_instance_are_not_found() {
    let mut reg = Registry::new();
    let r = reg.record_event(&"ghost".to_string(), Event::new(1, "x".to_string()));
    assert!(matches!(r, Err(RegistryError::NotFound)));
    let r = reg.engine_exited(&"ghost".to_string(), Ok(()));
    assert!(matches!(r, Err(RegistryError::NotFound)));
    assert_eq!(reg.len(), 0);
}

#[test]
fn stopped_instance_state() {
    let mut reg = Registry::new();
    start_network_instance(&mut reg, &config(ID)).unwrap();
    reg.engine_exited(&ID.to_string(), Ok(())).unwrap();
    let infos = collect_network_infos(&reg);
    assert!(!infos[0].1.running);
    assert_eq!(infos[0].1.error, None);
    let _ = LauncherState::Stopped;
    assert!(parse_network_config(&config(ID)).is_ok());
}

#[test]
fn listed_ids_follow_starts_and_stops() {
    let ids = [
        "00000000-0000-4000-8000-000000000001",
        "00000000-0000-4000-8000-000000000002",
        "00000000-0000-4000-8000-000000000003",
    ];
    let mut reg = Registry::new();
    start_network_instance(&mut reg, &config(ids[0])).unwrap();
    start_network_instance(&mut reg, &config(ids[1])).unwrap();
    stop_network_instance(&mut reg, &ids[0].to_string()).unwrap();
    start_network_instance(&mut reg, &config(ids[2])).unwrap();
    let mut bad = config("not-a-uuid");
    bad.peer_urls.clear();
    assert!(start_network_instance(&mut reg, &bad).is_err());
    let mut listed: Vec<String> = collect_network_infos(&reg).into_iter().map(|(k, _)| k).collect();
    listed.sort();
    assert_eq!(listed, vec![ids[1].to_string(), ids[2].to_string()]);
}
