use std::sync::{Arc, Mutex};

use easytier_gui::{
    collect_network_infos, start_network_instance, stop_network_instance, Event, NetworkConfig,
    Registry,
};

fn config(id: &str) -> NetworkConfig {
    NetworkConfig {
        id: id.to_string(),
        dhcp: true,
        ipv4: None,
        device_name: None,
        token: Some("shared token".to_string()),
        network_name: None,
        network_secret: None,
        peer_urls: vec!["tcp://1.2.3.4:11010".to_string()],
        proxy_cidrs: None,
        vpn_portal_port: None,
        vpn_portal_addr: None,
        listener_urls: vec![],
        rpc_port: None,
    }
}

#[test]
fn snapshots_between_starts_and_stops_have_bounded_ordered_logs() {
    let reg = Arc::new(Mutex::new(Registry::new()));
    for round in 0..20u32 {
        let id = format!("00000000-0000-4000-8000-{:012}", round % 3);
        {
            let mut r = reg.lock().unwrap();
            if r.contains(&id) {
                stop_network_instance(&mut r, &id).unwrap();
            } else {
                start_network_instance(&mut r, &config(&id)).unwrap();
            }
        }
        for t in 0..130 {
            let _ = reg.lock().unwrap().record_event(&id, Event::new(t, format!("tick {}", t)));
            if t % 40 == 0 {
                let infos = collect_network_infos(&reg.lock().unwrap());
                for (_, info) in infos.iter() {
                    assert!(info.events.len() <= 100);
                    assert!(info.events.windows(2).all(|w| w[0].time <= w[1].time));
                }
            }
        }
    }
}
