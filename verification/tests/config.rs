use ztunnel::config::{Config, ProxyMode};
use ztunnel::identity::Identity;
use ztunnel::net::{IpAddr, SocketAddr};

fn config(inpod_enabled: bool, proxy_mode: ProxyMode) -> Config {
    Config {
        inbound_plaintext_addr: SocketAddr { ip: IpAddr::V4(0), port: 15006 },
        inpod_enabled,
        illegal_ports: vec![15001, 15006, 15008],
        proxy_mode,
        local_ip: Some(IpAddr::V4(0x0a00_0001)),
        network: "net".to_string(),
        self_termination_deadline: 5_000_000_000,
        local_node: None,
        fake_ca: false,
        xds_address: None,
        local_xds_config: None,
    }
}

fn at(ip: u32, port: u16) -> SocketAddr {
    SocketAddr { ip: IpAddr::V4(ip), port }
}

#[test]
fn ports_of_the_proxy_are_illegal_inside_a_pod() {
    let cfg = config(true, ProxyMode::Shared);
    assert!(cfg.is_illegal_call(at(1, 15006)));
    assert!(!cfg.is_illegal_call(at(1, 80)));
    assert!(!cfg.is_illegal_call(at(0x0a00_0001, 80)));
}

#[test]
fn the_address_of_a_shared_proxy_is_illegal() {
    let cfg = config(false, ProxyMode::Shared);
    assert!(cfg.is_illegal_call(at(0x0a00_0001, 80)));
    assert!(!cfg.is_illegal_call(at(0x0a00_0002, 15006)));
    let dedicated = config(false, ProxyMode::Dedicated);
    assert!(!dedicated.is_illegal_call(at(0x0a00_0001, 80)));
    let nowhere = Config { local_ip: None, ..config(false, ProxyMode::Shared) };
    assert!(!nowhere.is_illegal_call(at(0x0a00_0001, 80)));
}

#[test]
fn identities_are_spiffe_uris() {
    let id = Identity {
        trust_domain: "cluster.local".to_string(),
        namespace: "default".to_string(),
        service_account: "sa".to_string(),
    };
    assert_eq!(id.to_text(), "spiffe://cluster.local/ns/default/sa/sa");
    assert!(id.same(&id.clone()));
}
