use ztunnel::assoc::AssocMap;
use ztunnel::config::{Config, ConfigSource, ProxyMode};
use ztunnel::net::{IpAddr, SocketAddr};
use ztunnel::test_helpers::components::{NamespaceText, TestWorkloadBuilder, WorkloadManager};
use ztunnel::workload::{Protocol, Workload};

fn base() -> Workload {
    Workload {
        name: "base".to_string(),
        namespace: "base".to_string(),
        service_account: "base".to_string(),
        trust_domain: "cluster.local".to_string(),
        workload_name: "".to_string(),
        canonical_name: "".to_string(),
        canonical_revision: "".to_string(),
        cluster_id: "Kubernetes".to_string(),
        hostname: "".to_string(),
        node: "base".to_string(),
        protocol: Protocol::TCP,
        workload_ips: vec![],
        waypoint_addresses: vec![],
    }
}

fn config() -> Config {
    Config {
        inbound_plaintext_addr: SocketAddr { ip: IpAddr::V4(0), port: 15006 },
        inpod_enabled: true,
        illegal_ports: vec![],
        proxy_mode: ProxyMode::Shared,
        local_ip: None,
        network: "net".to_string(),
        self_termination_deadline: 9,
        local_node: None,
        fake_ca: false,
        xds_address: Some("https://istiod".to_string()),
        local_xds_config: None,
    }
}

#[test]
fn workloads_are_registered_in_order() {
    let mut manager = WorkloadManager::new();
    manager.workload_builder("client", base()).on_local_node().register(IpAddr::V4(1));
    TestWorkloadBuilder::new("server", base(), &mut manager)
        .hbone()
        .waypoint(IpAddr::V4(7))
        .waypoint(IpAddr::V4(8))
        .register(IpAddr::V4(2));
    assert_eq!(manager.workloads().len(), 2);
    let client = &manager.workloads()[0].workload;
    assert_eq!(client.name, "client");
    assert_eq!(client.namespace, "default");
    assert_eq!(client.service_account, "default");
    assert_eq!(client.node, "local");
    assert_eq!(client.protocol, Protocol::TCP);
    assert_eq!(client.cluster_id, "Kubernetes");
    assert_eq!(client.workload_ips, vec![IpAddr::V4(1)]);
    let server = &manager.workloads()[1].workload;
    assert_eq!(server.name, "server");
    assert_eq!(server.node, "not-local");
    assert_eq!(server.protocol, Protocol::HBONE);
    assert_eq!(server.waypoint_addresses, vec![IpAddr::V4(7), IpAddr::V4(8)]);
    assert!(manager.waypoints().is_empty());
}

#[test]
fn services_lead_to_ports() {
    let mut manager = WorkloadManager::new();
    let builder = manager
        .workload_builder("server", base())
        .vip("10.10.0.1", 80, 8080)
        .vip("10.10.0.2", 80, 8081)
        .vip("10.10.0.1", 443, 8443)
        .vip("10.10.0.1", 80, 9090);
    assert_eq!(builder.name(), "server");
    builder.register(IpAddr::V4(1));
    let vips = &manager.workloads()[0].vips;
    assert_eq!(vips.len(), 2);
    let first = vips.get(&"10.10.0.1".to_string()).unwrap();
    assert_eq!((first.len(), first.get(&80), first.get(&443)), (2, Some(&9090), Some(&8443)));
    let second = vips.get(&"10.10.0.2".to_string()).unwrap();
    assert_eq!((second.len(), second.get(&80)), (1, Some(&8081)));
}

#[test]
fn the_order_of_description_does_not_matter() {
    let mut manager = WorkloadManager::new();
    manager.workload_builder("w", base()).hbone().on_local_node().vip("a", 1, 2).vip("b", 3, 4)
        .register(IpAddr::V4(1));
    manager.workload_builder("w", base()).vip("b", 3, 4).vip("a", 1, 2).on_local_node().hbone()
        .register(IpAddr::V4(1));
    let [x, y] = manager.workloads().as_slice() else { panic!("two workloads") };
    assert_eq!(format!("{:?}", x.workload), format!("{:?}", y.workload));
    for ip in ["a".to_string(), "b".to_string()] {
        let (p, q) = (x.vips.get(&ip).unwrap(), y.vips.get(&ip).unwrap());
        assert_eq!((p.len(), p.entry(0)), (q.len(), q.entry(0)));
    }
}

#[test]
fn waypoints_are_reached_over_hbone() {
    let mut manager = WorkloadManager::new();
    manager.register_waypoint("w1", base(), IpAddr::V4(1));
    manager.workload_builder("server", base()).register(IpAddr::V4(2));
    manager.register_waypoint("w2", base(), IpAddr::V4(3));
    assert_eq!(manager.waypoints(), &vec![IpAddr::V4(1), IpAddr::V4(3)]);
    for ip in manager.waypoints() {
        assert!(manager.workloads().iter().any(|w| {
            w.workload.protocol == Protocol::HBONE && w.workload.workload_ips == vec![*ip]
        }));
    }
}

#[test]
fn deploying_takes_two_commands_and_a_config() {
    let mut manager = WorkloadManager::new();
    manager.register_waypoint("w1", base(), IpAddr::from_octets(10, 0, 0, 1));
    manager.register_waypoint("w2", base(), IpAddr::V6(2));
    manager.deploy_ztunnel(base(), IpAddr::from_octets(10, 0, 255, 3));
    assert_eq!(manager.workloads()[2].workload.name, "ztunnel");
    assert_eq!(manager.workloads()[2].workload.protocol, Protocol::TCP);
    let ns = NamespaceText { ipv6: "".to_string(), veth: "veth2".to_string(), count: 12 };
    let waypoints = vec!["".to_string(), "::2".to_string()];
    let d = manager.deployment(&ns, &waypoints, vec![1, 2], config());
    assert_eq!(d.ztunnel_redirect, "scripts/ztunnel-redirect.sh 10.0.255.3 10.0.0.1 ::2");
    assert_eq!(d.node_redirect, "scripts/node-redirect.sh 10.0.255.3 veth2 12");
    assert_eq!(d.config.local_xds_config, Some(ConfigSource::Static(vec![1, 2])));
    assert_eq!(d.config.local_node.as_deref(), Some("local"));
    assert_eq!(d.config.xds_address, None);
    assert!(d.config.fake_ca);
}

#[test]
fn maps_hold_one_value_for_a_key() {
    let mut m: AssocMap<u16, &str> = AssocMap::new();
    m.insert(1, "a");
    m.insert(2, "b");
    m.insert(1, "c");
    assert_eq!((m.len(), m.get(&1), m.get(&2), m.get(&3)), (2, Some(&"c"), Some(&"b"), None));
    assert!(m.contains(&1) && !m.contains(&3));
    *m.get_mut(&2).unwrap() = "d";
    assert!(m.get_mut(&3).is_none());
    assert_eq!(m.remove(&2), Some("d"));
    assert_eq!(m.remove(&2), None);
    assert_eq!(m.entry(0), (&1, &"c"));
}
