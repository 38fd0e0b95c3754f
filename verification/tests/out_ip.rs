use etherparse::PacketBuilder;

use ztunnel::assoc::AssocMap;
use ztunnel::config::{Config, ProxyMode};
use ztunnel::net::{IpAddr, SocketAddr};
use ztunnel::proxy::out_ip::{
    have_distinct_nodes, tun_settings, Delivery, Direction, Inspection, OutboundIP, Packet,
    PumpState, RequestType, CONNECT_DELAY, HBONE_PORT, PACKET_BUFFER,
};
use ztunnel::proxy::packet::PacketHeader;
use ztunnel::workload::{NetworkAddress, Protocol, Workload};

fn outbound(node: Option<&str>) -> OutboundIP {
    let cfg = Config {
        inbound_plaintext_addr: SocketAddr { ip: IpAddr::V4(0), port: 15006 },
        inpod_enabled: false,
        illegal_ports: vec![],
        proxy_mode: ProxyMode::Shared,
        local_ip: None,
        network: "net".to_string(),
        self_termination_deadline: 0,
        local_node: node.map(|n| n.to_string()),
        fake_ca: false,
        xds_address: None,
        local_xds_config: None,
    };
    OutboundIP::new(&cfg)
}

fn ztunnel(node: &str, ip: u32) -> (String, Workload) {
    let w = Workload {
        name: format!("ztunnel-{node}"),
        namespace: "istio-system".to_string(),
        service_account: format!("sa-{node}"),
        trust_domain: "td".to_string(),
        workload_name: "ztunnel".to_string(),
        canonical_name: "ztunnel".to_string(),
        canonical_revision: "".to_string(),
        cluster_id: "".to_string(),
        hostname: "".to_string(),
        node: node.to_string(),
        protocol: Protocol::HBONE,
        workload_ips: vec![IpAddr::V4(ip), IpAddr::V4(99)],
        waypoint_addresses: vec![],
    };
    (node.to_string(), w)
}

fn packet() -> Vec<u8> {
    let mut bytes = Vec::new();
    PacketBuilder::ipv4([10, 0, 0, 1], [10, 0, 0, 2], 20)
        .udp(21, 1234)
        .write(&mut bytes, &[1, 2, 3, 4])
        .unwrap();
    bytes
}

fn ipv6_packet() -> Vec<u8> {
    let mut bytes = Vec::new();
    PacketBuilder::ipv6([1; 16], [2; 16], 20)
        .udp(21, 1234)
        .write(&mut bytes, &[1, 2, 3, 4])
        .unwrap();
    bytes
}

fn looked_up(bytes: Vec<u8>) -> Packet {
    match outbound(None).inspect(bytes) {
        Inspection::Lookup(p) => p,
        other => panic!("should look up: {other:?}"),
    }
}

#[test]
fn the_device_is_set_up() {
    let tun = tun_settings();
    assert_eq!(tun.name, "z_tun0");
    assert!(!tun.tap && !tun.packet_info && tun.up);
    assert_eq!(tun.mtu, 1350);
    assert_eq!((HBONE_PORT, PACKET_BUFFER, CONNECT_DELAY), (15008, 1024, 10_000_000_000));
}

#[test]
fn every_ztunnel_is_dialed() {
    let ztunnels = vec![ztunnel("a", 1), ztunnel("b", 2), ztunnel("c", 3)];
    let out = outbound(Some("b"));
    assert_eq!(out.own_index(&ztunnels), Some(1));
    assert_eq!(outbound(Some("d")).own_index(&ztunnels), None);
    assert_eq!(outbound(None).own_index(&ztunnels), None);
    let dials = out.dials(&ztunnels);
    let nodes: Vec<&str> = dials.iter().map(|d| d.node.as_str()).collect();
    assert_eq!(nodes, vec!["a", "b", "c"]);
    for (i, dial) in dials.iter().enumerate() {
        let r = &dial.request;
        let addr = SocketAddr { ip: IpAddr::V4(i as u32 + 1), port: 15008 };
        assert_eq!((r.destination, r.gateway), (addr, addr));
        assert_eq!(r.source.name, "ztunnel-b");
        assert_eq!(r.protocol, Protocol::TCP);
        assert_eq!(r.direction, Direction::Inbound);
        assert_eq!(r.request_type, RequestType::Direct);
        assert!(r.destination_workload.is_none());
        let id = r.expected_identity.as_ref().unwrap();
        assert_eq!(id.to_text(), format!("spiffe://td/ns/istio-system/sa/sa-{}", dial.node));
    }
}

#[test]
fn a_node_has_one_ztunnel() {
    assert!(have_distinct_nodes(&vec![]));
    assert!(have_distinct_nodes(&vec![ztunnel("a", 1), ztunnel("b", 1)]));
    assert!(!have_distinct_nodes(&vec![ztunnel("a", 1), ztunnel("b", 2), ztunnel("a", 3)]));
}

#[test]
fn draining_stops_the_pump() {
    let mut out = outbound(Some("a"));
    assert_eq!(out.state, PumpState::Running);
    out.drain();
    assert_eq!(out.state, PumpState::Stopped);
    assert_eq!(out.local_node.as_deref(), Some("a"));
    out.drain();
    assert_eq!(out.state, PumpState::Stopped);
}

#[test]
fn ipv4_packets_are_looked_up() {
    let bytes = packet();
    let p = looked_up(bytes.clone());
    assert_eq!(p.source, IpAddr::from_octets(10, 0, 0, 1));
    assert_eq!(p.destination, IpAddr::from_octets(10, 0, 0, 2));
    assert_eq!(
        p.address,
        NetworkAddress { network: "net".to_string(), address: p.destination }
    );
    assert_eq!(p.bytes, bytes);
}

#[test]
fn other_packets_are_dropped() {
    let out = outbound(None);
    assert_eq!(out.inspect(ipv6_packet()), Inspection::NotIpv4);
    assert_eq!(out.inspect(vec![]), Inspection::NotIp);
    assert_eq!(out.inspect(vec![0x45; 19]), Inspection::NotIp);
    assert_eq!(out.inspect(vec![0x55; 40]), Inspection::NotIp);
    assert_eq!(out.inspect(ipv6_packet()[..39].to_vec()), Inspection::NotIp);
}

#[test]
fn ipv4_headers_have_to_be_whole() {
    let out = outbound(None);
    // A header of fewer than twenty bytes.
    let mut short = packet();
    short[0] = 0x44;
    assert_eq!(out.inspect(short), Inspection::NotIp);
    // Options that are not there.
    let mut options = packet();
    options[0] = 0x4f;
    assert_eq!(out.inspect(options), Inspection::NotIp);
    // A total length that does not fit the header.
    let mut total = packet();
    total[2] = 0;
    total[3] = 19;
    assert_eq!(out.inspect(total), Inspection::NotIp);
    // No more than the header.
    assert!(matches!(out.inspect(packet()[..20].to_vec()), Inspection::Lookup(_)));
}

#[test]
fn announced_authentication_headers_have_to_be_whole() {
    let out = outbound(None);
    let with = |auth: &[u8]| {
        let mut p = packet()[..20].to_vec();
        p[9] = 51;
        p.extend_from_slice(auth);
        p
    };
    let mut auth = [0u8; 16];
    auth[1] = 2;
    assert!(matches!(out.inspect(with(&auth)), Inspection::Lookup(_)));
    assert_eq!(out.inspect(with(&auth[..15])), Inspection::NotIp);
    auth[1] = 0;
    assert_eq!(out.inspect(with(&auth)), Inspection::NotIp);
    auth[1] = 1;
    assert!(matches!(out.inspect(with(&auth[..12])), Inspection::Lookup(_)));
    assert_eq!(out.inspect(with(&auth[..11])), Inspection::NotIp);
}

#[test]
fn headers_decide_what_is_done() {
    let out = outbound(None);
    let header = PacketHeader::V4 { source: [1, 2, 3, 4], destination: [255, 254, 253, 252] };
    match out.classify(header, vec![7]) {
        Inspection::Lookup(p) => {
            assert_eq!(p.source, IpAddr::V4(0x0102_0304));
            assert_eq!(p.destination, IpAddr::V4(0xfffe_fdfc));
            assert_eq!(p.bytes, vec![7]);
        }
        other => panic!("should look up: {other:?}"),
    }
    assert_eq!(out.classify(PacketHeader::V6, vec![7]), Inspection::NotIpv4);
    assert_eq!(out.classify(PacketHeader::Invalid, vec![7]), Inspection::NotIp);
}

#[test]
fn packets_go_to_the_node_of_their_destination() {
    let mut routes: AssocMap<String, Vec<u8>> = AssocMap::new();
    routes.insert("a".to_string(), vec![1]);
    routes.insert("b".to_string(), vec![2]);
    let (_, w) = ztunnel("b", 2);
    let bytes = packet();
    match OutboundIP::route(looked_up(bytes.clone()), Some(&w), &routes) {
        Delivery::Write { node, bytes: sent } => {
            assert_eq!(node, "b");
            assert_eq!(sent, bytes);
            routes.get_mut(&node).unwrap().extend(sent);
        }
        other => panic!("should write: {other:?}"),
    }
    assert_eq!(routes.get(&"b".to_string()).unwrap().len(), 1 + bytes.len());
    assert_eq!(routes.get(&"a".to_string()), Some(&vec![1]));
}

#[test]
fn packets_that_lead_nowhere_are_dropped() {
    let mut routes: AssocMap<String, ()> = AssocMap::new();
    routes.insert("a".to_string(), ());
    let dst = IpAddr::from_octets(10, 0, 0, 2);
    assert_eq!(
        OutboundIP::route(looked_up(packet()), None, &routes),
        Delivery::UnknownDestination(dst)
    );
    let (_, w) = ztunnel("b", 2);
    assert_eq!(
        OutboundIP::route(looked_up(packet()), Some(&w), &routes),
        Delivery::UnknownNode(dst)
    );
}
