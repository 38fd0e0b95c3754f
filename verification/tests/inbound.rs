use prometheus_client::encoding::text::encode;
use prometheus_client::registry::Registry;

use ztunnel::config::{Config, ProxyMode};
use ztunnel::net::{IpAddr, SocketAddr};
use ztunnel::proxy::error::Error;
use ztunnel::proxy::inbound_passthrough::{
    AcceptFailure, AcceptState, Action, DrainEnd, InboundPassthrough, Phase, PlaintextConnection,
};
use ztunnel::proxy::metrics::{Level, Metrics};
use ztunnel::proxy::util::{ErrorKind, IoError};
use ztunnel::test_helpers::app::TestApp;
use ztunnel::test_helpers::parsed_metrics::labels_from_pairs;
use ztunnel::workload::{NetworkAddress, Protocol, ServiceDescription, Workload};

fn config() -> Config {
    Config {
        inbound_plaintext_addr: at(0, 15006),
        inpod_enabled: true,
        illegal_ports: vec![15006],
        proxy_mode: ProxyMode::Shared,
        local_ip: None,
        network: "net".to_string(),
        self_termination_deadline: 9,
        local_node: None,
        fake_ca: false,
        xds_address: None,
        local_xds_config: None,
    }
}

fn at(ip: u32, port: u16) -> SocketAddr {
    SocketAddr { ip: IpAddr::V4(ip), port }
}

fn workload(name: &str) -> Workload {
    Workload {
        name: name.to_string(),
        namespace: "ns".to_string(),
        service_account: "sa".to_string(),
        trust_domain: "td".to_string(),
        workload_name: name.to_string(),
        canonical_name: name.to_string(),
        canonical_revision: "".to_string(),
        cluster_id: "".to_string(),
        hostname: "".to_string(),
        node: "node".to_string(),
        protocol: Protocol::TCP,
        workload_ips: vec![IpAddr::V4(2)],
        waypoint_addresses: vec![],
    }
}

fn address(ip: u32) -> NetworkAddress {
    NetworkAddress { network: "net".to_string(), address: IpAddr::V4(ip) }
}

fn sum(registry: &Registry, metric: &str, pairs: &[(&str, &str)]) -> u64 {
    let mut body = String::new();
    encode(&mut body, registry).unwrap();
    let pairs: Vec<(String, String)> =
        pairs.iter().map(|(k, v)| (k.to_string(), v.to_string())).collect();
    TestApp::metrics(&body).query_sum(metric, &labels_from_pairs(&pairs))
}

/// A connection whose ends are known, on its way to the access rules.
fn opened(metrics: &mut Metrics, enable_orig_src: bool) -> PlaintextConnection {
    let (conn, action) =
        PlaintextConnection::begin(&config(), at(1, 1000), at(2, 80), 0, enable_orig_src);
    match action {
        Action::FetchUpstream(a) => assert_eq!(a, address(2)),
        _ => panic!("should look up the destination"),
    }
    let (conn, action) = conn.upstream(Some(workload("server")));
    match action {
        Action::FetchSource(a) => assert_eq!(a, address(1)),
        _ => panic!("should look up the source"),
    }
    let service = ServiceDescription {
        hostname: "svc.example.com".to_string(),
        name: "svc".to_string(),
        namespace: "ns".to_string(),
    };
    let (conn, action) = conn.source(None, Some(service), metrics);
    match action {
        Action::Authorize { rbac, opened } => {
            assert!(rbac.src_identity.is_none());
            assert_eq!((rbac.src, rbac.dst), (at(1, 1000), at(2, 80)));
            assert_eq!(rbac.dst_network, "net");
            assert_eq!(opened.message, "connection opened");
            assert_eq!(opened.dst_workload.as_deref(), Some("server"));
            assert_eq!(opened.src_workload, None);
        }
        _ => panic!("should ask the access rules"),
    }
    conn
}

#[test]
fn a_permitted_connection_is_relayed() {
    let mut registry = Registry::default();
    let mut metrics = Metrics::new(&mut registry);
    let conn = opened(&mut metrics, true);
    let (mut conn, action) = conn.authorized(Ok(()), 1, &mut metrics);
    match action {
        Action::Connect { orig_src, dest } => {
            assert_eq!(orig_src, Some(IpAddr::V4(1)));
            assert_eq!(dest, at(2, 80));
        }
        _ => panic!("should connect"),
    }
    conn.sent(5, &mut metrics);
    conn.received(6, &mut metrics);
    conn.sent(2, &mut metrics);
    assert_eq!(sum(&registry, "tcp_connections_closed_total", &[]), 0);
    let (conn, action) = conn.finished(Ok(()), 3_000_000, &mut metrics);
    match action {
        Action::Finish(log) => {
            assert_eq!(log.bytes_sent, 7);
            assert_eq!(log.bytes_recv, 6);
            assert_eq!(log.duration, "3ms");
            assert_eq!(log.connection.level, Level::Info);
        }
        _ => panic!("should finish"),
    }
    assert!(matches!(conn.phase, Phase::Closed));
    let ours = [("reporter", "destination"), ("connection_security_policy", "unknown")];
    assert_eq!(sum(&registry, "tcp_connections_opened_total", &ours), 1);
    assert_eq!(sum(&registry, "tcp_connections_closed_total", &ours), 1);
    assert_eq!(sum(&registry, "tcp_sent_bytes_total", &ours), 7);
    assert_eq!(sum(&registry, "tcp_received_bytes_total", &ours), 6);
}

#[test]
fn the_source_address_is_kept_on_request() {
    let mut registry = Registry::default();
    let mut metrics = Metrics::new(&mut registry);
    let (_, action) = opened(&mut metrics, false).authorized(Ok(()), 1, &mut metrics);
    assert!(matches!(action, Action::Connect { orig_src: None, .. }));
}

#[test]
fn a_forbidden_connection_is_denied() {
    let mut registry = Registry::default();
    let mut metrics = Metrics::new(&mut registry);
    let conn = opened(&mut metrics, false);
    let (conn, action) = conn.authorized(Err("no".to_string()), 1, &mut metrics);
    match action {
        Action::Finish(log) => {
            assert_eq!(log.error.as_deref(), Some("no"));
            assert_eq!(log.connection.level, Level::Error);
        }
        _ => panic!("should finish"),
    }
    assert!(matches!(conn.phase, Phase::Closed));
    let denied = [("response_flags", "DENY")];
    assert_eq!(sum(&registry, "tcp_connections_closed_total", &denied), 1);
    assert_eq!(sum(&registry, "tcp_connections_opened_total", &denied), 0);
}

#[test]
fn calls_to_the_proxy_itself_are_denied() {
    let (conn, action) = PlaintextConnection::begin(&config(), at(1, 1), at(2, 15006), 0, false);
    match action {
        Action::Deny(entry) => {
            assert_eq!(entry.error, Error::SelfCall);
            assert_eq!(entry.level, Level::Warn);
            assert_eq!(entry.direction, "inbound");
        }
        _ => panic!("should deny"),
    }
    assert!(matches!(conn.phase, Phase::Closed));
}

#[test]
fn unknown_destinations_are_denied_and_not_counted() {
    let mut registry = Registry::default();
    let _metrics = Metrics::new(&mut registry);
    let (conn, _) = PlaintextConnection::begin(&config(), at(1, 1), at(2, 80), 0, false);
    let (conn, action) = conn.upstream(None);
    match action {
        Action::Deny(entry) => {
            assert_eq!(entry.error, Error::UnknownDestination(IpAddr::V4(2)))
        }
        _ => panic!("should deny"),
    }
    assert!(matches!(conn.phase, Phase::Closed));
    assert_eq!(sum(&registry, "tcp_connections_opened_total", &[]), 0);
    assert_eq!(sum(&registry, "tcp_connections_closed_total", &[]), 0);
}

fn started(enable_orig_src: bool) -> InboundPassthrough {
    InboundPassthrough::new(&config(), Ok(()), Ok(enable_orig_src)).ok().expect("started")
}

#[test]
fn failures_to_start_are_handed_on() {
    let inbound = started(true);
    assert_eq!((inbound.state, inbound.open), (AcceptState::Accepting, 0));
    assert_eq!((inbound.deadline, inbound.enable_orig_src), (9, true));
    let in_use = || Err("in use".to_string());
    let bind = Error::Bind(at(0, 15006), "in use".to_string());
    assert_eq!(InboundPassthrough::new(&config(), in_use(), Ok(true)).err(), Some(bind));
    let denied = Error::Io("denied".to_string());
    let r = InboundPassthrough::new(&config(), Ok(()), Err(denied));
    assert_eq!(r.err(), Some(Error::Io("denied".to_string())));
    let both = InboundPassthrough::new(&config(), in_use(), Err(Error::SelfCall));
    assert!(matches!(both.err(), Some(Error::Bind(..))));
}

#[test]
fn draining_waits_for_open_connections() {
    let mut inbound = started(true);
    let mapped = SocketAddr { ip: IpAddr::V6(0xffff_0000_0001), port: 7 };
    assert_eq!(inbound.accepted(mapped), at(1, 7));
    inbound.accepted(at(2, 7));
    assert!(!inbound.connection_done());
    assert_eq!(inbound.drain(), 9);
    assert_eq!(inbound.state, AcceptState::Draining);
    assert!(!inbound.is_drained(8));
    assert!(inbound.is_drained(9));
    assert_eq!(inbound.drained(9), DrainEnd { expired: true, force_shutdown: true });
    assert_eq!(inbound.state, AcceptState::Stopped);
}

#[test]
fn draining_ends_with_the_last_connection() {
    let mut inbound = started(false);
    inbound.accepted(at(1, 7));
    inbound.drain();
    assert!(inbound.connection_done());
    assert!(inbound.is_drained(0));
    assert_eq!(inbound.drained(0), DrainEnd { expired: false, force_shutdown: true });
}

#[test]
fn failures_to_accept_are_logged_unless_the_runtime_stops() {
    let mut inbound = started(false);
    let reset = IoError { kind: ErrorKind::Specific, message: "reset".to_string() };
    assert_eq!(inbound.accept_failed(&reset), AcceptFailure::Log);
    assert_eq!(inbound.state, AcceptState::Accepting);
    let shutdown = IoError {
        kind: ErrorKind::Other,
        message: "A Tokio 1.x context was found, but it is being shutdown.".to_string(),
    };
    assert_eq!(inbound.accept_failed(&shutdown), AcceptFailure::Stop);
    assert_eq!(inbound.state, AcceptState::Stopped);
}
