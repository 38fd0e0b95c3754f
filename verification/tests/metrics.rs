use prometheus_client::encoding::text::encode;
use prometheus_client::registry::Registry;

use ztunnel::assoc::AssocMap;
use ztunnel::identity::Identity;
use ztunnel::net::{IpAddr, SocketAddr};
use ztunnel::proxy::counters::LabelSet;
use ztunnel::proxy::label_value::{LabelValue, ShownLabel};
use ztunnel::proxy::labels::{
    CommonTrafficLabels, ConnectionOpen, DerivedWorkload, OnDemandDnsLabels, Reporter,
    RequestProtocol, ResponseFlags, SecurityPolicy,
};
use ztunnel::proxy::metrics::{
    log_early_deny, ConnectionClose, ConnectionResult, Level, MetricEvent, Metrics,
    OnDemandDnsCacheMiss,
};
use ztunnel::test_helpers::app::TestApp;
use ztunnel::test_helpers::parsed_metrics::{labels_from_pairs, ParsedMetrics};
use ztunnel::workload::{Protocol, ServiceDescription, Workload};

fn workload(name: &str) -> Workload {
    Workload {
        name: name.to_string(),
        namespace: "ns".to_string(),
        service_account: "sa".to_string(),
        trust_domain: "td".to_string(),
        workload_name: format!("{name}-deployment"),
        canonical_name: format!("{name}-app"),
        canonical_revision: "v1".to_string(),
        cluster_id: "".to_string(),
        hostname: format!("{name}.example.com"),
        node: "node".to_string(),
        protocol: Protocol::TCP,
        workload_ips: vec![IpAddr::V4(1)],
        waypoint_addresses: vec![],
    }
}

fn service() -> ServiceDescription {
    ServiceDescription {
        hostname: "svc.ns.svc.cluster.local".to_string(),
        name: "svc".to_string(),
        namespace: "svcns".to_string(),
    }
}

fn open(reporter: Reporter) -> ConnectionOpen {
    ConnectionOpen {
        reporter,
        source: Some(workload("client")),
        derived_source: None,
        destination: Some(workload("server")),
        destination_service: Some(service()),
        connection_security_policy: SecurityPolicy::mutual_tls,
    }
}

fn at(ip: u32, port: u16) -> SocketAddr {
    SocketAddr { ip: IpAddr::V4(ip), port }
}

fn page(registry: &Registry) -> ParsedMetrics {
    let mut body = String::new();
    encode(&mut body, registry).unwrap();
    TestApp::metrics(&body)
}

fn sum(registry: &Registry, metric: &str, pairs: &[(&str, &str)]) -> u64 {
    let pairs: Vec<(String, String)> =
        pairs.iter().map(|(k, v)| (k.to_string(), v.to_string())).collect();
    page(registry).query_sum(metric, &labels_from_pairs(&pairs))
}

fn label<'a>(labels: &'a LabelSet, name: &str) -> &'a str {
    labels.iter().find(|l| l.0 == name).expect("label").1.text()
}

#[test]
fn metrics_are_described() {
    let mut registry = Registry::default();
    let _metrics = Metrics::new(registry.sub_registry_with_prefix("istio"));
    let page = page(&registry);
    for metric in [
        "istio_tcp_connections_opened",
        "istio_tcp_connections_closed",
        "istio_tcp_received_bytes",
        "istio_tcp_sent_bytes",
        "istio_on_demand_dns",
        "istio_on_demand_dns_cache_misses",
    ] {
        assert!(page.query(metric, &AssocMap::new()).is_some(), "expected metric {metric}");
        let total = format!("{metric}_total");
        assert!(page.query(&total, &AssocMap::new()).is_some(), "expected metric {total}");
    }
    assert!(page.query("istio_tcp_connections", &AssocMap::new()).is_none());
    let mut body = String::new();
    encode(&mut body, &registry).unwrap();
    assert!(body.contains(
        "# HELP istio_tcp_sent_bytes The size of total bytes sent during response in case of a TCP connection."
    ));
}

#[test]
fn a_connection_is_opened_and_closed() {
    let mut registry = Registry::default();
    let mut metrics = Metrics::new(registry.sub_registry_with_prefix("istio"));
    let (mut conn, opened) = ConnectionResult::new(
        at(1, 1000),
        at(2, 80),
        None,
        5_000_000,
        open(Reporter::source),
        &mut metrics,
    );
    assert_eq!(opened.level, Level::Debug);
    assert_eq!(opened.message, "connection opened");
    assert_eq!(opened.direction, "outbound");
    assert_eq!(sum(&registry, "istio_tcp_connections_opened_total", &[]), 1);
    assert_eq!(sum(&registry, "istio_tcp_connections_closed_total", &[]), 0);
    assert_eq!(page(&registry).query("istio_tcp_sent_bytes_total", &AssocMap::new()).unwrap().len(), 1);

    conn.increment_send(7, &mut metrics);
    conn.increment_send(4, &mut metrics);
    conn.increment_recv(3, &mut metrics);
    assert_eq!(sum(&registry, "istio_tcp_sent_bytes_total", &[]), 11);
    assert_eq!(sum(&registry, "istio_tcp_received_bytes_total", &[]), 3);

    let log = conn.record(Ok(()), 17_999_999, &mut metrics);
    assert_eq!(sum(&registry, "istio_tcp_connections_opened_total", &[]), 1);
    assert_eq!(sum(&registry, "istio_tcp_connections_closed_total", &[]), 1);
    assert_eq!(log.connection.level, Level::Info);
    assert_eq!(log.connection.message, "connection complete");
    assert_eq!(log.bytes_sent, 3);
    assert_eq!(log.bytes_recv, 11);
    assert_eq!(log.duration, "12ms");
    assert_eq!(log.error, None);
    assert_eq!(log.dst_service.as_deref(), Some("svc.ns.svc.cluster.local"));
    assert_eq!(log.connection.src_workload.as_deref(), Some("client"));
    assert_eq!(log.connection.src_namespace.as_deref(), Some("ns"));
    assert_eq!(log.connection.src_identity.as_deref(), Some("spiffe://td/ns/ns/sa/sa"));
    assert_eq!(log.connection.dst_workload.as_deref(), Some("server"));
    assert_eq!(log.connection.dst_namespace.as_deref(), Some("server-app"));
}

#[test]
fn the_destination_logs_the_other_direction() {
    let mut registry = Registry::default();
    let mut metrics = Metrics::new(&mut registry);
    let (mut conn, _) = ConnectionResult::new(
        at(1, 1000),
        at(2, 80),
        Some(at(3, 8080)),
        0,
        open(Reporter::destination),
        &mut metrics,
    );
    conn.increment_send(7, &mut metrics);
    conn.increment_recv(3, &mut metrics);
    let log = conn.record(Err("reset".to_string()), 0, &mut metrics);
    assert_eq!(log.connection.level, Level::Error);
    assert_eq!(log.connection.direction, "inbound");
    assert_eq!(log.connection.dst_hbone_addr, Some(at(3, 8080)));
    assert_eq!(log.bytes_sent, 7);
    assert_eq!(log.bytes_recv, 3);
    assert_eq!(log.duration, "0ms");
    assert_eq!(log.error.as_deref(), Some("reset"));
}

#[test]
fn denials_have_a_label_of_their_own() {
    let mut registry = Registry::default();
    let mut metrics = Metrics::new(&mut registry);
    let (conn, _) =
        ConnectionResult::new(at(1, 1), at(2, 2), None, 0, open(Reporter::source), &mut metrics);
    let denied = ResponseFlags::AuthorizationPolicyDenied;
    let log = conn.record_with_flag(Err("denied".to_string()), denied, 0, &mut metrics);
    assert_eq!(log.error.as_deref(), Some("denied"));
    let closed = "tcp_connections_closed_total";
    assert_eq!(sum(&registry, closed, &[("response_flags", "DENY")]), 1);
    assert_eq!(sum(&registry, closed, &[("response_flags", "-")]), 0);
    assert_eq!(sum(&registry, "tcp_connections_opened_total", &[("response_flags", "-")]), 1);
}

#[test]
fn identities_are_logged_under_mutual_tls_alone() {
    let mut registry = Registry::default();
    let mut metrics = Metrics::new(&mut registry);
    let plain = ConnectionOpen {
        connection_security_policy: SecurityPolicy::unknown,
        ..open(Reporter::source)
    };
    let (conn, opened) = ConnectionResult::new(at(1, 1), at(2, 2), None, 0, plain, &mut metrics);
    assert_eq!(opened.src_identity, None);
    assert_eq!(opened.dst_identity, None);
    let log = conn.record(Ok(()), 0, &mut metrics);
    assert_eq!(log.connection.dst_identity, None);
}

#[test]
fn labels_say_what_is_known() {
    let labels = CommonTrafficLabels::from(open(Reporter::source)).encode();
    assert_eq!(labels.len(), 23);
    assert_eq!(label(&labels, "reporter"), "source");
    assert_eq!(label(&labels, "source_workload"), "client-deployment");
    assert_eq!(label(&labels, "source_canonical_service"), "client-app");
    assert_eq!(label(&labels, "source_canonical_revision"), "v1");
    assert_eq!(label(&labels, "source_workload_namespace"), "ns");
    assert_eq!(label(&labels, "source_principal"), "spiffe://td/ns/ns/sa/sa");
    assert_eq!(label(&labels, "source_app"), "client-app");
    assert_eq!(label(&labels, "source_version"), "v1");
    assert_eq!(label(&labels, "source_cluster"), "unknown");
    assert_eq!(label(&labels, "destination_service"), "svc.ns.svc.cluster.local");
    assert_eq!(label(&labels, "destination_service_namespace"), "svcns");
    assert_eq!(label(&labels, "destination_service_name"), "svc");
    assert_eq!(label(&labels, "destination_workload"), "server-deployment");
    assert_eq!(label(&labels, "request_protocol"), "tcp");
    assert_eq!(label(&labels, "response_flags"), "-");
    assert_eq!(label(&labels, "connection_security_policy"), "mutual_tls");
    assert_eq!(RequestProtocol::http.encode(), "http");
}

#[test]
fn label_names_differ() {
    let labels = CommonTrafficLabels::new().encode();
    let mut names: Vec<&str> = labels.iter().map(|l| l.0.as_str()).collect();
    names.sort();
    names.dedup();
    assert_eq!(names.len(), labels.len());
}

#[test]
fn counting_in_steps_adds_up() {
    let mut registry = Registry::default();
    let mut metrics = Metrics::new(&mut registry);
    let (mut a, _) =
        ConnectionResult::new(at(1, 1), at(2, 2), None, 0, open(Reporter::source), &mut metrics);
    let (mut b, _) =
        ConnectionResult::new(at(1, 1), at(2, 2), None, 0, open(Reporter::destination), &mut metrics);
    a.increment_send(1, &mut metrics);
    b.increment_send(10, &mut metrics);
    a.increment_send(2, &mut metrics);
    assert_eq!(sum(&registry, "tcp_sent_bytes_total", &[("reporter", "source")]), 3);
    assert_eq!(sum(&registry, "tcp_sent_bytes_total", &[("reporter", "destination")]), 10);
    assert_eq!(sum(&registry, "tcp_received_bytes_total", &[]), 0);
}

#[test]
fn nothing_known_is_unknown() {
    let labels = CommonTrafficLabels::new()
        .with_source(None)
        .with_derived_source(None)
        .with_destination(None)
        .with_destination_service(None)
        .encode();
    for (name, value) in &labels {
        let value = value.text();
        match name.as_str() {
            "reporter" => assert_eq!(value, "source"),
            "request_protocol" => assert_eq!(value, "tcp"),
            "response_flags" => assert_eq!(value, "-"),
            _ => assert_eq!(value, "unknown", "{name}"),
        }
    }
}

#[test]
fn the_source_outranks_what_the_connection_tells() {
    let derived = DerivedWorkload {
        workload_name: Some("derived".to_string()),
        app: Some("app".to_string()),
        identity: Some(Identity {
            trust_domain: "td".to_string(),
            namespace: "other".to_string(),
            service_account: "sa".to_string(),
        }),
        ..DerivedWorkload::default()
    };
    let both = ConnectionOpen { derived_source: Some(derived), ..open(Reporter::source) };
    let labels = CommonTrafficLabels::of_connection(&both).encode();
    assert_eq!(label(&labels, "source_workload"), "client-deployment");
    let only_derived = ConnectionOpen { source: None, ..both };
    let labels = CommonTrafficLabels::of_connection(&only_derived).encode();
    assert_eq!(label(&labels, "source_workload"), "derived");
    assert_eq!(label(&labels, "source_canonical_service"), "app");
    assert_eq!(label(&labels, "source_app"), "derived");
    assert_eq!(label(&labels, "source_principal"), "spiffe://td/ns/other/sa/sa");
}

#[test]
fn a_peer_named_unknown_is_not_an_unknown_peer() {
    let mut registry = Registry::default();
    let mut metrics = Metrics::new(&mut registry);
    let missing = ConnectionOpen { source: None, ..open(Reporter::source) };
    let derived = DerivedWorkload {
        workload_name: Some("unknown".to_string()),
        ..DerivedWorkload::default()
    };
    let named = ConnectionOpen { derived_source: Some(derived), ..missing.clone() };
    let missing_labels = CommonTrafficLabels::of_connection(&missing).encode();
    let named_labels = CommonTrafficLabels::of_connection(&named).encode();
    for (a, b) in missing_labels.iter().zip(&named_labels) {
        assert_eq!((&a.0, a.1.text()), (&b.0, b.1.text()));
    }
    assert!(missing_labels != named_labels);

    named.increment_in(&mut metrics);
    missing.increment_in(&mut metrics);
    named.increment_in(&mut metrics);
    let page = page(&registry);
    let opened = page.query("tcp_connections_opened_total", &AssocMap::new()).unwrap();
    assert_eq!(opened.len(), 2);
    let source = [("source_workload", "unknown")];
    assert_eq!(sum(&registry, "tcp_connections_opened_total", &source), 3);
}

#[test]
fn label_values_are_told_apart_by_what_they_are() {
    let id = || Identity {
        trust_domain: "td".to_string(),
        namespace: "ns".to_string(),
        service_account: "sa".to_string(),
    };
    let values = || {
        [
            ShownLabel::new(LabelValue::Missing),
            ShownLabel::new(LabelValue::Text("unknown".to_string())),
            ShownLabel::new(LabelValue::Text("spiffe://td/ns/ns/sa/sa".to_string())),
            ShownLabel::new(LabelValue::Principal(id())),
        ]
    };
    let texts = values().map(|v| v.text().to_string());
    let uri = "spiffe://td/ns/ns/sa/sa";
    assert_eq!(texts, ["unknown", "unknown", uri, uri]);
    for (i, a) in values().iter().enumerate() {
        for (j, b) in values().iter().enumerate() {
            assert_eq!(a == b, i == j);
        }
        assert_eq!(a.clone(), *a);
    }
}

#[test]
fn dns_labels_name_the_host() {
    let labels = OnDemandDnsLabels::new()
        .with_source(&workload("client"))
        .with_destination(&workload("server"))
        .encode();
    assert_eq!(labels.len(), 9);
    assert_eq!(label(&labels, "hostname"), "server.example.com");
    assert_eq!(label(&labels, "source_workload"), "client-deployment");
    assert_eq!(label(&OnDemandDnsLabels::new().encode(), "hostname"), "unknown");
}

#[test]
fn a_deferred_event_is_counted_later() {
    let mut registry = Registry::default();
    let mut metrics = Metrics::new(&mut registry);
    let event = open(Reporter::source);
    let later = metrics.increment_defer::<ConnectionOpen, ConnectionClose>(&event);
    assert_eq!(sum(&registry, "tcp_connections_opened_total", &[]), 1);
    assert_eq!(sum(&registry, "tcp_connections_closed_total", &[]), 0);
    later.record(&mut metrics);
    assert_eq!(sum(&registry, "tcp_connections_closed_total", &[("reporter", "source")]), 1);
    event.increment_in(&mut metrics);
    assert_eq!(sum(&registry, "tcp_connections_opened_total", &[]), 2);
}

#[test]
fn each_counter_shows_under_its_own_name() {
    let mut registry = Registry::default();
    let mut metrics = Metrics::new(&mut registry);
    let names = [
        "tcp_connections_opened_total",
        "tcp_connections_closed_total",
        "tcp_received_bytes_total",
        "tcp_sent_bytes_total",
        "on_demand_dns_total",
        "on_demand_dns_cache_misses_total",
    ];
    let shown = |registry: &Registry| names.map(|n| sum(registry, n, &[]));
    assert_eq!(shown(&registry), [0, 0, 0, 0, 0, 0]);
    let (mut conn, _) =
        ConnectionResult::new(at(1, 1), at(2, 2), None, 0, open(Reporter::source), &mut metrics);
    assert_eq!(shown(&registry), [1, 0, 0, 0, 0, 0]);
    conn.increment_recv(20, &mut metrics);
    assert_eq!(shown(&registry), [1, 0, 20, 0, 0, 0]);
    conn.increment_send(30, &mut metrics);
    assert_eq!(shown(&registry), [1, 0, 20, 30, 0, 0]);
    conn.record(Ok(()), 0, &mut metrics);
    assert_eq!(shown(&registry), [1, 1, 20, 30, 0, 0]);
    let dns = OnDemandDnsLabels::new().with_destination(&workload("server"));
    dns.increment_in(&mut metrics);
    dns.increment_in(&mut metrics);
    assert_eq!(shown(&registry), [1, 1, 20, 30, 2, 0]);
    OnDemandDnsCacheMiss { labels: dns.clone() }.increment_in(&mut metrics);
    assert_eq!(shown(&registry), [1, 1, 20, 30, 2, 1]);
    let host = [("hostname", "server.example.com")];
    assert_eq!(sum(&registry, "on_demand_dns_total", &host), 2);
}

#[test]
fn copies_and_defaults_say_the_same() {
    let conn = open(Reporter::destination);
    let labels = CommonTrafficLabels::from(conn.clone());
    assert_eq!(labels.clone(), CommonTrafficLabels::of_connection(&conn));
    assert_eq!(CommonTrafficLabels::default(), CommonTrafficLabels::new());
    assert_eq!(OnDemandDnsLabels::default(), OnDemandDnsLabels::new());
    let derived = DerivedWorkload { app: Some("a".to_string()), ..DerivedWorkload::default() };
    assert_eq!(derived.clone().app.as_deref(), Some("a"));
}

#[test]
fn early_denials_are_warned_of() {
    let entry = log_early_deny(at(1, 1), at(2, 2), Reporter::destination, "why");
    assert_eq!(entry.level, Level::Warn);
    assert_eq!(entry.direction, "inbound");
    assert_eq!(entry.message, "connection failed");
    assert_eq!((entry.src_addr, entry.dst_addr, entry.error), (at(1, 1), at(2, 2), "why"));
    assert_eq!(log_early_deny(at(1, 1), at(2, 2), Reporter::source, 0).direction, "outbound");
}
