//! What the access log and the counters tell of a connection.

use vstd::prelude::*;

use crate::identity::IdentityView;
use crate::net::SocketAddr;
use crate::proxy::counters::{count_of, counted, LabelSetView};
use crate::proxy::labels::{
    ConnectionOpen, OnDemandDnsLabels, PeerView, Reporter, ResponseFlags, SecurityPolicy,
    TrafficView,
};
use crate::proxy::metrics::{
    error_view, peer_name, proxy_metrics, vouched_identity, AccessLog, CompletionLog,
    ConnectionClose, ConnectionView, Level, MetricEvent, MetricFamilies, Metrics, MetricsView,
    OnDemandDnsCacheMiss,
};
use crate::text::decimal;
use crate::workload::WorkloadView;

verus! {

/// A log entry says what its fields hold.
pub proof fn log_entries_say_what_they_hold(log: AccessLog, end: CompletionLog)
    ensures
        log@.level == log.level,
        log@.src_addr == log.src_addr,
        log@.src_workload is Some == log.src_workload is Some,
        log.src_workload is Some ==> log@.src_workload->0 == log.src_workload->0@,
        log@.src_namespace is Some == log.src_namespace is Some,
        log.src_namespace is Some ==> log@.src_namespace->0 == log.src_namespace->0@,
        log@.src_identity is Some == log.src_identity is Some,
        log.src_identity is Some ==> log@.src_identity->0 == log.src_identity->0@,
        log@.dst_addr == log.dst_addr,
        log@.dst_hbone_addr == log.dst_hbone_addr,
        log@.dst_workload is Some == log.dst_workload is Some,
        log.dst_workload is Some ==> log@.dst_workload->0 == log.dst_workload->0@,
        log@.dst_namespace is Some == log.dst_namespace is Some,
        log.dst_namespace is Some ==> log@.dst_namespace->0 == log.dst_namespace->0@,
        log@.dst_identity is Some == log.dst_identity is Some,
        log.dst_identity is Some ==> log@.dst_identity->0 == log.dst_identity->0@,
        log@.direction == log.direction@,
        log@.message == log.message@,
        end@.connection == end.connection@,
        end@.dst_service is Some == end.dst_service is Some,
        end.dst_service is Some ==> end@.dst_service->0 == end.dst_service->0@,
        end@.bytes_sent == end.bytes_sent,
        end@.bytes_recv == end.bytes_recv,
        end@.duration == end.duration@,
        end@.error is Some == end.error is Some,
        end.error is Some ==> end@.error->0 == end.error->0@,
{
}

/// The entries of the opening and of the end of a connection have the addresses that it was
/// opened with, whatever it carried, however it was flagged and however it ended.
pub proof fn addresses_are_logged_as_given(
    src: SocketAddr,
    dst: SocketAddr,
    hbone_target: Option<SocketAddr>,
    start: u128,
    conn: ConnectionOpen,
    level: Level,
    message: Seq<char>,
    sent: u64,
    recv: u64,
    flag: ResponseFlags,
    now: u128,
    error: Option<Seq<char>>,
)
    ensures
        ({
            let c = ConnectionView::opened(src, dst, hbone_target, start, conn);
            let later = ConnectionView {
                sent,
                recv,
                labels: TrafficView { response_flags: flag, ..c.labels },
                ..c
            };
            &&& c.access(level, message).src_addr == src
            &&& c.access(level, message).dst_addr == dst
            &&& c.access(level, message).dst_hbone_addr == hbone_target
            &&& later.completion(now, error).connection.src_addr == src
            &&& later.completion(now, error).connection.dst_addr == dst
            &&& later.completion(now, error).connection.dst_hbone_addr == hbone_target
        }),
{
}

/// A connection that was just opened: its ends and its beginning are as given, it has carried
/// nothing, and bytes are counted under the labels that it was opened under. An end is named
/// by its workload, and where there is none by what is known of its canonical service.
pub proof fn accounts_begin_as_given(
    src: SocketAddr,
    dst: SocketAddr,
    hbone_target: Option<SocketAddr>,
    start: u128,
    conn: ConnectionOpen,
)
    ensures
        ({
            let c = ConnectionView::opened(src, dst, hbone_target, start, conn);
            &&& c.src == src
            &&& c.dst == dst
            &&& c.hbone_target == hbone_target
            &&& c.start == start
            &&& c.sent == 0
            &&& c.recv == 0
            &&& c.labels == TrafficView::of_connection(conn)
            &&& c.byte_labels == TrafficView::of_connection(conn).labels()
            &&& conn.source matches Some(w) ==> c.src_name == Some(w.name@)
            &&& conn.source is None && conn.derived_source is Some ==> {
                &&& c.src_name is Some == conn.derived_source->0.app is Some
                &&& c.src_name is Some ==> c.src_name->0 == conn.derived_source->0.app->0@
            }
            &&& conn.source is None && conn.derived_source is None ==> c.src_name is None
            &&& conn.destination matches Some(w) ==> c.dst_name == Some(w.name@)
            &&& conn.destination is None ==> c.dst_name is None
        }),
{
}

/// An end is named by its workload, else by its canonical service.
pub proof fn how_ends_are_named(w: WorkloadView, p: PeerView)
    ensures
        peer_name(Some(w), p) == Some(w.name),
        peer_name(None, p) == p.canonical_service,
{
}

/// What an entry of the access log tells: the ends by name, the namespace of the source, the
/// canonical service of the destination, which way the traffic goes, and, only under mutual
/// TLS, the identities as URIs.
pub proof fn what_entries_tell(c: ConnectionView, level: Level, message: Seq<char>)
    ensures
        ({
            let a = c.access(level, message);
            let tls = c.labels.connection_security_policy == SecurityPolicy::mutual_tls;
            let src = c.labels.source.principal;
            let dst = c.labels.destination.principal;
            &&& a.level == level
            &&& a.message == message
            &&& a.src_addr == c.src
            &&& a.dst_addr == c.dst
            &&& a.dst_hbone_addr == c.hbone_target
            &&& a.src_workload == c.src_name
            &&& a.dst_workload == c.dst_name
            &&& a.src_namespace == c.labels.source.workload_namespace
            &&& a.dst_namespace == c.labels.destination.canonical_service
            &&& c.labels.reporter == Reporter::source ==> a.direction == "outbound"@
            &&& c.labels.reporter == Reporter::destination ==> a.direction == "inbound"@
            &&& a.src_identity is Some == (tls && src is Some)
            &&& a.src_identity is Some ==> a.src_identity->0 == "spiffe://"@ + src->0.trust_domain
                + "/ns/"@ + src->0.namespace + "/sa/"@ + src->0.service_account
            &&& a.dst_identity is Some == (tls && dst is Some)
            &&& a.dst_identity is Some ==> a.dst_identity->0 == "spiffe://"@ + dst->0.trust_domain
                + "/ns/"@ + dst->0.namespace + "/sa/"@ + dst->0.service_account
        }),
{
}

/// The identity of the destination in the log of a mutual TLS connection is the URI of the
/// trust domain, namespace and service account of its workload; and the same of the source.
pub proof fn identities_are_those_of_the_workloads(
    src: SocketAddr,
    dst: SocketAddr,
    hbone_target: Option<SocketAddr>,
    start: u128,
    conn: ConnectionOpen,
    now: u128,
    error: Option<Seq<char>>,
)
    requires
        conn.connection_security_policy == SecurityPolicy::mutual_tls,
    ensures
        ({
            let c = ConnectionView::opened(src, dst, hbone_target, start, conn);
            let end = c.completion(now, error).connection;
            &&& conn.source matches Some(w) ==> end.src_identity == Some(
                "spiffe://"@ + w.trust_domain@ + "/ns/"@ + w.namespace@ + "/sa/"@
                    + w.service_account@,
            )
            &&& conn.destination matches Some(w) ==> end.dst_identity == Some(
                "spiffe://"@ + w.trust_domain@ + "/ns/"@ + w.namespace@ + "/sa/"@
                    + w.service_account@,
            )
        }),
{
}

/// What the entry of the end tells: how many bytes went which way, seen from the side that
/// reports, how many whole milliseconds the connection lasted, and the error, which makes the
/// entry an error itself.
pub proof fn what_the_last_entry_tells(c: ConnectionView, now: u128, error: Option<Seq<char>>)
    ensures
        ({
            let end = c.completion(now, error);
            let lasted: int = if now > c.start {
                now - c.start
            } else {
                0
            };
            &&& end.error == error
            &&& error is Some ==> end.connection.level == Level::Error
            &&& error is None ==> end.connection.level == Level::Info
            &&& end.connection.message == "connection complete"@
            &&& end.connection == c.access(end.connection.level, "connection complete"@)
            &&& end.dst_service == c.labels.destination_service
            &&& c.labels.reporter == Reporter::source ==> end.bytes_sent == c.recv
                && end.bytes_recv == c.sent
            &&& c.labels.reporter == Reporter::destination ==> end.bytes_sent == c.sent
                && end.bytes_recv == c.recv
            &&& c.millis(now) * 1_000_000 <= lasted < (c.millis(now) + 1) * 1_000_000
            &&& end.duration == decimal(c.millis(now)) + "ms"@
        }),
{
}

/// A connection ended with an error exactly where it did not succeed.
pub proof fn errors_are_told(res: Result<(), String>)
    ensures
        res is Ok ==> error_view(res) is None,
        res matches Err(e) ==> error_view(res) == Some(e@),
{
}

/// An identity is vouched for by mutual TLS alone.
pub proof fn what_vouches(t: TrafficView, p: PeerView, id: IdentityView)
    ensures
        t.connection_security_policy != SecurityPolicy::mutual_tls ==> vouched_identity(
            t,
            p,
        ) is None,
        t.connection_security_policy == SecurityPolicy::mutual_tls && p.principal == Some(id)
            ==> vouched_identity(t, p) == Some(
            "spiffe://"@ + id.trust_domain + "/ns/"@ + id.namespace + "/sa/"@
                + id.service_account,
        ),
        p.principal is None ==> vouched_identity(t, p) is None,
{
}

/// Counting adds to the counter of the labels, from zero where there is none yet and around
/// the end of the range, and to no other.
pub proof fn what_counting_does(
    counts: Map<LabelSetView, u64>,
    labels: LabelSetView,
    v: u64,
    other: LabelSetView,
)
    ensures
        counts.contains_key(other) ==> count_of(counts, other) == counts[other],
        !counts.contains_key(other) ==> count_of(counts, other) == 0,
        counted(counts, labels, v).contains_key(labels),
        counts.contains_key(labels) ==> counted(counts, labels, v)[labels] == (counts[labels]
            + v) % 0x1_0000_0000_0000_0000,
        !counts.contains_key(labels) ==> counted(counts, labels, v)[labels] == v,
        counted(counts, labels, v).remove(labels) == counts.remove(labels),
{
    assert(counted(counts, labels, v).remove(labels) =~= counts.remove(labels));
}

/// Each event is counted once, by the counter that it is for, and by no other.
pub proof fn events_are_counted_apart(m: MetricsView, labels: LabelSetView, n: u64)
    ensures
        m.opened(labels) == (MetricsView {
            connection_opens: counted(m.connection_opens, labels, 1),
            ..m
        }),
        m.closed(labels) == (MetricsView {
            connection_close: counted(m.connection_close, labels, 1),
            ..m
        }),
        m.sent(labels, n) == (MetricsView { sent_bytes: counted(m.sent_bytes, labels, n), ..m }),
        m.received(labels, n) == (MetricsView {
            received_bytes: counted(m.received_bytes, labels, n),
            ..m
        }),
        m.resolved(labels) == (MetricsView {
            on_demand_dns: counted(m.on_demand_dns, labels, 1),
            ..m
        }),
        m.missed(labels) == (MetricsView {
            on_demand_dns_cache_misses: counted(m.on_demand_dns_cache_misses, labels, 1),
            ..m
        }),
{
}

/// Metrics that were just made have counted nothing.
pub proof fn counting_begins_at_zero(families: MetricFamilies, labels: LabelSetView)
    ensures
        MetricsView::zero(families).families == families,
        !MetricsView::zero(families).connection_opens.contains_key(labels),
        !MetricsView::zero(families).connection_close.contains_key(labels),
        !MetricsView::zero(families).received_bytes.contains_key(labels),
        !MetricsView::zero(families).sent_bytes.contains_key(labels),
        !MetricsView::zero(families).on_demand_dns.contains_key(labels),
        !MetricsView::zero(families).on_demand_dns_cache_misses.contains_key(labels),
{
}

/// What metrics have counted is what their counters hold.
pub proof fn metrics_say_what_they_hold(m: Metrics)
    ensures
        m@.connection_opens == m.connection_opens@,
        m@.connection_close == m.connection_close@,
        m@.received_bytes == m.received_bytes@,
        m@.sent_bytes == m.sent_bytes@,
        m@.on_demand_dns == m.on_demand_dns@,
        m@.on_demand_dns_cache_misses == m.on_demand_dns_cache_misses@,
{
}

/// A connection is counted as opened under its own labels, and as closed under those that it
/// closes with; a resolved name and a miss of the cache under theirs.
pub proof fn events_are_counted_under_their_labels(
    open: ConnectionOpen,
    close: ConnectionClose,
    dns: OnDemandDnsLabels,
    miss: OnDemandDnsCacheMiss,
    m: MetricsView,
)
    ensures
        open.recorded(m) == (MetricsView {
            connection_opens: counted(
                m.connection_opens,
                TrafficView::of_connection(open).labels(),
                1,
            ),
            ..m
        }),
        close.recorded(m) == (MetricsView {
            connection_close: counted(m.connection_close, close.labels@.labels(), 1),
            ..m
        }),
        dns.recorded(m) == (MetricsView {
            on_demand_dns: counted(m.on_demand_dns, dns@.labels(), 1),
            ..m
        }),
        miss.recorded(m) == (MetricsView {
            on_demand_dns_cache_misses: counted(
                m.on_demand_dns_cache_misses,
                miss.labels@.labels(),
                1,
            ),
            ..m
        }),
{
}

/// The help text of each metric.
pub proof fn metrics_have_their_help_texts(families: MetricFamilies)
    ensures
        proxy_metrics(families).len() == 6,
        proxy_metrics(families)[0].1 == "The total number of TCP connections opened"@ + "."@,
        proxy_metrics(families)[1].1 == "The total number of TCP connections closed"@ + "."@,
        proxy_metrics(families)[2].1
            == "The size of total bytes received during request in case of a TCP connection"@
            + "."@,
        proxy_metrics(families)[3].1
            == "The size of total bytes sent during response in case of a TCP connection"@ + "."@,
        proxy_metrics(families)[4].1
            == "The total number of requests that used on-demand DNS (unstable)"@ + "."@,
        proxy_metrics(families)[5].1
            == "The total number of cache misses for requests on-demand DNS (unstable)"@ + "."@,
{
}

} // verus!
