//! Counting connections and telling of them in the access log.

use prometheus_client::registry::Registry;

use vstd::prelude::*;
use vstd::string::*;

use crate::metrics::{clone_text, text_view};
use crate::net::SocketAddr;
use crate::proxy::counters::{
    counted, family_identity, label_views, registered, CounterFamily, LabelSet, LabelSetView,
    MetricView,
};
use crate::proxy::labels::{
    principal_text, CommonTrafficLabels, ConnectionOpen, OnDemandDnsLabels, PeerView, Reporter,
    ResponseFlags, SecurityPolicy, TrafficView,
};
use crate::text::{decimal, decimal_text};
use crate::workload::{workload_view, Workload, WorkloadView};

verus! {

/// The counters of the proxy.
pub struct Metrics {
    pub connection_opens: CounterFamily,
    pub connection_close: CounterFamily,
    pub received_bytes: CounterFamily,
    pub sent_bytes: CounterFamily,
    /// On-demand DNS is part of the proxy itself, not of the DNS proxy.
    pub on_demand_dns: CounterFamily,
    pub on_demand_dns_cache_misses: CounterFamily,
}

/// What [`Metrics`] have counted.
#[verifier::ext_equal]
pub struct MetricsView {
    pub connection_opens: Map<LabelSetView, u64>,
    pub connection_close: Map<LabelSetView, u64>,
    pub received_bytes: Map<LabelSetView, u64>,
    pub sent_bytes: Map<LabelSetView, u64>,
    pub on_demand_dns: Map<LabelSetView, u64>,
    pub on_demand_dns_cache_misses: Map<LabelSetView, u64>,
    /// Which families these are.
    pub families: MetricFamilies,
}

/// Which family each of the counters is.
pub struct MetricFamilies {
    pub connection_opens: nat,
    pub connection_close: nat,
    pub received_bytes: nat,
    pub sent_bytes: nat,
    pub on_demand_dns: nat,
    pub on_demand_dns_cache_misses: nat,
}

impl View for Metrics {
    type V = MetricsView;

    open spec fn view(&self) -> MetricsView {
        MetricsView {
            connection_opens: self.connection_opens@,
            connection_close: self.connection_close@,
            received_bytes: self.received_bytes@,
            sent_bytes: self.sent_bytes@,
            on_demand_dns: self.on_demand_dns@,
            on_demand_dns_cache_misses: self.on_demand_dns_cache_misses@,
            families: MetricFamilies {
                connection_opens: family_identity(self.connection_opens),
                connection_close: family_identity(self.connection_close),
                received_bytes: family_identity(self.received_bytes),
                sent_bytes: family_identity(self.sent_bytes),
                on_demand_dns: family_identity(self.on_demand_dns),
                on_demand_dns_cache_misses: family_identity(self.on_demand_dns_cache_misses),
            },
        }
    }
}

impl MetricsView {
    /// Nothing has been counted.
    pub open spec fn zero(families: MetricFamilies) -> MetricsView {
        MetricsView {
            connection_opens: Map::empty(),
            connection_close: Map::empty(),
            received_bytes: Map::empty(),
            sent_bytes: Map::empty(),
            on_demand_dns: Map::empty(),
            on_demand_dns_cache_misses: Map::empty(),
            families,
        }
    }

    /// One more connection was opened under `labels`.
    pub open spec fn opened(self, labels: LabelSetView) -> MetricsView {
        MetricsView { connection_opens: counted(self.connection_opens, labels, 1), ..self }
    }

    /// One more connection was closed under `labels`.
    pub open spec fn closed(self, labels: LabelSetView) -> MetricsView {
        MetricsView { connection_close: counted(self.connection_close, labels, 1), ..self }
    }

    /// `n` more bytes were sent under `labels`.
    pub open spec fn sent(self, labels: LabelSetView, n: u64) -> MetricsView {
        MetricsView { sent_bytes: counted(self.sent_bytes, labels, n), ..self }
    }

    /// `n` more bytes were received under `labels`.
    pub open spec fn received(self, labels: LabelSetView, n: u64) -> MetricsView {
        MetricsView { received_bytes: counted(self.received_bytes, labels, n), ..self }
    }

    /// One more request used on-demand DNS under `labels`.
    pub open spec fn resolved(self, labels: LabelSetView) -> MetricsView {
        MetricsView { on_demand_dns: counted(self.on_demand_dns, labels, 1), ..self }
    }

    /// One more such request missed the cache under `labels`.
    pub open spec fn missed(self, labels: LabelSetView) -> MetricsView {
        MetricsView {
            on_demand_dns_cache_misses: counted(self.on_demand_dns_cache_misses, labels, 1),
            ..self
        }
    }
}

/// The metrics that the proxy registers, in order: name, help text and family of each.
pub open spec fn proxy_metrics(families: MetricFamilies) -> Seq<MetricView> {
    seq![
        (
            "tcp_connections_opened"@,
            "The total number of TCP connections opened"@ + "."@,
            families.connection_opens,
        ),
        (
            "tcp_connections_closed"@,
            "The total number of TCP connections closed"@ + "."@,
            families.connection_close,
        ),
        (
            "tcp_received_bytes"@,
            "The size of total bytes received during request in case of a TCP connection"@
                + "."@,
            families.received_bytes,
        ),
        (
            "tcp_sent_bytes"@,
            "The size of total bytes sent during response in case of a TCP connection"@ + "."@,
            families.sent_bytes,
        ),
        (
            "on_demand_dns"@,
            "The total number of requests that used on-demand DNS (unstable)"@ + "."@,
            families.on_demand_dns,
        ),
        (
            "on_demand_dns_cache_misses"@,
            "The total number of cache misses for requests on-demand DNS (unstable)"@ + "."@,
            families.on_demand_dns_cache_misses,
        ),
    ]
}

/// Something that the metrics count.
pub trait MetricEvent {
    /// The counts after the event was counted.
    spec fn recorded(&self, before: MetricsView) -> MetricsView;

    /// Counts the event.
    fn increment_in(&self, metrics: &mut Metrics)
        ensures
            final(metrics)@ == self.recorded(old(metrics)@),
    ;
}

impl MetricEvent for ConnectionOpen {
    open spec fn recorded(&self, before: MetricsView) -> MetricsView {
        before.opened(TrafficView::of_connection(*self).labels())
    }

    fn increment_in(&self, metrics: &mut Metrics) {
        let labels = CommonTrafficLabels::of_connection(self).encode();
        metrics.connection_opens.inc_by(&labels, 1);
    }
}

/// A connection that was closed.
pub struct ConnectionClose {
    pub labels: CommonTrafficLabels,
}

impl MetricEvent for ConnectionClose {
    open spec fn recorded(&self, before: MetricsView) -> MetricsView {
        before.closed(self.labels@.labels())
    }

    fn increment_in(&self, metrics: &mut Metrics) {
        metrics.connection_close.inc_by(&self.labels.encode(), 1);
    }
}

/// A request that used on-demand DNS.
impl MetricEvent for OnDemandDnsLabels {
    open spec fn recorded(&self, before: MetricsView) -> MetricsView {
        before.resolved(self@.labels())
    }

    fn increment_in(&self, metrics: &mut Metrics) {
        metrics.on_demand_dns.inc_by(&self.encode(), 1);
    }
}

/// A request that used on-demand DNS and did not find the name in the cache.
pub struct OnDemandDnsCacheMiss {
    pub labels: OnDemandDnsLabels,
}

impl MetricEvent for OnDemandDnsCacheMiss {
    open spec fn recorded(&self, before: MetricsView) -> MetricsView {
        before.missed(self.labels@.labels())
    }

    fn increment_in(&self, metrics: &mut Metrics) {
        metrics.on_demand_dns_cache_misses.inc_by(&self.labels.encode(), 1);
    }
}

impl<'a> From<&'a ConnectionOpen> for ConnectionClose {
    fn from(c: &'a ConnectionOpen) -> (r: Self)
        ensures
            r.labels@ == TrafficView::of_connection(*c),
    {
        ConnectionClose { labels: CommonTrafficLabels::of_connection(c) }
    }
}

impl<'a> vstd::std_specs::convert::FromSpecImpl<&'a ConnectionOpen> for ConnectionClose {
    /// The contract of `from` speaks of what the labels say, not of how they are held.
    open spec fn obeys_from_spec() -> bool {
        false
    }

    open spec fn from_spec(c: &'a ConnectionOpen) -> Self {
        choose|r: Self| r.labels@ == TrafficView::of_connection(*c)
    }
}

/// An event that is still to be counted.
#[must_use]
pub struct Deferred<M> {
    pub event: M,
}

impl<M: MetricEvent> Deferred<M> {
    /// Counts the event.
    pub fn record(self, metrics: &mut Metrics)
        ensures
            final(metrics)@ == self.event.recorded(old(metrics)@),
    {
        self.event.increment_in(metrics);
    }
}

impl Metrics {
    /// Counters at zero, each exported from `registry` under its own name.
    pub fn new(registry: &mut Registry) -> (m: Metrics)
        ensures
            m@ == MetricsView::zero(m@.families),
            registered(*final(registry)) == registered(*old(registry)) + proxy_metrics(
                m@.families,
            ),
    {
        let ghost before = registered(*registry);
        let connection_opens = CounterFamily::new();
        connection_opens.register(
            registry,
            "tcp_connections_opened",
            "The total number of TCP connections opened",
        );
        let connection_close = CounterFamily::new();
        connection_close.register(
            registry,
            "tcp_connections_closed",
            "The total number of TCP connections closed",
        );
        let received_bytes = CounterFamily::new();
        received_bytes.register(
            registry,
            "tcp_received_bytes",
            "The size of total bytes received during request in case of a TCP connection",
        );
        let sent_bytes = CounterFamily::new();
        sent_bytes.register(
            registry,
            "tcp_sent_bytes",
            "The size of total bytes sent during response in case of a TCP connection",
        );
        let on_demand_dns = CounterFamily::new();
        on_demand_dns.register(
            registry,
            "on_demand_dns",
            "The total number of requests that used on-demand DNS (unstable)",
        );
        let on_demand_dns_cache_misses = CounterFamily::new();
        on_demand_dns_cache_misses.register(
            registry,
            "on_demand_dns_cache_misses",
            "The total number of cache misses for requests on-demand DNS (unstable)",
        );
        let m = Metrics {
            connection_opens,
            connection_close,
            received_bytes,
            sent_bytes,
            on_demand_dns,
            on_demand_dns_cache_misses,
        };
        assert(registered(*registry) =~= before + proxy_metrics(m@.families));
        assert(m@ =~= MetricsView::zero(m@.families));
        m
    }

    /// Counts `event` now, and gives back the event that follows from it, to be counted
    /// later.
    pub fn increment_defer<'a, M1, M2>(&mut self, event: &'a M1) -> (later: Deferred<M2>) where
        M1: MetricEvent,
        M2: MetricEvent + From<&'a M1>,

        ensures
            final(self)@ == event.recorded(old(self)@),
            call_ensures(<M2 as From<&'a M1>>::from, (event,), later.event),
    {
        event.increment_in(self);
        Deferred { event: M2::from(event) }
    }
}

/// How much a log entry matters.
#[derive(Clone, Copy, Debug, PartialEq, Eq, Structural)]
pub enum Level {
    Debug,
    Info,
    Warn,
    Error,
}

/// A connection that was denied before enough was known of it for a full account.
#[derive(Debug)]
pub struct EarlyDeny<E> {
    pub level: Level,
    pub src_addr: SocketAddr,
    pub dst_addr: SocketAddr,
    pub direction: String,
    pub error: E,
    pub message: String,
}

/// The log entry for a connection that was denied before enough was known of it.
pub fn log_early_deny<E>(
    src: SocketAddr,
    dst: SocketAddr,
    reporter: Reporter,
    err: E,
) -> (entry: EarlyDeny<E>)
    ensures
        entry.level == Level::Warn,
        entry.src_addr == src,
        entry.dst_addr == dst,
        entry.direction@ == reporter.direction_spec(),
        entry.error == err,
        entry.message@ == "connection failed"@,
{
    EarlyDeny {
        level: Level::Warn,
        src_addr: src,
        dst_addr: dst,
        direction: reporter.direction(),
        error: err,
        message: "connection failed".to_owned(),
    }
}

/// What the access log tells of a connection at any time.
#[derive(Debug)]
pub struct AccessLog {
    pub level: Level,
    pub src_addr: SocketAddr,
    pub src_workload: Option<String>,
    pub src_namespace: Option<String>,
    pub src_identity: Option<String>,
    pub dst_addr: SocketAddr,
    pub dst_hbone_addr: Option<SocketAddr>,
    pub dst_workload: Option<String>,
    pub dst_namespace: Option<String>,
    pub dst_identity: Option<String>,
    pub direction: String,
    pub message: String,
}

/// What an [`AccessLog`] entry says.
#[verifier::ext_equal]
pub struct AccessView {
    pub level: Level,
    pub src_addr: SocketAddr,
    pub src_workload: Option<Seq<char>>,
    pub src_namespace: Option<Seq<char>>,
    pub src_identity: Option<Seq<char>>,
    pub dst_addr: SocketAddr,
    pub dst_hbone_addr: Option<SocketAddr>,
    pub dst_workload: Option<Seq<char>>,
    pub dst_namespace: Option<Seq<char>>,
    pub dst_identity: Option<Seq<char>>,
    pub direction: Seq<char>,
    pub message: Seq<char>,
}

impl View for AccessLog {
    type V = AccessView;

    open spec fn view(&self) -> AccessView {
        AccessView {
            level: self.level,
            src_addr: self.src_addr,
            src_workload: text_view(self.src_workload),
            src_namespace: text_view(self.src_namespace),
            src_identity: text_view(self.src_identity),
            dst_addr: self.dst_addr,
            dst_hbone_addr: self.dst_hbone_addr,
            dst_workload: text_view(self.dst_workload),
            dst_namespace: text_view(self.dst_namespace),
            dst_identity: text_view(self.dst_identity),
            direction: self.direction@,
            message: self.message@,
        }
    }
}

/// What the access log tells of a connection that is over.
#[derive(Debug)]
pub struct CompletionLog {
    pub connection: AccessLog,
    pub dst_service: Option<String>,
    pub bytes_sent: u64,
    pub bytes_recv: u64,
    pub duration: String,
    pub error: Option<String>,
}

/// What a [`CompletionLog`] entry says.
#[verifier::ext_equal]
pub struct CompletionView {
    pub connection: AccessView,
    pub dst_service: Option<Seq<char>>,
    pub bytes_sent: u64,
    pub bytes_recv: u64,
    pub duration: Seq<char>,
    pub error: Option<Seq<char>>,
}

impl View for CompletionLog {
    type V = CompletionView;

    open spec fn view(&self) -> CompletionView {
        CompletionView {
            connection: self.connection@,
            dst_service: text_view(self.dst_service),
            bytes_sent: self.bytes_sent,
            bytes_recv: self.bytes_recv,
            duration: self.duration@,
            error: text_view(self.error),
        }
    }
}

/// A connection under way: what it is counted under, and what it has carried. Instants are
/// nanoseconds since a fixed origin.
pub struct ConnectionResult {
    src: (SocketAddr, Option<String>),
    dst: (SocketAddr, Option<String>),
    hbone_target: Option<SocketAddr>,
    start: u128,
    tl: CommonTrafficLabels,
    /// The labels that bytes are counted under, taken when the connection opened.
    byte_labels: LabelSet,
    sent: u64,
    recv: u64,
}

/// What a [`ConnectionResult`] says.
#[verifier::ext_equal]
pub struct ConnectionView {
    pub src: SocketAddr,
    pub src_name: Option<Seq<char>>,
    pub dst: SocketAddr,
    pub dst_name: Option<Seq<char>>,
    pub hbone_target: Option<SocketAddr>,
    pub start: u128,
    pub labels: TrafficView,
    pub byte_labels: LabelSetView,
    pub sent: u64,
    pub recv: u64,
}

impl View for ConnectionResult {
    type V = ConnectionView;

    closed spec fn view(&self) -> ConnectionView {
        ConnectionView {
            src: self.src.0,
            src_name: text_view(self.src.1),
            dst: self.dst.0,
            dst_name: text_view(self.dst.1),
            hbone_target: self.hbone_target,
            start: self.start,
            labels: self.tl@,
            byte_labels: label_views(self.byte_labels@),
            sent: self.sent,
            recv: self.recv,
        }
    }
}

/// The name of one end: that of the workload, or else the canonical service.
pub open spec fn peer_name(w: Option<WorkloadView>, labels: PeerView) -> Option<Seq<char>> {
    match w {
        Some(w) => Some(w.name),
        None => labels.canonical_service,
    }
}

/// The identity that is logged: only one that mutual TLS vouches for.
pub open spec fn vouched_identity(labels: TrafficView, peer: PeerView) -> Option<Seq<char>> {
    if labels.connection_security_policy == SecurityPolicy::mutual_tls {
        principal_text(peer.principal)
    } else {
        None
    }
}

impl ConnectionView {
    /// A connection that was just opened.
    pub open spec fn opened(
        src: SocketAddr,
        dst: SocketAddr,
        hbone_target: Option<SocketAddr>,
        start: u128,
        conn: ConnectionOpen,
    ) -> ConnectionView {
        let labels = TrafficView::of_connection(conn);
        ConnectionView {
            src,
            src_name: peer_name(workload_view(conn.source), labels.source),
            dst,
            dst_name: peer_name(workload_view(conn.destination), labels.destination),
            hbone_target,
            start,
            labels,
            byte_labels: labels.labels(),
            sent: 0,
            recv: 0,
        }
    }

    /// What the access log tells of the connection.
    pub open spec fn access(self, level: Level, message: Seq<char>) -> AccessView {
        AccessView {
            level,
            src_addr: self.src,
            src_workload: self.src_name,
            src_namespace: self.labels.source.workload_namespace,
            src_identity: vouched_identity(self.labels, self.labels.source),
            dst_addr: self.dst,
            dst_hbone_addr: self.hbone_target,
            dst_workload: self.dst_name,
            dst_namespace: self.labels.destination.canonical_service,
            dst_identity: vouched_identity(self.labels, self.labels.destination),
            direction: self.labels.reporter.direction_spec(),
            message,
        }
    }

    /// How many whole milliseconds the connection has lasted at `now`.
    pub open spec fn millis(self, now: u128) -> nat {
        if now > self.start {
            ((now - self.start) / 1_000_000) as nat
        } else {
            0
        }
    }

    /// What the access log tells at `now` of the connection, which ended with `error`. What
    /// the counters call sent is received from the point of view of the source, and the
    /// other way round.
    pub open spec fn completion(self, now: u128, error: Option<Seq<char>>) -> CompletionView {
        CompletionView {
            connection: self.access(
                if error is Some {
                    Level::Error
                } else {
                    Level::Info
                },
                "connection complete"@,
            ),
            dst_service: self.labels.destination_service,
            bytes_sent: if self.labels.reporter == Reporter::source {
                self.recv
            } else {
                self.sent
            },
            bytes_recv: if self.labels.reporter == Reporter::source {
                self.sent
            } else {
                self.recv
            },
            duration: decimal(self.millis(now)) + "ms"@,
            error,
        }
    }
}

/// The error that a connection ended with, as text.
pub open spec fn error_view(res: Result<(), String>) -> Option<Seq<char>> {
    match res {
        Ok(_) => None,
        Err(e) => Some(e@),
    }
}

/// The name of one end: that of the workload, or else the fallback.
fn name_or(w: &Option<Workload>, fallback: Option<String>) -> (r: Option<String>)
    ensures
        text_view(r) == match workload_view(*w) {
            Some(w) => Some(w.name),
            None => text_view(fallback),
        },
{
    match w {
        Some(w) => Some(w.name.clone()),
        None => fallback,
    }
}

impl ConnectionResult {
    /// Counts a connection as opened and gives its account and the log entry of its opening.
    /// `hbone_target` is the inner address where the connection is a tunnel.
    pub fn new(
        src: SocketAddr,
        dst: SocketAddr,
        hbone_target: Option<SocketAddr>,
        start: u128,
        conn: ConnectionOpen,
        metrics: &mut Metrics,
    ) -> (r: (ConnectionResult, AccessLog))
        ensures
            r.0@ == ConnectionView::opened(src, dst, hbone_target, start, conn),
            r.1@ == r.0@.access(Level::Debug, "connection opened"@),
            r.1.src_addr == src,
            r.1.dst_addr == dst,
            r.1.dst_hbone_addr == hbone_target,
            final(metrics)@ == old(metrics)@.opened(r.0@.byte_labels).sent(
                r.0@.byte_labels,
                0,
            ).received(r.0@.byte_labels, 0),
    {
        let tl = CommonTrafficLabels::of_connection(&conn);
        let labels = tl.encode();
        metrics.connection_opens.inc_by(&labels, 1);
        // The byte counters exist from the start.
        metrics.sent_bytes.inc_by(&labels, 0);
        metrics.received_bytes.inc_by(&labels, 0);
        let src_name = name_or(&conn.source, tl.source().canonical_service());
        let dst_name = name_or(&conn.destination, tl.destination().canonical_service());
        let result = ConnectionResult {
            src: (src, src_name),
            dst: (dst, dst_name),
            hbone_target,
            start,
            tl,
            byte_labels: labels,
            sent: 0,
            recv: 0,
        };
        let log = result.access(Level::Debug, "connection opened");
        (result, log)
    }

    /// What the access log tells of the connection.
    fn access(&self, level: Level, message: &str) -> (log: AccessLog)
        ensures
            log@ == self@.access(level, message@),
            log.src_addr == self@.src,
            log.dst_addr == self@.dst,
    {
        let mtls = self.tl.is_mtls();
        AccessLog {
            level,
            src_addr: self.src.0,
            src_workload: clone_text(&self.src.1),
            src_namespace: self.tl.source().workload_namespace(),
            src_identity: if mtls {
                self.tl.source().principal()
            } else {
                None
            },
            dst_addr: self.dst.0,
            dst_hbone_addr: self.hbone_target,
            dst_workload: clone_text(&self.dst.1),
            dst_namespace: self.tl.destination().canonical_service(),
            dst_identity: if mtls {
                self.tl.destination().principal()
            } else {
                None
            },
            direction: self.tl.reporter().direction(),
            message: message.to_owned(),
        }
    }

    /// Counts bytes that were sent.
    pub fn increment_send(&mut self, res: u64, metrics: &mut Metrics)
        ensures
            final(self)@ == (ConnectionView {
                sent: old(self)@.sent.wrapping_add(res),
                ..old(self)@
            }),
            final(metrics)@ == old(metrics)@.sent(old(self)@.byte_labels, res),
    {
        self.sent = self.sent.wrapping_add(res);
        metrics.sent_bytes.inc_by(&self.byte_labels, res);
    }

    /// Counts bytes that were received.
    pub fn increment_recv(&mut self, res: u64, metrics: &mut Metrics)
        ensures
            final(self)@ == (ConnectionView {
                recv: old(self)@.recv.wrapping_add(res),
                ..old(self)@
            }),
            final(metrics)@ == old(metrics)@.received(old(self)@.byte_labels, res),
    {
        self.recv = self.recv.wrapping_add(res);
        metrics.received_bytes.inc_by(&self.byte_labels, res);
    }

    /// Counts the connection as closed with `flag` and gives the log entry of its end.
    pub fn record_with_flag(
        self,
        res: Result<(), String>,
        flag: ResponseFlags,
        now: u128,
        metrics: &mut Metrics,
    ) -> (log: CompletionLog)
        ensures
            ({
                let flagged = ConnectionView {
                    labels: TrafficView { response_flags: flag, ..self@.labels },
                    ..self@
                };
                &&& log@ == flagged.completion(now, error_view(res))
                &&& log.connection.src_addr == self@.src
                &&& log.connection.dst_addr == self@.dst
                &&& final(metrics)@ == old(metrics)@.closed(flagged.labels.labels())
            }),
    {
        let flagged = ConnectionResult { tl: self.tl.with_flags(flag), ..self };
        flagged.record(res, now, metrics)
    }

    /// Counts the connection as closed and gives the log entry of its end.
    pub fn record(&self, res: Result<(), String>, now: u128, metrics: &mut Metrics) -> (log:
        CompletionLog)
        ensures
            log@ == self@.completion(now, error_view(res)),
            log.connection.src_addr == self@.src,
            log.connection.dst_addr == self@.dst,
            final(metrics)@ == old(metrics)@.closed(self@.labels.labels()),
    {
        metrics.connection_close.inc_by(&self.tl.encode(), 1);
        let error = match res {
            Ok(_) => None,
            Err(e) => Some(e),
        };
        let level = if error.is_some() {
            Level::Error
        } else {
            Level::Info
        };
        let from_source = self.tl.reporter() == Reporter::source;
        let elapsed: u128 = now.saturating_sub(self.start);
        CompletionLog {
            connection: self.access(level, "connection complete"),
            dst_service: self.tl.destination_service(),
            bytes_sent: if from_source {
                self.recv
            } else {
                self.sent
            },
            bytes_recv: if from_source {
                self.sent
            } else {
                self.recv
            },
            duration: decimal_text(elapsed / 1_000_000).concat("ms"),
            error,
        }
    }
}

} // verus!
