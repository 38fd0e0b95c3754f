//! What each step of an inbound plaintext connection leads to, told by its inputs.

use vstd::prelude::*;

use crate::config::Config;
use crate::identity::IdentityView;
use crate::net::{IpAddr, SocketAddr};
use crate::proxy::counters::{count_of, LabelSetView};
use crate::proxy::error::Error;
use crate::proxy::inbound_passthrough::{
    denied, denies, is_address, AcceptState, Action, InboundPassthrough, Phase, PhaseView,
    PlaintextConnection, PlaintextView,
};
use crate::proxy::labels::{PeerView, Reporter, RequestProtocol, ResponseFlags, SecurityPolicy};
use crate::proxy::metrics::{ConnectionView, Level, MetricsView};
use crate::workload::{NetworkAddress, ServiceView, WorkloadView};

verus! {

/// A connection says what its fields hold.
pub proof fn connections_say_what_they_hold(conn: PlaintextConnection)
    ensures
        conn@.source == conn.source,
        conn@.dest == conn.dest,
        conn@.start == conn.start,
        conn@.enable_orig_src == conn.enable_orig_src,
        conn@.network == conn.network@,
        conn.phase is Upstream <==> conn@.phase is Upstream,
        conn.phase is Source <==> conn@.phase is Source,
        conn.phase is Authorize <==> conn@.phase is Authorize,
        conn.phase is Relay <==> conn@.phase is Relay,
        conn.phase is Closed <==> conn@.phase is Closed,
        conn.phase matches Phase::Source { upstream } ==> conn@.phase->Source_upstream
            == upstream@,
        conn.phase matches Phase::Authorize { tracker } ==> conn@.phase->Authorize_tracker
            == tracker@,
        conn.phase matches Phase::Relay { tracker } ==> conn@.phase->Relay_tracker == tracker@,
{
}

/// A connection that came in is as it came in; it is over at once inside a pod where its port
/// is off limits, and on a shared proxy outside a pod where it is for the proxy's own
/// address, and nowhere else.
pub proof fn how_connections_begin(
    cfg: Config,
    source: SocketAddr,
    dest: SocketAddr,
    start: u128,
    enable_orig_src: bool,
)
    ensures
        ({
            let c = PlaintextView::begun(cfg, source, dest, start, enable_orig_src);
            let off_limits = exists|i: int|
                0 <= i < cfg.illegal_ports@.len() && #[trigger] cfg.illegal_ports@[i] == dest.port;
            let refused = (cfg.inpod_enabled && off_limits) || (!cfg.inpod_enabled
                && cfg.proxy_mode == crate::config::ProxyMode::Shared && cfg.local_ip is Some
                && cfg.local_ip->0 == dest.ip);
            &&& c.source == source
            &&& c.dest == dest
            &&& c.start == start
            &&& c.enable_orig_src == enable_orig_src
            &&& c.network == cfg.network@
            &&& c.phase is Closed <==> refused
            &&& c.phase is Upstream <==> !refused
            &&& cfg.illegal_call(dest) <==> refused
        }),
{
    if cfg.illegal_ports@.contains(dest.port) {
        let i = cfg.illegal_ports@.index_of(dest.port);
        assert(cfg.illegal_ports@[i] == dest.port);
    }
}

/// An entry that denies a connection tells its ends, that it came in, and why.
pub proof fn what_denials_tell(action: Action, conn: PlaintextView, error: Error)
    ensures
        denies(action, conn, error) ==> action is Deny && {
            let entry = action->Deny_0;
            &&& entry.level == Level::Warn
            &&& entry.src_addr == conn.source
            &&& entry.dst_addr == conn.dest
            &&& entry.direction@ == "inbound"@
            &&& entry.error == error
            &&& entry.message@ == "connection failed"@
        },
{
}

/// Which address is looked up.
pub proof fn what_addresses_are(a: NetworkAddress, network: Seq<char>, ip: IpAddr)
    ensures
        is_address(a, network, ip) <==> a.network@ == network && a.address == ip,
{
}

/// With the workload at its destination a connection goes on; without one it is over. Its
/// ends stay as they are.
pub proof fn destinations_decide(conn: PlaintextView, w: WorkloadView)
    requires
        conn.phase is Upstream,
    ensures
        conn.after_upstream(Some(w)) == (PlaintextView {
            phase: PhaseView::Source { upstream: w },
            ..conn
        }),
        conn.after_upstream(None) == (PlaintextView { phase: PhaseView::Closed, ..conn }),
{
}

/// The account of a connection has its ends, its beginning and its labels: the eight of its
/// source are those of the workload found there, and unknown where none was found; the eight
/// of its destination are those of the workload there; the destination reports it, and
/// nothing secures it.
pub proof fn accounts_are_of_the_workloads_found(
    conn: PlaintextView,
    upstream: WorkloadView,
    found: Option<WorkloadView>,
    service: Option<ServiceView>,
)
    requires
        conn.phase == (PhaseView::Source { upstream }),
    ensures
        ({
            let after = conn.after_source(found, service);
            let t = after.phase->Authorize_tracker;
            &&& after == (PlaintextView { phase: PhaseView::Authorize { tracker: t }, ..conn })
            &&& t.src == conn.source
            &&& t.dst == conn.dest
            &&& t.hbone_target is None
            &&& t.start == conn.start
            &&& t.sent == 0
            &&& t.recv == 0
            &&& t.byte_labels == t.labels.labels()
            &&& t.labels.reporter == Reporter::destination
            &&& t.labels.connection_security_policy == SecurityPolicy::unknown
            &&& t.labels.request_protocol == RequestProtocol::tcp
            &&& t.labels.response_flags == ResponseFlags::NoFlag
            &&& found matches Some(w) ==> t.labels.source == (PeerView {
                workload: if w.workload_name.len() == 0 {
                    None
                } else {
                    Some(w.workload_name)
                },
                canonical_service: if w.canonical_name.len() == 0 {
                    None
                } else {
                    Some(w.canonical_name)
                },
                canonical_revision: if w.canonical_revision.len() == 0 {
                    None
                } else {
                    Some(w.canonical_revision)
                },
                workload_namespace: if w.namespace.len() == 0 {
                    None
                } else {
                    Some(w.namespace)
                },
                principal: Some(
                    IdentityView {
                        trust_domain: w.trust_domain,
                        namespace: w.namespace,
                        service_account: w.service_account,
                    },
                ),
                app: if w.canonical_name.len() == 0 {
                    None
                } else {
                    Some(w.canonical_name)
                },
                version: if w.canonical_revision.len() == 0 {
                    None
                } else {
                    Some(w.canonical_revision)
                },
                cluster: if w.cluster_id.len() == 0 {
                    None
                } else {
                    Some(w.cluster_id)
                },
            })
            &&& found is None ==> t.labels.source.workload is None
                && t.labels.source.canonical_service is None
                && t.labels.source.canonical_revision is None
                && t.labels.source.workload_namespace is None && t.labels.source.principal is None
                && t.labels.source.app is None && t.labels.source.version is None
                && t.labels.source.cluster is None
            &&& t.labels.destination == (PeerView {
                workload: if upstream.workload_name.len() == 0 {
                    None
                } else {
                    Some(upstream.workload_name)
                },
                canonical_service: if upstream.canonical_name.len() == 0 {
                    None
                } else {
                    Some(upstream.canonical_name)
                },
                canonical_revision: if upstream.canonical_revision.len() == 0 {
                    None
                } else {
                    Some(upstream.canonical_revision)
                },
                workload_namespace: if upstream.namespace.len() == 0 {
                    None
                } else {
                    Some(upstream.namespace)
                },
                principal: Some(
                    IdentityView {
                        trust_domain: upstream.trust_domain,
                        namespace: upstream.namespace,
                        service_account: upstream.service_account,
                    },
                ),
                app: if upstream.canonical_name.len() == 0 {
                    None
                } else {
                    Some(upstream.canonical_name)
                },
                version: if upstream.canonical_revision.len() == 0 {
                    None
                } else {
                    Some(upstream.canonical_revision)
                },
                cluster: if upstream.cluster_id.len() == 0 {
                    None
                } else {
                    Some(upstream.cluster_id)
                },
            })
            &&& service matches Some(s) ==> {
                &&& t.labels.destination_service is Some == (s.hostname.len() > 0)
                &&& s.hostname.len() > 0 ==> t.labels.destination_service->0 == s.hostname
                &&& t.labels.destination_service_name is Some == (s.name.len() > 0)
                &&& s.name.len() > 0 ==> t.labels.destination_service_name->0 == s.name
                &&& t.labels.destination_service_namespace is Some == (s.namespace.len() > 0)
                &&& s.namespace.len() > 0 ==> t.labels.destination_service_namespace->0
                    == s.namespace
            }
            &&& service is None ==> t.labels.destination_service is None
                && t.labels.destination_service_name is None
                && t.labels.destination_service_namespace is None
        }),
{
}

/// The log names the workload found at the source, with its namespace, and no source where
/// none was found; it names the workload at the destination, and no identity of either.
pub proof fn the_workloads_found_are_logged(
    conn: PlaintextView,
    upstream: WorkloadView,
    found: Option<WorkloadView>,
    service: Option<ServiceView>,
    level: Level,
    message: Seq<char>,
)
    requires
        conn.phase == (PhaseView::Source { upstream }),
    ensures
        ({
            let log = conn.after_source(found, service).phase->Authorize_tracker.access(
                level,
                message,
            );
            &&& log.src_addr == conn.source
            &&& log.dst_addr == conn.dest
            &&& found matches Some(w) ==> log.src_workload == Some(w.name)
            &&& found matches Some(w) ==> log.src_namespace == if w.namespace.len() == 0 {
                None::<Seq<char>>
            } else {
                Some(w.namespace)
            }
            &&& found is None ==> log.src_workload is None && log.src_namespace is None
            &&& log.dst_workload == Some(upstream.name)
            &&& log.src_identity is None
            &&& log.dst_identity is None
            &&& log.direction == "inbound"@
        }),
{
}

/// Two connections that differ in the workload found at their source alone are counted apart
/// wherever the two workloads differ in anything that a label tells.
pub proof fn sources_are_counted_apart(
    conn: PlaintextView,
    upstream: WorkloadView,
    a: WorkloadView,
    b: WorkloadView,
    service: Option<ServiceView>,
)
    requires
        conn.phase == (PhaseView::Source { upstream }),
        a.workload_name != b.workload_name || a.canonical_name != b.canonical_name
            || a.canonical_revision != b.canonical_revision || a.namespace != b.namespace
            || a.service_account != b.service_account || a.trust_domain != b.trust_domain
            || a.cluster_id != b.cluster_id,
    ensures
        conn.after_source(Some(a), service).phase->Authorize_tracker.byte_labels
            != conn.after_source(Some(b), service).phase->Authorize_tracker.byte_labels,
{
    let x = conn.after_source(Some(a), service).phase->Authorize_tracker.labels;
    let y = conn.after_source(Some(b), service).phase->Authorize_tracker.labels;
    crate::proxy::metrics_laws::labels_are_told_apart(x, y);
    if x == y {
        assert(a.workload_name =~= b.workload_name);
        assert(a.canonical_name =~= b.canonical_name);
        assert(a.canonical_revision =~= b.canonical_revision);
        assert(a.cluster_id =~= b.cluster_id);
    }
}

/// A connection whose ends are known is counted as opened once, under the labels of its
/// account, where its bytes are counted from zero; nothing else is counted.
pub proof fn openings_are_counted(
    conn: PlaintextView,
    upstream: WorkloadView,
    found: Option<WorkloadView>,
    service: Option<ServiceView>,
    m: MetricsView,
    other: LabelSetView,
)
    requires
        conn.phase == (PhaseView::Source { upstream }),
    ensures
        ({
            let labels = conn.after_source(found, service).phase->Authorize_tracker.byte_labels;
            let after = conn.counted_source(found, service, m);
            &&& count_of(after.connection_opens, labels) == count_of(
                m.connection_opens,
                labels,
            ).wrapping_add(1)
            &&& other != labels ==> count_of(after.connection_opens, other) == count_of(
                m.connection_opens,
                other,
            )
            &&& after.sent_bytes.contains_key(labels)
            &&& count_of(after.sent_bytes, other) == count_of(m.sent_bytes, other)
            &&& after.received_bytes.contains_key(labels)
            &&& count_of(after.received_bytes, other) == count_of(m.received_bytes, other)
            &&& after.connection_close == m.connection_close
            &&& after.on_demand_dns == m.on_demand_dns
            &&& after.on_demand_dns_cache_misses == m.on_demand_dns_cache_misses
            &&& after.families == m.families
        }),
{
}

/// The access rules decide: a connection that they allow is passed on, with its account as it
/// was, and nothing is counted; one that they refuse is over, and is counted as closed under
/// its labels with the mark of a denial.
pub proof fn access_rules_decide(conn: PlaintextView, tracker: ConnectionView, m: MetricsView)
    requires
        conn.phase == (PhaseView::Authorize { tracker }),
    ensures
        conn.after_verdict(true) == (PlaintextView { phase: PhaseView::Relay { tracker }, ..conn }),
        conn.after_verdict(false) == (PlaintextView { phase: PhaseView::Closed, ..conn }),
        conn.counted_verdict(true, m) == m,
        conn.counted_verdict(false, m) == m.closed(denied(tracker).labels.labels()),
        denied(tracker).labels.response_flags == ResponseFlags::AuthorizationPolicyDenied,
        denied(tracker).labels.source == tracker.labels.source,
        denied(tracker).labels.destination == tracker.labels.destination,
        denied(tracker).labels.destination_service == tracker.labels.destination_service,
        denied(tracker).labels.destination_service_name
            == tracker.labels.destination_service_name,
        denied(tracker).labels.destination_service_namespace
            == tracker.labels.destination_service_namespace,
        denied(tracker).labels.reporter == tracker.labels.reporter,
        denied(tracker).labels.request_protocol == tracker.labels.request_protocol,
        denied(tracker).labels.connection_security_policy
            == tracker.labels.connection_security_policy,
        denied(tracker) == (ConnectionView { labels: denied(tracker).labels, ..tracker }),
{
}

/// Bytes that are passed on grow the account of the connection by as many, each way apart,
/// and change nothing else of it.
pub proof fn bytes_are_accounted_for(
    conn: PlaintextView,
    tracker: ConnectionView,
    sent: u64,
    recv: u64,
)
    requires
        conn.phase == (PhaseView::Relay { tracker }),
    ensures
        ({
            let after = conn.after_bytes(sent, recv);
            let t = after.phase->Relay_tracker;
            &&& after == (PlaintextView { phase: PhaseView::Relay { tracker: t }, ..conn })
            &&& t == (ConnectionView { sent: t.sent, recv: t.recv, ..tracker })
            &&& t.sent == (tracker.sent + sent) % 0x1_0000_0000_0000_0000
            &&& t.recv == (tracker.recv + recv) % 0x1_0000_0000_0000_0000
        }),
{
}

/// When passing bytes on ends, the connection is over and counted as closed under the labels
/// of its account.
pub proof fn ends_are_counted(conn: PlaintextView, tracker: ConnectionView, m: MetricsView)
    requires
        conn.phase == (PhaseView::Relay { tracker }),
    ensures
        conn.after_end() == (PlaintextView { phase: PhaseView::Closed, ..conn }),
        conn.counted_end(m) == m.closed(tracker.labels.labels()),
{
}

/// Connections that are taken in and that finish are counted one by one; draining and a
/// shutdown change only whether more are taken in.
pub proof fn how_the_listener_changes(p: InboundPassthrough, elapsed: u128)
    requires
        0 < p.open < u64::MAX,
    ensures
        p.after_accept() == (InboundPassthrough { open: (p.open + 1) as u64, ..p }),
        p.after_accept().open == p.open + 1,
        p.after_done().open == p.open - 1,
        p.after_accept().after_done() == p,
        p.after_done().after_accept() == p,
        p.after_failure(false) == p,
        p.after_failure(true) == (InboundPassthrough { state: AcceptState::Stopped, ..p }),
        p.after_drain() == (InboundPassthrough { state: AcceptState::Draining, ..p }),
        p.after_drained() == (InboundPassthrough { state: AcceptState::Stopped, ..p }),
        p.may_stop(elapsed) <==> p.state == AcceptState::Draining && elapsed >= p.deadline,
{
}

} // verus!
