//! What holds of each call, told by what goes in and what comes out.

use vstd::prelude::*;

use crate::assoc::AssocMap;
use crate::config::{Config, ProxyMode};
use crate::net::SocketAddr;
use crate::proxy::counters::{label_views, LabelSet};
use crate::proxy::error::Error;
use crate::proxy::inbound_passthrough::{Action, InboundPassthrough, PlaintextConnection};
use crate::proxy::label_value::LabelValueView;
use crate::proxy::labels::{CommonTrafficLabels, ConnectionOpen, Reporter, SecurityPolicy};
use crate::proxy::labels_laws::labels_by_name;
use crate::proxy::metrics::{AccessLog, CompletionLog, ConnectionResult, Level, Metrics};
use crate::proxy::out_ip::{tunnel_request, Delivery, OutboundIP, Packet, Request};
use crate::proxy::pool::{check_status, Added, Checkout, ConnectStep, Key, Lease, Pool};
use crate::workload::{ServiceDescription, Workload};

verus! {

/// A request is answered by what the pool holds for its key: it shares a connection with
/// fewer than five requests, or else queues up exactly while fewer than five requests are
/// queued for each connection being established, whatever is pooled.
pub proof fn checkouts_are_answered<C: Clone, W>(
    pool: &mut Pool<C, W>,
    key: Key,
    waiter: W,
    now: u128,
    res: Checkout<C>,
)
    requires
        old(pool).wf(),
        call_ensures(Pool::<C, W>::checkout, (pool, &key, waiter, now), res),
    ensures
        ({
            let queued: nat = if old(pool)@.waiters.contains_key(key@) {
                old(pool)@.waiters[key@].len()
            } else {
                0
            };
            let establishing: nat = if old(pool)@.connecting.contains_key(key@) {
                old(pool)@.connecting[key@] as nat
            } else {
                0
            };
            let full = forall|i: int|
                old(pool)@.pooled.contains_key(key@) && 0 <= i < old(pool)@.pooled[key@].len()
                    ==> (#[trigger] old(pool)@.pooled[key@][i]).active >= 5;
            &&& res is Ready <==> !full
            &&& full && queued < 5 * establishing <==> res is Waiting
            &&& full && queued >= 5 * establishing <==> res is Connect
        }),
{
}

/// The same of the first step towards a stream: send, wait, or dial.
pub proof fn connects_are_answered<C: Clone, W>(
    pool: &mut Pool<C, W>,
    key: Key,
    waiter: W,
    now: u128,
    step: ConnectStep<C>,
)
    requires
        old(pool).wf(),
        call_ensures(Pool::<C, W>::connect, (pool, &key, waiter, now), step),
    ensures
        ({
            let queued: nat = if old(pool)@.waiters.contains_key(key@) {
                old(pool)@.waiters[key@].len()
            } else {
                0
            };
            let establishing: nat = if old(pool)@.connecting.contains_key(key@) {
                old(pool)@.connecting[key@] as nat
            } else {
                0
            };
            let full = forall|i: int|
                old(pool)@.pooled.contains_key(key@) && 0 <= i < old(pool)@.pooled[key@].len()
                    ==> (#[trigger] old(pool)@.pooled[key@][i]).active >= 5;
            &&& step is Send <==> !full
            &&& full && queued < 5 * establishing <==> step is Wait
            &&& full && queued >= 5 * establishing <==> step is Dial
        }),
{
}

/// After a wait, what was handed over is used; where nothing was, a connection is dialed.
pub proof fn waits_are_answered<C: Clone, W>(
    pool: &mut Pool<C, W>,
    key: Key,
    handed: Option<Lease<C>>,
    step: ConnectStep<C>,
)
    requires
        call_ensures(Pool::<C, W>::resume, (pool, &key, handed), step),
    ensures
        handed matches Some(lease) ==> step == ConnectStep::Send(lease),
        handed is None <==> step is Dial,
{
}

/// A connection that was dialed comes with a number that no other had, for its opener and for
/// the first who waited, four at most; a failure is handed on as it is.
pub proof fn dials_are_answered<C: Clone, W, E>(
    pool: &mut Pool<C, W>,
    key: Key,
    outcome: Result<C, E>,
    r: Result<Added<C, W>, E>,
)
    requires
        call_ensures(Pool::<C, W>::dialed::<E>, (pool, &key, outcome), r),
    ensures
        outcome is Ok <==> r is Ok,
        outcome matches Err(e) ==> r == Err::<Added<C, W>, E>(e),
        outcome matches Ok(value) ==> {
            &&& r->Ok_0.lease.value == value
            &&& r->Ok_0.lease.id == old(pool)@.next_id
            &&& r->Ok_0.served@.len() <= 4
            &&& old(pool)@.waiters.contains_key(key@) ==> r->Ok_0.served@.len() == if old(
                pool,
            )@.waiters[key@].len() < 4 {
                old(pool)@.waiters[key@].len()
            } else {
                4
            }
            &&& forall|i: int|
                0 <= i < r->Ok_0.served@.len() ==> (#[trigger] r->Ok_0.served@[i]).0 == old(
                    pool,
                )@.waiters[key@][i] && r->Ok_0.served@[i].1.id == old(pool)@.next_id
        },
{
}

/// Only status 200 opens a stream.
pub proof fn statuses_are_answered(code: u16, r: Result<(), Error>)
    requires
        call_ensures(check_status, (code,), r),
    ensures
        r is Ok <==> code == 200,
        code != 200 ==> r == Err::<(), Error>(Error::HttpStatus(code)),
{
}

/// A tunnel is asked for by the node's own ztunnel, field by field, whichever the peer is, to
/// the peer's first address and with the peer's identity.
pub proof fn tunnels_are_asked_for(me: Workload, peer: Workload, r: Request)
    requires
        peer.workload_ips@.len() > 0,
        call_ensures(tunnel_request, (&me, &peer), r),
    ensures
        r.source.name@ == me.name@,
        r.source.namespace@ == me.namespace@,
        r.source.service_account@ == me.service_account@,
        r.source.trust_domain@ == me.trust_domain@,
        r.source.workload_name@ == me.workload_name@,
        r.source.canonical_name@ == me.canonical_name@,
        r.source.canonical_revision@ == me.canonical_revision@,
        r.source.cluster_id@ == me.cluster_id@,
        r.source.hostname@ == me.hostname@,
        r.source.node@ == me.node@,
        r.source.protocol == me.protocol,
        r.source.workload_ips@ == me.workload_ips@,
        r.source.waypoint_addresses@ == me.waypoint_addresses@,
        r.destination == (SocketAddr { ip: peer.workload_ips@[0], port: 15008 }),
        r.gateway == r.destination,
        r.destination_workload is None,
        r.expected_identity is Some,
        r.expected_identity->0.trust_domain@ == peer.trust_domain@,
        r.expected_identity->0.namespace@ == peer.namespace@,
        r.expected_identity->0.service_account@ == peer.service_account@,
{
    assert(r@.source == me@);
    assert(r@.destination_workload is None);
    assert(r@.expected_identity is Some);
    assert(r.expected_identity->0@ == peer@.identity());
}

/// The labels of a destination are, under their own names, those that the same workload has
/// as a source; and its principal is the identity that the workload runs under.
pub proof fn destinations_are_labelled_like_sources(
    a: CommonTrafficLabels,
    b: CommonTrafficLabels,
    w: Workload,
    as_source: CommonTrafficLabels,
    as_destination: CommonTrafficLabels,
    s: LabelSet,
    d: LabelSet,
)
    requires
        call_ensures(CommonTrafficLabels::with_source, (a, Some(&w)), as_source),
        call_ensures(CommonTrafficLabels::with_destination, (b, Some(&w)), as_destination),
        call_ensures(CommonTrafficLabels::encode, (&as_source,), s),
        call_ensures(CommonTrafficLabels::encode, (&as_destination,), d),
    ensures
        s@.len() == 23,
        d@.len() == 23,
        forall|i: int| 0 <= i < 8 ==> (#[trigger] s@[i + 1]).1@ == d@[i + 12].1@,
        s@[5].0@ == "source_principal"@,
        d@[16].0@ == "destination_principal"@,
        d@[16].1@ is Principal,
        d@[16].1@->Principal_0.trust_domain == w.trust_domain@,
        d@[16].1@->Principal_0.namespace == w.namespace@,
        d@[16].1@->Principal_0.service_account == w.service_account@,
        d@[16].1@.shown() == "spiffe://"@ + w.trust_domain@ + "/ns/"@ + w.namespace@ + "/sa/"@
            + w.service_account@,
        w.workload_name@.len() > 0 ==> d@[12].1@ == LabelValueView::Text(w.workload_name@),
        w.workload_name@.len() == 0 ==> d@[12].1@ == LabelValueView::Missing,
{
    labels_by_name(as_source@);
    labels_by_name(as_destination@);
    let ls = as_source@.labels();
    let ld = as_destination@.labels();
    assert(as_source@.source == as_destination@.destination);
    assert forall|i: int| 0 <= i < 23 implies label_views(s@)[i] == (
        (#[trigger] s@[i]).0@,
        s@[i].1@,
    ) by {}
    assert forall|i: int| 0 <= i < 23 implies label_views(d@)[i] == (
        (#[trigger] d@[i]).0@,
        d@[i].1@,
    ) by {}
    assert(s@[1].1@ == d@[12].1@ && s@[2].1@ == d@[13].1@ && s@[3].1@ == d@[14].1@);
    assert(s@[4].1@ == d@[15].1@ && s@[5].1@ == d@[16].1@ && s@[6].1@ == d@[17].1@);
    assert(s@[7].1@ == d@[18].1@ && s@[8].1@ == d@[19].1@);
    assert forall|i: int| 0 <= i < 8 implies (#[trigger] s@[i + 1]).1@ == d@[i + 12].1@ by {
        assert(i == 0 || i == 1 || i == 2 || i == 3 || i == 4 || i == 5 || i == 6 || i == 7);
    }
}

/// The entry of the opening of a connection and the entry of its end have the addresses that
/// it was opened with, and name the workloads that it was opened with.
pub proof fn connections_are_logged_as_opened(
    src: SocketAddr,
    dst: SocketAddr,
    hbone_target: Option<SocketAddr>,
    start: u128,
    conn: ConnectionOpen,
    metrics: &mut Metrics,
    r: (ConnectionResult, AccessLog),
    res: Result<(), String>,
    now: u128,
    later: &mut Metrics,
    end: CompletionLog,
)
    requires
        call_ensures(ConnectionResult::new, (src, dst, hbone_target, start, conn, metrics), r),
        call_ensures(ConnectionResult::record, (&r.0, res, now, later), end),
    ensures
        r.1.src_addr == src,
        r.1.dst_addr == dst,
        r.1.dst_hbone_addr == hbone_target,
        r.1.level == Level::Debug,
        r.1.message@ == "connection opened"@,
        end.connection.src_addr == src,
        end.connection.dst_addr == dst,
        end.connection.dst_hbone_addr == hbone_target,
        end.connection.message@ == "connection complete"@,
        res is Ok ==> end.connection.level == Level::Info && end.error is None,
        res matches Err(e) ==> end.connection.level == Level::Error && end.error is Some
            && end.error->0@ == e@,
        conn.source matches Some(w) ==> {
            &&& r.1.src_workload is Some && r.1.src_workload->0@ == w.name@
            &&& end.connection.src_workload is Some && end.connection.src_workload->0@ == w.name@
        },
        conn.destination matches Some(w) ==> {
            &&& r.1.dst_workload is Some && r.1.dst_workload->0@ == w.name@
            &&& end.connection.dst_workload is Some && end.connection.dst_workload->0@ == w.name@
        },
        conn.reporter == Reporter::source ==> end.connection.direction@ == "outbound"@,
        conn.reporter == Reporter::destination ==> end.connection.direction@ == "inbound"@,
        conn.connection_security_policy != SecurityPolicy::mutual_tls ==> {
            &&& end.connection.src_identity is None
            &&& end.connection.dst_identity is None
        },
        conn.connection_security_policy == SecurityPolicy::mutual_tls
            && conn.destination is Some ==> {
            let w = conn.destination->0;
            &&& end.connection.dst_identity is Some
            &&& end.connection.dst_identity->0@ == "spiffe://"@ + w.trust_domain@ + "/ns/"@
                + w.namespace@ + "/sa/"@ + w.service_account@
        },
        end.bytes_sent == 0,
        end.bytes_recv == 0,
{
    assert(r.1@ == r.0@.access(Level::Debug, "connection opened"@));
    assert(end@.connection == end.connection@);
    assert(r.1@.src_workload == r.0@.src_name);
    assert(r.1@.dst_workload == r.0@.dst_name);
    assert(end.connection@.src_workload == r.0@.src_name);
    assert(end.connection@.dst_workload == r.0@.dst_name);
    assert(end.connection@.src_identity is Some == end.connection.src_identity is Some);
    assert(end.connection@.dst_identity is Some == end.connection.dst_identity is Some);
    assert(end@.error is Some == end.error is Some);
}

/// A connection that came in is denied or its destination is looked up, on the network of the
/// proxy.
pub proof fn arrivals_are_answered(
    cfg: Config,
    source: SocketAddr,
    dest: SocketAddr,
    start: u128,
    enable_orig_src: bool,
    r: (PlaintextConnection, Action),
)
    requires
        call_ensures(
            PlaintextConnection::begin,
            (&cfg, source, dest, start, enable_orig_src),
            r,
        ),
    ensures
        r.0.source == source,
        r.0.dest == dest,
        r.0.start == start,
        r.0.enable_orig_src == enable_orig_src,
        r.0.network@ == cfg.network@,
        ({
            let refused = if cfg.inpod_enabled {
                cfg.illegal_ports@.contains(dest.port)
            } else {
                cfg.proxy_mode == ProxyMode::Shared && cfg.local_ip == Some(dest.ip)
            };
            &&& refused ==> r.0.phase is Closed && r.1 is Deny && r.1->Deny_0.error
                == Error::SelfCall && r.1->Deny_0.src_addr == source && r.1->Deny_0.dst_addr == dest
                && r.1->Deny_0.direction@ == "inbound"@ && r.1->Deny_0.message@
                == "connection failed"@
            &&& !refused ==> r.0.phase is Upstream && r.1 is FetchUpstream
                && r.1->FetchUpstream_0.network@ == cfg.network@ && r.1->FetchUpstream_0.address
                == dest.ip
        }),
{
}

/// With a workload at its destination the source of a connection is looked up; without one it
/// is denied as for an unknown destination.
pub proof fn destinations_are_answered(
    conn: PlaintextConnection,
    found: Option<Workload>,
    r: (PlaintextConnection, Action),
)
    requires
        conn.phase is Upstream,
        call_ensures(PlaintextConnection::upstream, (conn, found), r),
    ensures
        r.0.source == conn.source,
        r.0.dest == conn.dest,
        r.0.start == conn.start,
        r.0.enable_orig_src == conn.enable_orig_src,
        r.0.network@ == conn.network@,
        found is Some ==> r.0.phase is Source && r.0.phase->Source_upstream@ == found->0@
            && r.1 is FetchSource && r.1->FetchSource_0.network@ == conn.network@
            && r.1->FetchSource_0.address == conn.source.ip,
        found is None ==> r.0.phase is Closed && r.1 is Deny && r.1->Deny_0.error
            == Error::UnknownDestination(conn.dest.ip) && r.1->Deny_0.src_addr == conn.source
            && r.1->Deny_0.dst_addr == conn.dest && r.1->Deny_0.direction@ == "inbound"@,
{
}

/// The access rules are asked about a connection as it came in, and the entry of its opening
/// names the workload found at its source and its namespace, and the workload at its
/// destination.
pub proof fn sources_are_answered(
    conn: PlaintextConnection,
    found: Option<Workload>,
    service: Option<ServiceDescription>,
    metrics: &mut Metrics,
    r: (PlaintextConnection, Action),
)
    requires
        conn.phase is Source,
        call_ensures(PlaintextConnection::source, (conn, found, service, metrics), r),
    ensures
        r.0.source == conn.source,
        r.0.dest == conn.dest,
        r.0.start == conn.start,
        r.0.enable_orig_src == conn.enable_orig_src,
        r.0.network@ == conn.network@,
        r.0.phase is Authorize,
        r.1 is Authorize,
        r.1->rbac.src_identity is None,
        r.1->rbac.src == conn.source,
        r.1->rbac.dst == conn.dest,
        r.1->rbac.dst_network@ == conn.network@,
        r.1->opened.src_addr == conn.source,
        r.1->opened.dst_addr == conn.dest,
        r.1->opened.level == Level::Debug,
        r.1->opened.direction@ == "inbound"@,
        found matches Some(w) ==> {
            &&& r.1->opened.src_workload is Some
            &&& r.1->opened.src_workload->0@ == w.name@
            &&& r.1->opened.src_namespace is Some == (w.namespace@.len() > 0)
            &&& w.namespace@.len() > 0 ==> r.1->opened.src_namespace->0@ == w.namespace@
            &&& r.0.phase->Authorize_tracker@.labels.source.principal is Some
            &&& r.0.phase->Authorize_tracker@.labels.source.principal->0.trust_domain
                == w.trust_domain@
            &&& r.0.phase->Authorize_tracker@.labels.source.principal->0.namespace
                == w.namespace@
            &&& r.0.phase->Authorize_tracker@.labels.source.principal->0.service_account
                == w.service_account@
        },
        found is None ==> r.1->opened.src_workload is None && r.1->opened.src_namespace is None,
        r.1->opened.dst_workload is Some,
        r.1->opened.dst_workload->0@ == conn.phase->Source_upstream.name@,
        r.1->opened.src_identity is None,
        r.1->opened.dst_identity is None,
{
    let opened = r.1->opened;
    assert(r.0@.phase == r.0.phase@);
    assert(r.0.phase@ is Authorize);
    assert(opened@.dst_workload is Some == opened.dst_workload is Some);
    assert(opened@.src_identity is Some == opened.src_identity is Some);
    assert(opened@.dst_identity is Some == opened.dst_identity is Some);
}

/// A connection that is allowed goes to its destination, from the client's address where that
/// is kept; one that is refused ends with the reason.
pub proof fn verdicts_are_answered(
    conn: PlaintextConnection,
    verdict: Result<(), String>,
    now: u128,
    metrics: &mut Metrics,
    r: (PlaintextConnection, Action),
)
    requires
        conn.phase is Authorize,
        call_ensures(PlaintextConnection::authorized, (conn, verdict, now, metrics), r),
    ensures
        r.0.source == conn.source,
        r.0.dest == conn.dest,
        verdict is Ok <==> r.0.phase is Relay,
        verdict is Ok <==> r.1 is Connect,
        verdict is Err <==> r.0.phase is Closed,
        verdict is Err <==> r.1 is Finish,
        verdict is Ok ==> r.1->Connect_dest == conn.dest,
        verdict is Ok && conn.enable_orig_src ==> r.1->orig_src == Some(conn.source.ip),
        verdict is Ok && !conn.enable_orig_src ==> r.1->orig_src is None,
        verdict matches Err(e) ==> {
            &&& r.1->Finish_0.error is Some
            &&& r.1->Finish_0.error->0@ == e@
            &&& r.1->Finish_0.connection.level == Level::Error
        },
{
    if let Err(e) = verdict {
        let log = r.1->Finish_0;
        assert(log@.error == Some(e@));
        assert(log@.error is Some == log.error is Some);
        assert(log@.connection == log.connection@);
    }
}

/// A listener that could not be bound, or could not be set up, is none; that it could not be
/// bound comes first.
pub proof fn starts_are_answered(
    cfg: Config,
    bound: Result<(), String>,
    transparent: Result<bool, Error>,
    r: Result<InboundPassthrough, Error>,
)
    requires
        call_ensures(InboundPassthrough::new, (&cfg, bound, transparent), r),
    ensures
        r is Ok <==> bound is Ok && transparent is Ok,
        bound matches Err(e) ==> r == Err::<InboundPassthrough, Error>(
            Error::Bind(cfg.inbound_plaintext_addr, e),
        ),
        bound is Ok && transparent is Err ==> r == Err::<InboundPassthrough, Error>(
            transparent->Err_0,
        ),
        r is Ok ==> r->Ok_0.open == 0 && r->Ok_0.deadline == cfg.self_termination_deadline
            && r->Ok_0.enable_orig_src == transparent->Ok_0,
{
}

/// What a relayed connection carried is in the entry of its end, seen from the destination,
/// with the error that ended it.
pub proof fn ends_are_answered(
    conn: PlaintextConnection,
    res: Result<(), String>,
    now: u128,
    metrics: &mut Metrics,
    r: (PlaintextConnection, Action),
)
    requires
        conn.phase is Relay,
        call_ensures(PlaintextConnection::finished, (conn, res, now, metrics), r),
    ensures
        r.0.phase is Closed,
        r.0.source == conn.source,
        r.0.dest == conn.dest,
        r.1 is Finish,
        ({
            let t = conn.phase->Relay_tracker@;
            let log = r.1->Finish_0;
            &&& log.connection.src_addr == t.src
            &&& log.connection.dst_addr == t.dst
            &&& t.labels.reporter == Reporter::destination ==> log.bytes_sent == t.sent
                && log.bytes_recv == t.recv
            &&& t.labels.reporter == Reporter::source ==> log.bytes_sent == t.recv
                && log.bytes_recv == t.sent
            &&& res is Ok <==> log.error is None
            &&& res matches Err(e) ==> log.error->0@ == e@
        }),
{
    let log = r.1->Finish_0;
    assert(conn@.phase == conn.phase@);
    assert(log@.error is Some == log.error is Some);
    assert(log@.connection == log.connection@);
}

/// A packet goes to the node of its destination over the tunnel there is, as it is; without a
/// workload or without a tunnel it is dropped, each told apart.
pub proof fn packets_are_routed<H>(
    packet: Packet,
    workload: Workload,
    routes: AssocMap<String, H>,
    found: Delivery,
    lost: Delivery,
)
    requires
        call_ensures(OutboundIP::route::<H>, (packet, Some(&workload), &routes), found),
        call_ensures(OutboundIP::route::<H>, (packet, None, &routes), lost),
    ensures
        lost == Delivery::UnknownDestination(packet.destination),
        routes@.contains_key(workload.node@) <==> found is Write,
        !routes@.contains_key(workload.node@) ==> found == Delivery::UnknownNode(
            packet.destination,
        ),
        found matches Delivery::Write { node, bytes } ==> node@ == workload.node@ && bytes@
            == packet.bytes@,
{
}

} // verus!
