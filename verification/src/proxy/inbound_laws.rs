//! What holds of inbound plaintext connections from beginning to end.

use vstd::prelude::*;

use crate::config::Config;
use crate::net::SocketAddr;
use crate::proxy::counters::{count_of, LabelSetView};
use crate::proxy::inbound_passthrough::{
    denied, AcceptState, InboundPassthrough, PlaintextView,
};
use crate::proxy::labels::{Reporter, ResponseFlags, SecurityPolicy};
use crate::proxy::metrics::MetricsView;
use crate::proxy::metrics_laws::counting_adds_up;
use crate::workload::{ServiceView, WorkloadView};

verus! {

/// A connection from its arrival to the verdict of the access rules.
pub open spec fn judged(
    arrived: PlaintextView,
    upstream: Option<WorkloadView>,
    source: Option<WorkloadView>,
    service: Option<ServiceView>,
    allowed: bool,
) -> PlaintextView {
    arrived.after_upstream(upstream).after_source(source, service).after_verdict(allowed)
}

/// What has been counted of a connection from its arrival to its end.
pub open spec fn lifetime_counts(
    arrived: PlaintextView,
    upstream: Option<WorkloadView>,
    source: Option<WorkloadView>,
    service: Option<ServiceView>,
    allowed: bool,
    m: MetricsView,
) -> MetricsView {
    let looked_up = arrived.after_upstream(upstream);
    let opened = looked_up.after_source(source, service);
    let judged = opened.after_verdict(allowed);
    judged.counted_end(
        opened.counted_verdict(allowed, looked_up.counted_source(source, service, m)),
    )
}

/// A connection is passed on exactly when it is no call of the proxy to itself, its
/// destination is known and the access rules allow it. In every other case it is over.
pub proof fn relayed_iff_permitted(
    cfg: Config,
    source_addr: SocketAddr,
    dest: SocketAddr,
    start: u128,
    enable_orig_src: bool,
    upstream: Option<WorkloadView>,
    source: Option<WorkloadView>,
    service: Option<ServiceView>,
    allowed: bool,
)
    ensures
        ({
            let arrived = PlaintextView::begun(cfg, source_addr, dest, start, enable_orig_src);
            let end = judged(arrived, upstream, source, service, allowed);
            let permitted = !cfg.illegal_call(dest) && upstream is Some && allowed;
            &&& end.phase is Relay <==> permitted
            &&& end.phase is Closed <==> !permitted
        }),
{
}

/// A connection that is denied before its ends are known is not counted at all.
pub proof fn early_denials_are_not_counted(
    cfg: Config,
    source_addr: SocketAddr,
    dest: SocketAddr,
    start: u128,
    enable_orig_src: bool,
    upstream: Option<WorkloadView>,
    source: Option<WorkloadView>,
    service: Option<ServiceView>,
    allowed: bool,
    m: MetricsView,
)
    requires
        cfg.illegal_call(dest) || upstream is None,
    ensures
        lifetime_counts(
            PlaintextView::begun(cfg, source_addr, dest, start, enable_orig_src),
            upstream,
            source,
            service,
            allowed,
            m,
        ) == m,
{
}

/// A connection whose ends are known is counted once as opened and once as closed, reported
/// by the destination; where the access rules refused it, the closing is marked as denied.
pub proof fn opened_and_closed_once(
    cfg: Config,
    source_addr: SocketAddr,
    dest: SocketAddr,
    start: u128,
    enable_orig_src: bool,
    upstream: WorkloadView,
    source: Option<WorkloadView>,
    service: Option<ServiceView>,
    allowed: bool,
    m: MetricsView,
)
    requires
        !cfg.illegal_call(dest),
    ensures
        ({
            let arrived = PlaintextView::begun(cfg, source_addr, dest, start, enable_orig_src);
            let tracker = arrived.tracker(source, upstream, service);
            let opening = tracker.labels.labels();
            let closing = if allowed {
                tracker.labels.labels()
            } else {
                denied(tracker).labels.labels()
            };
            let after = lifetime_counts(arrived, Some(upstream), source, service, allowed, m);
            &&& tracker.labels.reporter == Reporter::destination
            &&& tracker.labels.response_flags == ResponseFlags::NoFlag
            &&& tracker.labels.connection_security_policy == SecurityPolicy::unknown
            &&& count_of(after.connection_opens, opening) == count_of(
                m.connection_opens,
                opening,
            ).wrapping_add(1)
            &&& count_of(after.connection_close, closing) == count_of(
                m.connection_close,
                closing,
            ).wrapping_add(1)
            &&& forall|other: LabelSetView|
                other != opening ==> #[trigger] count_of(after.connection_opens, other)
                    == count_of(m.connection_opens, other)
            &&& forall|other: LabelSetView|
                other != closing ==> #[trigger] count_of(after.connection_close, other)
                    == count_of(m.connection_close, other)
        }),
{
}

/// Bytes in several steps add up, in the account of the connection and in the counters alike:
/// both grow by the same.
pub proof fn bytes_add_up(
    conn: PlaintextView,
    m: MetricsView,
    labels: LabelSetView,
    s1: u64,
    s2: u64,
    r1: u64,
    r2: u64,
)
    ensures
        conn.after_bytes(s1, r1).after_bytes(s2, r2) == conn.after_bytes(
            s1.wrapping_add(s2),
            r1.wrapping_add(r2),
        ),
        m.sent(labels, s1).sent(labels, s2) == m.sent(labels, s1.wrapping_add(s2)),
        m.received(labels, r1).received(labels, r2) == m.received(labels, r1.wrapping_add(r2)),
        count_of(m.sent(labels, s1).sent_bytes, labels) == count_of(
            m.sent_bytes,
            labels,
        ).wrapping_add(s1),
        count_of(m.received(labels, r1).received_bytes, labels) == count_of(
            m.received_bytes,
            labels,
        ).wrapping_add(r1),
{
    counting_adds_up(m.sent_bytes, labels, s1, s2);
    counting_adds_up(m.received_bytes, labels, r1, r2);
}

/// Once no more connections are taken in, none ever is again: those that are open only get
/// fewer, whatever happens, and what was over stays over. The settings never change.
pub proof fn draining_is_final(run: Seq<InboundPassthrough>, i: int, j: int)
    requires
        forall|k: int| 0 <= k < run.len() - 1 ==> (#[trigger] run[k]).steps_to(run[k + 1]),
        0 <= i <= j < run.len(),
    ensures
        run[j].deadline == run[i].deadline,
        run[j].enable_orig_src == run[i].enable_orig_src,
        run[i].state != AcceptState::Accepting ==> run[j].state != AcceptState::Accepting
            && run[j].open <= run[i].open,
        run[i].state == AcceptState::Stopped ==> run[j].state == AcceptState::Stopped,
    decreases j - i,
{
    if i < j {
        draining_is_final(run, i, j - 1);
        assert(run[j - 1].steps_to(run[j]));
    }
}

/// Draining ends neither too early nor too late: while a connection is open it goes on until
/// the time is up, and when the time is up, or nothing is open, it may end.
pub proof fn draining_takes_its_time(p: InboundPassthrough, elapsed: u128)
    requires
        p.state == AcceptState::Draining,
    ensures
        p.open > 0 && elapsed < p.deadline ==> !p.may_stop(elapsed),
        elapsed >= p.deadline ==> p.may_stop(elapsed),
        p.open == 0 ==> p.may_stop(elapsed),
{
}

} // verus!
