//! What holds of labels, counters and access logs.

use vstd::prelude::*;

use crate::net::SocketAddr;
use crate::proxy::counters::{count_of, counted, LabelSetView};
use crate::proxy::label_value::LabelValueView;
use crate::proxy::labels::{
    principal_text, ConnectionOpen, PeerView, Reporter, ResponseFlags, SecurityPolicy, TrafficView,
};
use crate::proxy::metrics::{
    proxy_metrics, ConnectionClose, ConnectionView, Level, MetricEvent, MetricsView,
};
use crate::workload::workload_view;

verus! {

/// What is known of the source workload outranks what the connection tells of it: where the
/// workload is known, the derived source makes no difference.
pub proof fn source_outranks_derived_source(c: ConnectionOpen)
    ensures
        c.source is Some ==> TrafficView::of_connection(c).source == PeerView::of_workload(
            workload_view(c.source)->0,
        ),
        c.source is None && c.derived_source is Some ==> TrafficView::of_connection(c).source
            == PeerView::of_derived(c.derived_source->0),
        c.source is None && c.derived_source is None ==> TrafficView::of_connection(c).source
            == PeerView::unknown(),
{
}

/// Counting in two steps is counting the sum.
pub proof fn counting_adds_up(
    counts: Map<LabelSetView, u64>,
    labels: LabelSetView,
    a: u64,
    b: u64,
)
    ensures
        counted(counted(counts, labels, a), labels, b) == counted(
            counts,
            labels,
            a.wrapping_add(b),
        ),
{
    assert(counted(counted(counts, labels, a), labels, b) =~= counted(
        counts,
        labels,
        a.wrapping_add(b),
    ));
}

/// Counting under some labels changes the count under no others.
pub proof fn counting_is_local(
    counts: Map<LabelSetView, u64>,
    labels: LabelSetView,
    v: u64,
    other: LabelSetView,
)
    requires
        other != labels,
    ensures
        count_of(counted(counts, labels, v), other) == count_of(counts, other),
{
}

/// Bytes sent and bytes received, connections opened and connections closed are counted
/// apart: the order in which they are counted makes no difference.
pub proof fn counters_are_independent(
    m: MetricsView,
    l1: LabelSetView,
    l2: LabelSetView,
    a: u64,
    b: u64,
)
    ensures
        m.sent(l1, a).received(l2, b) == m.received(l2, b).sent(l1, a),
        m.opened(l1).closed(l2) == m.closed(l2).opened(l1),
        m.opened(l1).sent(l2, a) == m.sent(l2, a).opened(l1),
        m.closed(l1).received(l2, b) == m.received(l2, b).closed(l1),
{
}

/// Each metric that the proxy registers shows the counter of its own: connections opened,
/// connections closed, bytes received, bytes sent, and the two for DNS; and whatever is
/// counted, the counters stay the ones that are shown.
pub proof fn counters_show_under_their_names(m: MetricsView, labels: LabelSetView, n: u64)
    ensures
        proxy_metrics(m.families).len() == 6,
        proxy_metrics(m.families)[0].0 == "tcp_connections_opened"@,
        proxy_metrics(m.families)[0].2 == m.families.connection_opens,
        proxy_metrics(m.families)[1].0 == "tcp_connections_closed"@,
        proxy_metrics(m.families)[1].2 == m.families.connection_close,
        proxy_metrics(m.families)[2].0 == "tcp_received_bytes"@,
        proxy_metrics(m.families)[2].2 == m.families.received_bytes,
        proxy_metrics(m.families)[3].0 == "tcp_sent_bytes"@,
        proxy_metrics(m.families)[3].2 == m.families.sent_bytes,
        proxy_metrics(m.families)[4].0 == "on_demand_dns"@,
        proxy_metrics(m.families)[4].2 == m.families.on_demand_dns,
        proxy_metrics(m.families)[5].0 == "on_demand_dns_cache_misses"@,
        proxy_metrics(m.families)[5].2 == m.families.on_demand_dns_cache_misses,
        m.opened(labels).families == m.families,
        m.closed(labels).families == m.families,
        m.sent(labels, n).families == m.families,
        m.received(labels, n).families == m.families,
        m.resolved(labels).families == m.families,
        m.missed(labels).families == m.families,
{
}

/// A connection is closed under the labels that it was opened under, unless it is flagged.
pub proof fn closed_as_it_was_opened(
    src: SocketAddr,
    dst: SocketAddr,
    hbone_target: Option<SocketAddr>,
    start: u128,
    conn: ConnectionOpen,
)
    ensures
        ({
            let c = ConnectionView::opened(src, dst, hbone_target, start, conn);
            &&& c.labels.labels() == c.byte_labels
            &&& c.labels.response_flags == ResponseFlags::NoFlag
        }),
{
}

/// A denied connection is counted apart from all that were not denied.
pub proof fn denials_are_counted_apart(a: TrafficView, b: TrafficView)
    requires
        a.response_flags == ResponseFlags::NoFlag,
        b.response_flags == ResponseFlags::AuthorizationPolicyDenied,
    ensures
        a.labels() != b.labels(),
{
    reveal_strlit("-");
    reveal_strlit("DENY");
    assert(a.labels().len() == 23);
    assert(a.labels()[21].1 == LabelValueView::Text("-"@));
    assert(b.labels()[21].1 == LabelValueView::Text("DENY"@));
    assert("-"@.len() != "DENY"@.len());
}

/// Connections are counted together exactly when the same is known of them, whatever their
/// labels look like when they are shown: a peer that is named `unknown` is counted apart from
/// one that is not known.
pub proof fn labels_are_told_apart(a: TrafficView, b: TrafficView)
    ensures
        a.labels() == b.labels() <==> a == b,
{
    if a.labels() == b.labels() {
        let la = a.labels();
        let lb = b.labels();
        reveal_strlit("source");
        reveal_strlit("destination");
        reveal_strlit("tcp");
        reveal_strlit("http");
        reveal_strlit("-");
        reveal_strlit("DENY");
        reveal_strlit("unknown");
        reveal_strlit("mutual_tls");
        assert("source"@.len() == 6 && "destination"@.len() == 11);
        assert("tcp"@.len() == 3 && "http"@.len() == 4);
        assert("-"@.len() == 1 && "DENY"@.len() == 4);
        assert("unknown"@.len() == 7 && "mutual_tls"@.len() == 10);
        assert(la[0].1 == lb[0].1);
        assert(la[1].1 == lb[1].1 && la[2].1 == lb[2].1 && la[3].1 == lb[3].1);
        assert(la[4].1 == lb[4].1 && la[5].1 == lb[5].1 && la[6].1 == lb[6].1);
        assert(la[7].1 == lb[7].1 && la[8].1 == lb[8].1);
        assert(a.source =~= b.source);
        assert(la[9].1 == lb[9].1 && la[10].1 == lb[10].1 && la[11].1 == lb[11].1);
        assert(la[12].1 == lb[12].1 && la[13].1 == lb[13].1 && la[14].1 == lb[14].1);
        assert(la[15].1 == lb[15].1 && la[16].1 == lb[16].1 && la[17].1 == lb[17].1);
        assert(la[18].1 == lb[18].1 && la[19].1 == lb[19].1);
        assert(a.destination =~= b.destination);
        assert(la[20].1 == lb[20].1 && la[21].1 == lb[21].1 && la[22].1 == lb[22].1);
    }
}

/// The log names an identity only where mutual TLS vouches for it.
pub proof fn identities_are_vouched_for(
    c: ConnectionView,
    level: Level,
    message: Seq<char>,
)
    ensures
        c.labels.connection_security_policy != SecurityPolicy::mutual_tls ==> {
            &&& c.access(level, message).src_identity is None
            &&& c.access(level, message).dst_identity is None
        },
        c.labels.connection_security_policy == SecurityPolicy::mutual_tls ==> {
            &&& c.access(level, message).src_identity == principal_text(c.labels.source.principal)
            &&& c.access(level, message).dst_identity == principal_text(
                c.labels.destination.principal,
            )
        },
{
}

/// The two ends of a connection report the same bytes, each as its own: what one logs as
/// sent the other logs as received.
pub proof fn ends_log_opposite_directions(
    c: ConnectionView,
    now: u128,
    error: Option<Seq<char>>,
)
    ensures
        ({
            let at_source = ConnectionView {
                labels: TrafficView { reporter: Reporter::source, ..c.labels },
                ..c
            };
            let at_destination = ConnectionView {
                labels: TrafficView { reporter: Reporter::destination, ..c.labels },
                ..c
            };
            &&& at_source.completion(now, error).bytes_sent == at_destination.completion(
                now,
                error,
            ).bytes_recv
            &&& at_source.completion(now, error).bytes_recv == at_destination.completion(
                now,
                error,
            ).bytes_sent
        }),
{
}

/// Counting an opened connection and deferring its closing counts the closing, when it
/// comes, under the same labels.
pub proof fn deferred_close_matches_open(
    open: ConnectionOpen,
    close: ConnectionClose,
    before: MetricsView,
    later: MetricsView,
)
    requires
        call_ensures(<ConnectionClose as From<&ConnectionOpen>>::from, (&open,), close),
    ensures
        open.recorded(before) == before.opened(TrafficView::of_connection(open).labels()),
        close.recorded(later) == later.closed(TrafficView::of_connection(open).labels()),
{
}

/// What tells the name of a label from the others: its length and two of its characters.
spec fn mark(name: Seq<char>) -> (nat, char, char) {
    let n = name.len();
    (
        n,
        name[0],
        if n == 19 || n == 29 || n == 30 {
            name[12]
        } else {
            name[7]
        },
    )
}

/// The mark of the label at `i`.
spec fn mark_at(i: int) -> (nat, char, char) {
    if i == 0 {
        (8, 'r', 'r')
    } else if i == 1 {
        (15, 's', 'w')
    } else if i == 2 {
        (24, 's', 'c')
    } else if i == 3 {
        (25, 's', 'c')
    } else if i == 4 {
        (25, 's', 'w')
    } else if i == 5 {
        (16, 's', 'p')
    } else if i == 6 {
        (10, 's', 'a')
    } else if i == 7 {
        (14, 's', 'v')
    } else if i == 8 {
        (14, 's', 'c')
    } else if i == 9 {
        (19, 'd', 's')
    } else if i == 10 {
        (29, 'd', 's')
    } else if i == 11 {
        (24, 'd', 't')
    } else if i == 12 {
        (20, 'd', 't')
    } else if i == 13 {
        (29, 'd', 'c')
    } else if i == 14 {
        (30, 'd', 'c')
    } else if i == 15 {
        (30, 'd', 'w')
    } else if i == 16 {
        (21, 'd', 't')
    } else if i == 17 {
        (15, 'd', 't')
    } else if i == 18 {
        (19, 'd', 'v')
    } else if i == 19 {
        (19, 'd', 'c')
    } else if i == 20 {
        (16, 'r', '_')
    } else if i == 21 {
        (14, 'r', 'e')
    } else {
        (26, 'c', 'i')
    }
}

/// No two labels of a connection have the same name.
pub proof fn label_names_are_distinct(t: TrafficView)
    ensures
        t.labels().len() == 23,
        forall|i: int, j: int|
            0 <= i < j < t.labels().len() ==> (#[trigger] t.labels()[i]).0 != (
            #[trigger] t.labels()[j]).0,
{
    reveal_strlit("_app");
    reveal_strlit("_canonical_revision");
    reveal_strlit("_canonical_service");
    reveal_strlit("_cluster");
    reveal_strlit("_principal");
    reveal_strlit("_version");
    reveal_strlit("_workload");
    reveal_strlit("_workload_namespace");
    reveal_strlit("connection_security_policy");
    reveal_strlit("destination");
    reveal_strlit("destination_service");
    reveal_strlit("destination_service_name");
    reveal_strlit("destination_service_namespace");
    reveal_strlit("reporter");
    reveal_strlit("request_protocol");
    reveal_strlit("response_flags");
    reveal_strlit("source");
    let ls = t.labels();
    assert(mark(ls[0].0) == mark_at(0));
    assert(mark(ls[1].0) == mark_at(1));
    assert(mark(ls[2].0) == mark_at(2));
    assert(mark(ls[3].0) == mark_at(3));
    assert(mark(ls[4].0) == mark_at(4));
    assert(mark(ls[5].0) == mark_at(5));
    assert(mark(ls[6].0) == mark_at(6));
    assert(mark(ls[7].0) == mark_at(7));
    assert(mark(ls[8].0) == mark_at(8));
    assert(mark(ls[9].0) == mark_at(9));
    assert(mark(ls[10].0) == mark_at(10));
    assert(mark(ls[11].0) == mark_at(11));
    assert(mark(ls[12].0) == mark_at(12));
    assert(mark(ls[13].0) == mark_at(13));
    assert(mark(ls[14].0) == mark_at(14));
    assert(mark(ls[15].0) == mark_at(15));
    assert(mark(ls[16].0) == mark_at(16));
    assert(mark(ls[17].0) == mark_at(17));
    assert(mark(ls[18].0) == mark_at(18));
    assert(mark(ls[19].0) == mark_at(19));
    assert(mark(ls[20].0) == mark_at(20));
    assert(mark(ls[21].0) == mark_at(21));
    assert(mark(ls[22].0) == mark_at(22));
    assert forall|i: int| 0 <= i < 23 implies mark((#[trigger] ls[i]).0) == mark_at(i) by {}
    assert forall|i: int, j: int| 0 <= i < j < 23 implies mark_at(i) != mark_at(j) by {}
}

} // verus!
