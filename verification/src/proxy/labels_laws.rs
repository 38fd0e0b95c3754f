//! What labels tell of the ends of a connection.

use vstd::prelude::*;

use crate::identity::{Identity, IdentityView};
use crate::metrics::{known, text_view};
use crate::proxy::counters::label_views;
use crate::proxy::label_value::{LabelValue, LabelValueView, ShownLabel};
use crate::proxy::labels::{
    identity_view, principal_text, ConnectionOpen, DerivedWorkload, DnsView, PeerView, Reporter,
    RequestProtocol, ResponseFlags, SecurityPolicy, TrafficView,
};
use crate::workload::{service_view, workload_view, ServiceView, WorkloadView};

verus! {

/// An empty text names nothing; any other names what it says.
pub proof fn empty_texts_name_nothing(text: Seq<char>)
    ensures
        text.len() == 0 ==> known(text) is None,
        text.len() > 0 ==> known(text) == Some(text),
{
}

/// What is optional says nothing exactly where it is missing, and otherwise what is there
/// says.
pub proof fn missing_values_say_nothing(
    text: Option<String>,
    id: Option<Identity>,
    w: Option<crate::workload::Workload>,
    s: Option<crate::workload::ServiceDescription>,
)
    ensures
        text is None ==> text_view(text) is None,
        text is Some ==> text_view(text) == Some(text->0@),
        id is None ==> identity_view(id) is None,
        id is Some ==> identity_view(id) == Some(
            IdentityView {
                trust_domain: id->0.trust_domain@,
                namespace: id->0.namespace@,
                service_account: id->0.service_account@,
            },
        ),
        w is None ==> workload_view(w) is None,
        w is Some ==> workload_view(w) == Some(w->0@),
        s is None ==> service_view(s) is None,
        s is Some ==> service_view(s) == Some(
            ServiceView {
                hostname: s->0.hostname@,
                name: s->0.name@,
                namespace: s->0.namespace@,
            },
        ),
{
}

/// A label shows its text, the URI of its identity, or `unknown` where it has no value.
pub proof fn what_labels_show(text: Seq<char>, id: IdentityView)
    ensures
        LabelValueView::Missing.shown() == "unknown"@,
        LabelValueView::Text(text).shown() == text,
        LabelValueView::Principal(id).shown() == "spiffe://"@ + id.trust_domain + "/ns/"@
            + id.namespace + "/sa/"@ + id.service_account,
        LabelValueView::of_text(None) == LabelValueView::Missing,
        LabelValueView::of_text(Some(text)) == LabelValueView::Text(text),
        LabelValueView::of_identity(None) == LabelValueView::Missing,
        LabelValueView::of_identity(Some(id)) == LabelValueView::Principal(id),
        principal_text(None) is None,
        principal_text(Some(id)) == Some(
            "spiffe://"@ + id.trust_domain + "/ns/"@ + id.namespace + "/sa/"@
                + id.service_account,
        ),
{
}

/// What a label value says is what it holds.
pub proof fn label_values_say_what_they_hold(v: LabelValue)
    ensures
        v is Missing <==> v@ is Missing,
        v matches LabelValue::Text(s) ==> v@ == LabelValueView::Text(s@),
        v matches LabelValue::Principal(id) ==> v@ == LabelValueView::Principal(
            IdentityView {
                trust_domain: id.trust_domain@,
                namespace: id.namespace@,
                service_account: id.service_account@,
            },
        ),
{
}

/// Labels say the same one by one as all together.
pub proof fn label_sets_are_read_one_by_one(labels: Seq<(String, ShownLabel)>, i: int)
    requires
        0 <= i < labels.len(),
    ensures
        label_views(labels).len() == labels.len(),
        label_views(labels)[i].0 == labels[i].0@,
        label_views(labels)[i].1 == labels[i].1@,
{
}

/// What is known of one end of a connection from its workload: each text that is not empty,
/// and the identity that the workload runs under.
pub proof fn what_is_known_of_a_workload(w: WorkloadView)
    ensures
        ({
            let p = PeerView::of_workload(w);
            &&& p.workload is Some == (w.workload_name.len() > 0)
            &&& p.workload is Some ==> p.workload->0 == w.workload_name
            &&& p.canonical_service is Some == (w.canonical_name.len() > 0)
            &&& p.canonical_service is Some ==> p.canonical_service->0 == w.canonical_name
            &&& p.canonical_revision is Some == (w.canonical_revision.len() > 0)
            &&& p.canonical_revision is Some ==> p.canonical_revision->0 == w.canonical_revision
            &&& p.workload_namespace is Some == (w.namespace.len() > 0)
            &&& p.workload_namespace is Some ==> p.workload_namespace->0 == w.namespace
            &&& p.principal is Some
            &&& p.principal->0.trust_domain == w.trust_domain
            &&& p.principal->0.namespace == w.namespace
            &&& p.principal->0.service_account == w.service_account
            &&& p.app == p.canonical_service
            &&& p.version == p.canonical_revision
            &&& p.cluster is Some == (w.cluster_id.len() > 0)
            &&& p.cluster is Some ==> p.cluster->0 == w.cluster_id
        }),
{
}

/// What is known of the source from the connection alone: what it tells, as it tells it,
/// with the name of the workload for that of the app.
pub proof fn what_is_known_of_a_derived_source(w: DerivedWorkload)
    ensures
        ({
            let p = PeerView::of_derived(w);
            &&& p.workload is Some == w.workload_name is Some
            &&& w.workload_name is Some ==> p.workload->0 == w.workload_name->0@
            &&& p.app == p.workload
            &&& p.canonical_service is Some == w.app is Some
            &&& w.app is Some ==> p.canonical_service->0 == w.app->0@
            &&& p.canonical_revision is Some == w.revision is Some
            &&& w.revision is Some ==> p.canonical_revision->0 == w.revision->0@
            &&& p.version == p.canonical_revision
            &&& p.workload_namespace is Some == w.namespace is Some
            &&& w.namespace is Some ==> p.workload_namespace->0 == w.namespace->0@
            &&& p.principal is Some == w.identity is Some
            &&& w.identity is Some ==> p.principal->0 == (IdentityView {
                trust_domain: w.identity->0.trust_domain@,
                namespace: w.identity->0.namespace@,
                service_account: w.identity->0.service_account@,
            })
            &&& p.cluster is Some == w.cluster_id is Some
            &&& w.cluster_id is Some ==> p.cluster->0 == w.cluster_id->0@
        }),
{
}

/// Of an unknown end nothing is known.
pub proof fn nothing_is_known_of_an_unknown_end()
    ensures
        PeerView::unknown() == (PeerView {
            workload: None,
            canonical_service: None,
            canonical_revision: None,
            workload_namespace: None,
            principal: None,
            app: None,
            version: None,
            cluster: None,
        }),
        TrafficView::unknown().source == PeerView::unknown(),
        TrafficView::unknown().destination == PeerView::unknown(),
        TrafficView::unknown().destination_service is None,
        TrafficView::unknown().destination_service_name is None,
        TrafficView::unknown().destination_service_namespace is None,
        TrafficView::unknown().reporter == Reporter::source,
        TrafficView::unknown().request_protocol == RequestProtocol::tcp,
        TrafficView::unknown().response_flags == ResponseFlags::NoFlag,
        TrafficView::unknown().connection_security_policy == SecurityPolicy::unknown,
{
}

/// A workload gives the destination, one by one, the labels that it gives the source.
pub proof fn ends_are_labelled_alike(t: TrafficView, u: TrafficView, w: WorkloadView)
    ensures
        t.with_destination(Some(w)).destination == u.with_source(Some(w)).source,
        t.with_destination(Some(w)).destination.workload == u.with_source(Some(w)).source.workload,
        t.with_destination(Some(w)).destination.principal == Some(
            IdentityView {
                trust_domain: w.trust_domain,
                namespace: w.namespace,
                service_account: w.service_account,
            },
        ),
        u.with_source(Some(w)).source.principal == Some(
            IdentityView {
                trust_domain: w.trust_domain,
                namespace: w.namespace,
                service_account: w.service_account,
            },
        ),
{
}

/// Naming one end changes no label of the other and none of the service; what is not given
/// changes nothing.
pub proof fn labels_are_set_apart(
    t: TrafficView,
    w: WorkloadView,
    d: DerivedWorkload,
    s: ServiceView,
)
    ensures
        t.with_source(Some(w)) == (TrafficView {
            source: t.with_source(Some(w)).source,
            ..t
        }),
        t.with_derived_source(Some(d)) == (TrafficView {
            source: PeerView::of_derived(d),
            ..t
        }),
        t.with_destination(Some(w)) == (TrafficView {
            destination: t.with_destination(Some(w)).destination,
            ..t
        }),
        t.with_destination_service(Some(s)) == (TrafficView {
            destination_service: if s.hostname.len() == 0 {
                None
            } else {
                Some(s.hostname)
            },
            destination_service_name: if s.name.len() == 0 {
                None
            } else {
                Some(s.name)
            },
            destination_service_namespace: if s.namespace.len() == 0 {
                None
            } else {
                Some(s.namespace)
            },
            ..t
        }),
        t.with_source(None) == t,
        t.with_derived_source(None) == t,
        t.with_destination(None) == t,
        t.with_destination_service(None) == t,
{
}

/// The source of a connection is labelled from its workload where that is known, else from
/// what the connection tells, else as unknown.
pub proof fn source_labels_of_a_connection(c: ConnectionOpen)
    ensures
        ({
            let p = TrafficView::of_connection(c).source;
            &&& c.source matches Some(w) ==> p == (PeerView {
                workload: if w.workload_name@.len() == 0 {
                    None
                } else {
                    Some(w.workload_name@)
                },
                canonical_service: if w.canonical_name@.len() == 0 {
                    None
                } else {
                    Some(w.canonical_name@)
                },
                canonical_revision: if w.canonical_revision@.len() == 0 {
                    None
                } else {
                    Some(w.canonical_revision@)
                },
                workload_namespace: if w.namespace@.len() == 0 {
                    None
                } else {
                    Some(w.namespace@)
                },
                principal: Some(
                    IdentityView {
                        trust_domain: w.trust_domain@,
                        namespace: w.namespace@,
                        service_account: w.service_account@,
                    },
                ),
                app: if w.canonical_name@.len() == 0 {
                    None
                } else {
                    Some(w.canonical_name@)
                },
                version: if w.canonical_revision@.len() == 0 {
                    None
                } else {
                    Some(w.canonical_revision@)
                },
                cluster: if w.cluster_id@.len() == 0 {
                    None
                } else {
                    Some(w.cluster_id@)
                },
            })
            &&& c.source is None && c.derived_source is Some ==> p == PeerView::of_derived(
                c.derived_source->0,
            )
            &&& c.source is None && c.derived_source is None ==> p.workload is None
                && p.canonical_service is None && p.canonical_revision is None
                && p.workload_namespace is None && p.principal is None && p.app is None
                && p.version is None && p.cluster is None
        }),
{
}

/// The destination of a connection is labelled from its workload alone, by every text of it
/// that is not empty and by its identity; without one, nothing is known of it.
pub proof fn destination_labels_of_a_connection(c: ConnectionOpen)
    ensures
        ({
            let p = TrafficView::of_connection(c).destination;
            &&& c.destination matches Some(w) ==> p == (PeerView {
                workload: if w.workload_name@.len() == 0 {
                    None
                } else {
                    Some(w.workload_name@)
                },
                canonical_service: if w.canonical_name@.len() == 0 {
                    None
                } else {
                    Some(w.canonical_name@)
                },
                canonical_revision: if w.canonical_revision@.len() == 0 {
                    None
                } else {
                    Some(w.canonical_revision@)
                },
                workload_namespace: if w.namespace@.len() == 0 {
                    None
                } else {
                    Some(w.namespace@)
                },
                principal: Some(
                    IdentityView {
                        trust_domain: w.trust_domain@,
                        namespace: w.namespace@,
                        service_account: w.service_account@,
                    },
                ),
                app: if w.canonical_name@.len() == 0 {
                    None
                } else {
                    Some(w.canonical_name@)
                },
                version: if w.canonical_revision@.len() == 0 {
                    None
                } else {
                    Some(w.canonical_revision@)
                },
                cluster: if w.cluster_id@.len() == 0 {
                    None
                } else {
                    Some(w.cluster_id@)
                },
            })
            &&& c.destination is None ==> p.workload is None && p.canonical_service is None
                && p.canonical_revision is None && p.workload_namespace is None
                && p.principal is None && p.app is None && p.version is None && p.cluster is None
        }),
{
}

/// The other labels of a connection: who reports it and how it is secured are as given, the
/// service is named as far as it has names, the protocol is TCP, and nothing is flagged.
pub proof fn other_labels_of_a_connection(c: ConnectionOpen)
    ensures
        ({
            let t = TrafficView::of_connection(c);
            &&& t.reporter == c.reporter
            &&& t.connection_security_policy == c.connection_security_policy
            &&& t.request_protocol == RequestProtocol::tcp
            &&& t.response_flags == ResponseFlags::NoFlag
            &&& c.destination_service matches Some(s) ==> {
                &&& t.destination_service is Some == (s.hostname@.len() > 0)
                &&& s.hostname@.len() > 0 ==> t.destination_service->0 == s.hostname@
                &&& t.destination_service_name is Some == (s.name@.len() > 0)
                &&& s.name@.len() > 0 ==> t.destination_service_name->0 == s.name@
                &&& t.destination_service_namespace is Some == (s.namespace@.len() > 0)
                &&& s.namespace@.len() > 0 ==> t.destination_service_namespace->0 == s.namespace@
            }
            &&& c.destination_service is None ==> t.destination_service is None
                && t.destination_service_name is None && t.destination_service_namespace is None
        }),
{
}

/// The names of the labels of the source.
proof fn lemma_source_names(p: PeerView)
    ensures
        p.labels("source"@).len() == 8,
        p.labels("source"@)[0].0 == "source_workload"@,
        p.labels("source"@)[1].0 == "source_canonical_service"@,
        p.labels("source"@)[2].0 == "source_canonical_revision"@,
        p.labels("source"@)[3].0 == "source_workload_namespace"@,
        p.labels("source"@)[4].0 == "source_principal"@,
        p.labels("source"@)[5].0 == "source_app"@,
        p.labels("source"@)[6].0 == "source_version"@,
        p.labels("source"@)[7].0 == "source_cluster"@,
{
    reveal_strlit("source");
    reveal_strlit("_workload");
    reveal_strlit("_canonical_service");
    reveal_strlit("_canonical_revision");
    reveal_strlit("_workload_namespace");
    reveal_strlit("_principal");
    reveal_strlit("_app");
    reveal_strlit("_version");
    reveal_strlit("_cluster");
    reveal_strlit("source_workload");
    reveal_strlit("source_canonical_service");
    reveal_strlit("source_canonical_revision");
    reveal_strlit("source_workload_namespace");
    reveal_strlit("source_principal");
    reveal_strlit("source_app");
    reveal_strlit("source_version");
    reveal_strlit("source_cluster");
    assert("source"@ + "_workload"@ =~= "source_workload"@);
    assert("source"@ + "_canonical_service"@ =~= "source_canonical_service"@);
    assert("source"@ + "_canonical_revision"@ =~= "source_canonical_revision"@);
    assert("source"@ + "_workload_namespace"@ =~= "source_workload_namespace"@);
    assert("source"@ + "_principal"@ =~= "source_principal"@);
    assert("source"@ + "_app"@ =~= "source_app"@);
    assert("source"@ + "_version"@ =~= "source_version"@);
    assert("source"@ + "_cluster"@ =~= "source_cluster"@);
}

/// The names of the labels of the destination.
proof fn lemma_destination_names(p: PeerView)
    ensures
        p.labels("destination"@).len() == 8,
        p.labels("destination"@)[0].0 == "destination_workload"@,
        p.labels("destination"@)[1].0 == "destination_canonical_service"@,
        p.labels("destination"@)[2].0 == "destination_canonical_revision"@,
        p.labels("destination"@)[3].0 == "destination_workload_namespace"@,
        p.labels("destination"@)[4].0 == "destination_principal"@,
        p.labels("destination"@)[5].0 == "destination_app"@,
        p.labels("destination"@)[6].0 == "destination_version"@,
        p.labels("destination"@)[7].0 == "destination_cluster"@,
{
    reveal_strlit("destination");
    reveal_strlit("_workload");
    reveal_strlit("_canonical_service");
    reveal_strlit("_canonical_revision");
    reveal_strlit("_workload_namespace");
    reveal_strlit("_principal");
    reveal_strlit("_app");
    reveal_strlit("_version");
    reveal_strlit("_cluster");
    reveal_strlit("destination_workload");
    reveal_strlit("destination_canonical_service");
    reveal_strlit("destination_canonical_revision");
    reveal_strlit("destination_workload_namespace");
    reveal_strlit("destination_principal");
    reveal_strlit("destination_app");
    reveal_strlit("destination_version");
    reveal_strlit("destination_cluster");
    assert("destination"@ + "_workload"@ =~= "destination_workload"@);
    assert("destination"@ + "_canonical_service"@ =~= "destination_canonical_service"@);
    assert("destination"@ + "_canonical_revision"@ =~= "destination_canonical_revision"@);
    assert("destination"@ + "_workload_namespace"@ =~= "destination_workload_namespace"@);
    assert("destination"@ + "_principal"@ =~= "destination_principal"@);
    assert("destination"@ + "_app"@ =~= "destination_app"@);
    assert("destination"@ + "_version"@ =~= "destination_version"@);
    assert("destination"@ + "_cluster"@ =~= "destination_cluster"@);
}

/// Every label of a connection has the name that it is exported under, and under it what is
/// known.
pub proof fn labels_by_name(t: TrafficView)
    ensures
        ({
            let ls = t.labels();
            &&& ls.len() == 23
            &&& ls[0].0 == "reporter"@
            &&& t.reporter == Reporter::source ==> ls[0].1 == LabelValueView::Text("source"@)
            &&& t.reporter == Reporter::destination ==> ls[0].1 == LabelValueView::Text(
                "destination"@,
            )
            &&& ls[1] == ("source_workload"@, LabelValueView::of_text(t.source.workload))
            &&& ls[2] == (
                "source_canonical_service"@,
                LabelValueView::of_text(t.source.canonical_service),
            )
            &&& ls[3] == (
                "source_canonical_revision"@,
                LabelValueView::of_text(t.source.canonical_revision),
            )
            &&& ls[4] == (
                "source_workload_namespace"@,
                LabelValueView::of_text(t.source.workload_namespace),
            )
            &&& ls[5] == ("source_principal"@, LabelValueView::of_identity(t.source.principal))
            &&& ls[6] == ("source_app"@, LabelValueView::of_text(t.source.app))
            &&& ls[7] == ("source_version"@, LabelValueView::of_text(t.source.version))
            &&& ls[8] == ("source_cluster"@, LabelValueView::of_text(t.source.cluster))
            &&& ls[9] == ("destination_service"@, LabelValueView::of_text(t.destination_service))
            &&& ls[10] == (
                "destination_service_namespace"@,
                LabelValueView::of_text(t.destination_service_namespace),
            )
            &&& ls[11] == (
                "destination_service_name"@,
                LabelValueView::of_text(t.destination_service_name),
            )
            &&& ls[12] == ("destination_workload"@, LabelValueView::of_text(t.destination.workload))
            &&& ls[13] == (
                "destination_canonical_service"@,
                LabelValueView::of_text(t.destination.canonical_service),
            )
            &&& ls[14] == (
                "destination_canonical_revision"@,
                LabelValueView::of_text(t.destination.canonical_revision),
            )
            &&& ls[15] == (
                "destination_workload_namespace"@,
                LabelValueView::of_text(t.destination.workload_namespace),
            )
            &&& ls[16] == (
                "destination_principal"@,
                LabelValueView::of_identity(t.destination.principal),
            )
            &&& ls[17] == ("destination_app"@, LabelValueView::of_text(t.destination.app))
            &&& ls[18] == ("destination_version"@, LabelValueView::of_text(t.destination.version))
            &&& ls[19] == ("destination_cluster"@, LabelValueView::of_text(t.destination.cluster))
            &&& ls[20].0 == "request_protocol"@
            &&& t.request_protocol == RequestProtocol::tcp ==> ls[20].1 == LabelValueView::Text(
                "tcp"@,
            )
            &&& t.request_protocol == RequestProtocol::http ==> ls[20].1 == LabelValueView::Text(
                "http"@,
            )
            &&& ls[21].0 == "response_flags"@
            &&& t.response_flags == ResponseFlags::NoFlag ==> ls[21].1 == LabelValueView::Text(
                "-"@,
            )
            &&& t.response_flags == ResponseFlags::AuthorizationPolicyDenied ==> ls[21].1
                == LabelValueView::Text("DENY"@)
            &&& ls[22].0 == "connection_security_policy"@
            &&& t.connection_security_policy == SecurityPolicy::unknown ==> ls[22].1
                == LabelValueView::Text("unknown"@)
            &&& t.connection_security_policy == SecurityPolicy::mutual_tls ==> ls[22].1
                == LabelValueView::Text("mutual_tls"@)
        }),
{
    lemma_source_names(t.source);
    lemma_destination_names(t.destination);
    let ls = t.labels();
    let s = t.source.labels("source"@);
    let d = t.destination.labels("destination"@);
    assert(ls.len() == 23);
    assert(forall|i: int| 0 <= i < 8 ==> ls[i + 1] == #[trigger] s[i]);
    assert(forall|i: int| 0 <= i < 8 ==> ls[i + 12] == #[trigger] d[i]);
    assert(ls[1] == s[0] && ls[2] == s[1] && ls[3] == s[2] && ls[4] == s[3]);
    assert(ls[5] == s[4] && ls[6] == s[5] && ls[7] == s[6] && ls[8] == s[7]);
    assert(ls[12] == d[0] && ls[13] == d[1] && ls[14] == d[2] && ls[15] == d[3]);
    assert(ls[16] == d[4] && ls[17] == d[5] && ls[18] == d[6] && ls[19] == d[7]);
}

/// The labels of a name that was resolved: those of who asked, and the host.
pub proof fn dns_labels_by_name(d: DnsView)
    ensures
        ({
            let ls = d.labels();
            &&& ls.len() == 9
            &&& ls[0] == ("source_workload"@, LabelValueView::of_text(d.source.workload))
            &&& ls[1] == (
                "source_canonical_service"@,
                LabelValueView::of_text(d.source.canonical_service),
            )
            &&& ls[2] == (
                "source_canonical_revision"@,
                LabelValueView::of_text(d.source.canonical_revision),
            )
            &&& ls[3] == (
                "source_workload_namespace"@,
                LabelValueView::of_text(d.source.workload_namespace),
            )
            &&& ls[4] == ("source_principal"@, LabelValueView::of_identity(d.source.principal))
            &&& ls[5] == ("source_app"@, LabelValueView::of_text(d.source.app))
            &&& ls[6] == ("source_version"@, LabelValueView::of_text(d.source.version))
            &&& ls[7] == ("source_cluster"@, LabelValueView::of_text(d.source.cluster))
            &&& ls[8] == ("hostname"@, LabelValueView::of_text(d.hostname))
        }),
{
    lemma_source_names(d.source);
}

/// The source reports what goes out, and the destination what comes in.
pub proof fn who_reports_what(r: Reporter)
    ensures
        r == Reporter::source ==> r.direction_spec() == "outbound"@ && r.label() == "source"@,
        r == Reporter::destination ==> r.direction_spec() == "inbound"@ && r.label()
            == "destination"@,
{
}

} // verus!
