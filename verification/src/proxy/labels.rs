//! The labels that traffic is counted under.

use vstd::prelude::*;
use vstd::string::*;

use crate::identity::{Identity, IdentityView};
use crate::metrics::{known, text_view, DefaultedUnknown};
use crate::proxy::counters::{label_views, LabelSet, LabelSetView};
use crate::proxy::label_value::{LabelValue, LabelValueView, ShownLabel};
use crate::workload::{
    service_view, workload_view, ServiceDescription, ServiceView, Workload, WorkloadView,
};

verus! {

/// Which side of a connection reports it.
#[allow(non_camel_case_types)]
#[derive(Clone, Copy, Debug, Hash, PartialEq, Eq, Structural)]
pub enum Reporter {
    source,
    destination,
}

/// The protocol of a request.
#[allow(non_camel_case_types)]
#[derive(Clone, Copy, Debug, Hash, PartialEq, Eq, Structural)]
pub enum RequestProtocol {
    tcp,
    http,
}

/// What a connection was answered with.
#[derive(Clone, Copy, Debug, Hash, PartialEq, Eq, Structural)]
pub enum ResponseFlags {
    /// Nothing to remark.
    NoFlag,
    /// The connection was denied due to policy.
    AuthorizationPolicyDenied,
}

/// How a connection is secured.
#[allow(non_camel_case_types)]
#[derive(Clone, Copy, Debug, Hash, PartialEq, Eq, Structural)]
pub enum SecurityPolicy {
    unknown,
    mutual_tls,
}

impl Default for Reporter {
    fn default() -> (r: Self)
        ensures
            r == Reporter::source,
    {
        Reporter::source
    }
}

impl Default for RequestProtocol {
    fn default() -> (r: Self)
        ensures
            r == RequestProtocol::tcp,
    {
        RequestProtocol::tcp
    }
}

impl Default for ResponseFlags {
    fn default() -> (r: Self)
        ensures
            r == ResponseFlags::NoFlag,
    {
        ResponseFlags::NoFlag
    }
}

impl Default for SecurityPolicy {
    fn default() -> (r: Self)
        ensures
            r == SecurityPolicy::unknown,
    {
        SecurityPolicy::unknown
    }
}

impl Reporter {
    /// The label value.
    pub open spec fn label(self) -> Seq<char> {
        match self {
            Reporter::source => "source"@,
            Reporter::destination => "destination"@,
        }
    }

    /// The label value.
    pub fn encode(&self) -> (s: String)
        ensures
            s@ == self.label(),
    {
        match self {
            Reporter::source => "source".to_owned(),
            Reporter::destination => "destination".to_owned(),
        }
    }

    /// The direction of the traffic that this side reports.
    pub open spec fn direction_spec(self) -> Seq<char> {
        match self {
            Reporter::source => "outbound"@,
            Reporter::destination => "inbound"@,
        }
    }

    /// The direction of the traffic that this side reports.
    pub fn direction(&self) -> (s: String)
        ensures
            s@ == self.direction_spec(),
    {
        match self {
            Reporter::source => "outbound".to_owned(),
            Reporter::destination => "inbound".to_owned(),
        }
    }
}

impl RequestProtocol {
    /// The label value.
    pub open spec fn label(self) -> Seq<char> {
        match self {
            RequestProtocol::tcp => "tcp"@,
            RequestProtocol::http => "http"@,
        }
    }

    /// The label value.
    pub fn encode(&self) -> (s: String)
        ensures
            s@ == self.label(),
    {
        match self {
            RequestProtocol::tcp => "tcp".to_owned(),
            RequestProtocol::http => "http".to_owned(),
        }
    }
}

impl ResponseFlags {
    /// The label value.
    pub open spec fn label(self) -> Seq<char> {
        match self {
            ResponseFlags::NoFlag => "-"@,
            ResponseFlags::AuthorizationPolicyDenied => "DENY"@,
        }
    }

    /// The label value.
    pub fn encode(&self) -> (s: String)
        ensures
            s@ == self.label(),
    {
        match self {
            ResponseFlags::NoFlag => "-".to_owned(),
            ResponseFlags::AuthorizationPolicyDenied => "DENY".to_owned(),
        }
    }
}

impl SecurityPolicy {
    /// The label value.
    pub open spec fn label(self) -> Seq<char> {
        match self {
            SecurityPolicy::unknown => "unknown"@,
            SecurityPolicy::mutual_tls => "mutual_tls"@,
        }
    }

    /// The label value.
    pub fn encode(&self) -> (s: String)
        ensures
            s@ == self.label(),
    {
        match self {
            SecurityPolicy::unknown => "unknown".to_owned(),
            SecurityPolicy::mutual_tls => "mutual_tls".to_owned(),
        }
    }
}

/// What a connection itself tells of a workload.
#[derive(Debug)]
pub struct DerivedWorkload {
    pub workload_name: Option<String>,
    pub app: Option<String>,
    pub revision: Option<String>,
    pub namespace: Option<String>,
    pub identity: Option<Identity>,
    pub cluster_id: Option<String>,
}

impl Default for DerivedWorkload {
    fn default() -> (r: Self)
        ensures
            r.workload_name is None,
            r.app is None,
            r.revision is None,
            r.namespace is None,
            r.identity is None,
            r.cluster_id is None,
    {
        DerivedWorkload {
            workload_name: None,
            app: None,
            revision: None,
            namespace: None,
            identity: None,
            cluster_id: None,
        }
    }
}

impl Clone for DerivedWorkload {
    fn clone(&self) -> (r: Self)
        ensures
            r == *self,
    {
        DerivedWorkload {
            workload_name: self.workload_name.clone(),
            app: self.app.clone(),
            revision: self.revision.clone(),
            namespace: self.namespace.clone(),
            identity: self.identity.clone(),
            cluster_id: self.cluster_id.clone(),
        }
    }
}

/// A connection that was opened.
#[derive(Debug)]
pub struct ConnectionOpen {
    pub reporter: Reporter,
    pub source: Option<Workload>,
    pub derived_source: Option<DerivedWorkload>,
    pub destination: Option<Workload>,
    pub destination_service: Option<ServiceDescription>,
    pub connection_security_policy: SecurityPolicy,
}

impl Clone for ConnectionOpen {
    fn clone(&self) -> (r: Self)
        ensures
            r.reporter == self.reporter,
            workload_view(r.source) == workload_view(self.source),
            r.derived_source == self.derived_source,
            workload_view(r.destination) == workload_view(self.destination),
            r.destination_service == self.destination_service,
            r.connection_security_policy == self.connection_security_policy,
    {
        ConnectionOpen {
            reporter: self.reporter,
            source: self.source.clone(),
            derived_source: self.derived_source.clone(),
            destination: self.destination.clone(),
            destination_service: self.destination_service.clone(),
            connection_security_policy: self.connection_security_policy,
        }
    }
}

/// The labels that one end of a connection has.
#[derive(Debug, PartialEq, Eq, Hash)]
pub struct PeerLabels {
    workload: DefaultedUnknown<String>,
    canonical_service: DefaultedUnknown<String>,
    canonical_revision: DefaultedUnknown<String>,
    workload_namespace: DefaultedUnknown<String>,
    principal: DefaultedUnknown<Identity>,
    app: DefaultedUnknown<String>,
    version: DefaultedUnknown<String>,
    cluster: DefaultedUnknown<String>,
}

/// What [`PeerLabels`] say.
#[verifier::ext_equal]
pub struct PeerView {
    pub workload: Option<Seq<char>>,
    pub canonical_service: Option<Seq<char>>,
    pub canonical_revision: Option<Seq<char>>,
    pub workload_namespace: Option<Seq<char>>,
    pub principal: Option<IdentityView>,
    pub app: Option<Seq<char>>,
    pub version: Option<Seq<char>>,
    pub cluster: Option<Seq<char>>,
}

impl View for PeerLabels {
    type V = PeerView;

    closed spec fn view(&self) -> PeerView {
        PeerView {
            workload: self.workload@,
            canonical_service: self.canonical_service@,
            canonical_revision: self.canonical_revision@,
            workload_namespace: self.workload_namespace@,
            principal: self.principal@,
            app: self.app@,
            version: self.version@,
            cluster: self.cluster@,
        }
    }
}

/// What an optional identity says.
pub open spec fn identity_view(id: Option<Identity>) -> Option<IdentityView> {
    match id {
        Some(id) => Some(id@),
        None => None,
    }
}

/// The text of an optional identity.
pub open spec fn principal_text(id: Option<IdentityView>) -> Option<Seq<char>> {
    match id {
        Some(id) => Some(id.text()),
        None => None,
    }
}

impl Clone for PeerLabels {
    fn clone(&self) -> (r: Self)
        ensures
            r == *self,
    {
        PeerLabels {
            workload: self.workload.clone(),
            canonical_service: self.canonical_service.clone(),
            canonical_revision: self.canonical_revision.clone(),
            workload_namespace: self.workload_namespace.clone(),
            principal: self.principal.clone(),
            app: self.app.clone(),
            version: self.version.clone(),
            cluster: self.cluster.clone(),
        }
    }
}

impl PeerView {
    /// Nothing is known.
    pub open spec fn unknown() -> PeerView {
        PeerView {
            workload: None,
            canonical_service: None,
            canonical_revision: None,
            workload_namespace: None,
            principal: None,
            app: None,
            version: None,
            cluster: None,
        }
    }

    /// What is known of a workload.
    pub open spec fn of_workload(w: WorkloadView) -> PeerView {
        PeerView {
            workload: known(w.workload_name),
            canonical_service: known(w.canonical_name),
            canonical_revision: known(w.canonical_revision),
            workload_namespace: known(w.namespace),
            principal: Some(w.identity()),
            app: known(w.canonical_name),
            version: known(w.canonical_revision),
            cluster: known(w.cluster_id),
        }
    }

    /// What is known from the connection itself.
    pub open spec fn of_derived(w: DerivedWorkload) -> PeerView {
        PeerView {
            workload: text_view(w.workload_name),
            canonical_service: text_view(w.app),
            canonical_revision: text_view(w.revision),
            workload_namespace: text_view(w.namespace),
            principal: identity_view(w.identity),
            app: text_view(w.workload_name),
            version: text_view(w.revision),
            cluster: text_view(w.cluster_id),
        }
    }

    /// The labels as names and values; the names start with `prefix`.
    pub open spec fn labels(self, prefix: Seq<char>) -> LabelSetView {
        seq![
            (prefix + "_workload"@, LabelValueView::of_text(self.workload)),
            (prefix + "_canonical_service"@, LabelValueView::of_text(self.canonical_service)),
            (prefix + "_canonical_revision"@, LabelValueView::of_text(self.canonical_revision)),
            (prefix + "_workload_namespace"@, LabelValueView::of_text(self.workload_namespace)),
            (prefix + "_principal"@, LabelValueView::of_identity(self.principal)),
            (prefix + "_app"@, LabelValueView::of_text(self.app)),
            (prefix + "_version"@, LabelValueView::of_text(self.version)),
            (prefix + "_cluster"@, LabelValueView::of_text(self.cluster)),
        ]
    }
}

/// A copy of an optional identity.
fn clone_identity(id: &Option<Identity>) -> (r: Option<Identity>)
    ensures
        identity_view(r) == identity_view(*id),
{
    match id {
        Some(id) => Some(id.clone()),
        None => None,
    }
}

impl PeerLabels {
    /// Nothing is known.
    pub fn unknown() -> (r: Self)
        ensures
            r@ == PeerView::unknown(),
    {
        PeerLabels {
            workload: DefaultedUnknown::unknown(),
            canonical_service: DefaultedUnknown::unknown(),
            canonical_revision: DefaultedUnknown::unknown(),
            workload_namespace: DefaultedUnknown::unknown(),
            principal: DefaultedUnknown::unknown(),
            app: DefaultedUnknown::unknown(),
            version: DefaultedUnknown::unknown(),
            cluster: DefaultedUnknown::unknown(),
        }
    }

    /// What is known of a workload.
    pub fn of_workload(w: &Workload) -> (r: Self)
        ensures
            r@ == PeerView::of_workload(w@),
    {
        PeerLabels {
            workload: DefaultedUnknown::from_text(&w.workload_name),
            canonical_service: DefaultedUnknown::from_text(&w.canonical_name),
            canonical_revision: DefaultedUnknown::from_text(&w.canonical_revision),
            workload_namespace: DefaultedUnknown::from_text(&w.namespace),
            principal: DefaultedUnknown::value(w.identity()),
            app: DefaultedUnknown::from_text(&w.canonical_name),
            version: DefaultedUnknown::from_text(&w.canonical_revision),
            cluster: DefaultedUnknown::from_text(&w.cluster_id),
        }
    }

    /// What is known from the connection itself.
    pub fn of_derived(w: &DerivedWorkload) -> (r: Self)
        ensures
            r@ == PeerView::of_derived(*w),
    {
        PeerLabels {
            workload: DefaultedUnknown::from_option(&w.workload_name),
            canonical_service: DefaultedUnknown::from_option(&w.app),
            canonical_revision: DefaultedUnknown::from_option(&w.revision),
            workload_namespace: DefaultedUnknown::from_option(&w.namespace),
            principal: DefaultedUnknown(clone_identity(&w.identity)),
            app: DefaultedUnknown::from_option(&w.workload_name),
            version: DefaultedUnknown::from_option(&w.revision),
            cluster: DefaultedUnknown::from_option(&w.cluster_id),
        }
    }

    /// The canonical service, if known.
    pub fn canonical_service(&self) -> (r: Option<String>)
        ensures
            text_view(r) == self@.canonical_service,
    {
        self.canonical_service.inner()
    }

    /// The namespace, if known.
    pub fn workload_namespace(&self) -> (r: Option<String>)
        ensures
            text_view(r) == self@.workload_namespace,
    {
        self.workload_namespace.inner()
    }

    /// The identity as text, if known.
    pub fn principal(&self) -> (r: Option<String>)
        ensures
            text_view(r) == principal_text(self@.principal),
    {
        match &self.principal.0 {
            Some(id) => Some(id.to_text()),
            None => None,
        }
    }

    /// Appends the labels to `out`; their names start with `prefix`.
    fn encode_to(&self, prefix: &str, out: &mut LabelSet)
        ensures
            label_views(final(out)@) == label_views(old(out)@) + self@.labels(prefix@),
    {
        let ghost before = label_views(out@);
        push_label(out, prefix, "_workload", self.workload.to_label());
        push_label(out, prefix, "_canonical_service", self.canonical_service.to_label());
        push_label(out, prefix, "_canonical_revision", self.canonical_revision.to_label());
        push_label(out, prefix, "_workload_namespace", self.workload_namespace.to_label());
        push_label(out, prefix, "_principal", self.principal.to_label());
        push_label(out, prefix, "_app", self.app.to_label());
        push_label(out, prefix, "_version", self.version.to_label());
        push_label(out, prefix, "_cluster", self.cluster.to_label());
        assert(label_views(out@) =~= before + self@.labels(prefix@));
    }
}

/// Appends one label to `out`; its name is `prefix` and `name`.
fn push_label(out: &mut LabelSet, prefix: &str, name: &str, value: LabelValue)
    ensures
        label_views(final(out)@) == label_views(old(out)@).push((prefix@ + name@, value@)),
{
    let ghost before = label_views(out@);
    let name = prefix.to_owned().concat(name);
    out.push((name, ShownLabel::new(value)));
    assert(label_views(out@) =~= before.push((name@, value@)));
}

/// The labels of a TCP connection.
#[derive(Debug, PartialEq, Eq, Hash)]
pub struct CommonTrafficLabels {
    reporter: Reporter,
    source: PeerLabels,
    destination_service: DefaultedUnknown<String>,
    destination_service_namespace: DefaultedUnknown<String>,
    destination_service_name: DefaultedUnknown<String>,
    destination: PeerLabels,
    request_protocol: RequestProtocol,
    response_flags: ResponseFlags,
    connection_security_policy: SecurityPolicy,
}

/// What [`CommonTrafficLabels`] say.
#[verifier::ext_equal]
pub struct TrafficView {
    pub reporter: Reporter,
    pub source: PeerView,
    pub destination_service: Option<Seq<char>>,
    pub destination_service_namespace: Option<Seq<char>>,
    pub destination_service_name: Option<Seq<char>>,
    pub destination: PeerView,
    pub request_protocol: RequestProtocol,
    pub response_flags: ResponseFlags,
    pub connection_security_policy: SecurityPolicy,
}

impl View for CommonTrafficLabels {
    type V = TrafficView;

    closed spec fn view(&self) -> TrafficView {
        TrafficView {
            reporter: self.reporter,
            source: self.source@,
            destination_service: self.destination_service@,
            destination_service_namespace: self.destination_service_namespace@,
            destination_service_name: self.destination_service_name@,
            destination: self.destination@,
            request_protocol: self.request_protocol,
            response_flags: self.response_flags,
            connection_security_policy: self.connection_security_policy,
        }
    }
}

impl Clone for CommonTrafficLabels {
    fn clone(&self) -> (r: Self)
        ensures
            r == *self,
    {
        CommonTrafficLabels {
            reporter: self.reporter,
            source: self.source.clone(),
            destination_service: self.destination_service.clone(),
            destination_service_namespace: self.destination_service_namespace.clone(),
            destination_service_name: self.destination_service_name.clone(),
            destination: self.destination.clone(),
            request_protocol: self.request_protocol,
            response_flags: self.response_flags,
            connection_security_policy: self.connection_security_policy,
        }
    }
}

impl Default for CommonTrafficLabels {
    fn default() -> (r: Self)
        ensures
            r@ == TrafficView::unknown(),
    {
        CommonTrafficLabels {
            reporter: Reporter::default(),
            source: PeerLabels::unknown(),
            destination_service: DefaultedUnknown::unknown(),
            destination_service_namespace: DefaultedUnknown::unknown(),
            destination_service_name: DefaultedUnknown::unknown(),
            destination: PeerLabels::unknown(),
            request_protocol: RequestProtocol::default(),
            response_flags: ResponseFlags::default(),
            connection_security_policy: SecurityPolicy::default(),
        }
    }
}

impl TrafficView {
    /// Nothing is known.
    pub open spec fn unknown() -> TrafficView {
        TrafficView {
            reporter: Reporter::source,
            source: PeerView::unknown(),
            destination_service: None,
            destination_service_namespace: None,
            destination_service_name: None,
            destination: PeerView::unknown(),
            request_protocol: RequestProtocol::tcp,
            response_flags: ResponseFlags::NoFlag,
            connection_security_policy: SecurityPolicy::unknown,
        }
    }

    /// With the source a workload, if one is given.
    pub open spec fn with_source(self, w: Option<WorkloadView>) -> TrafficView {
        match w {
            Some(w) => TrafficView { source: PeerView::of_workload(w), ..self },
            None => self,
        }
    }

    /// With the source derived from the connection, if one is given.
    pub open spec fn with_derived_source(self, w: Option<DerivedWorkload>) -> TrafficView {
        match w {
            Some(w) => TrafficView { source: PeerView::of_derived(w), ..self },
            None => self,
        }
    }

    /// With the destination a workload, if one is given.
    pub open spec fn with_destination(self, w: Option<WorkloadView>) -> TrafficView {
        match w {
            Some(w) => TrafficView { destination: PeerView::of_workload(w), ..self },
            None => self,
        }
    }

    /// With the destination a service, if one is given.
    pub open spec fn with_destination_service(self, s: Option<ServiceView>) -> TrafficView {
        match s {
            Some(s) => TrafficView {
                destination_service: known(s.hostname),
                destination_service_name: known(s.name),
                destination_service_namespace: known(s.namespace),
                ..self
            },
            None => self,
        }
    }

    /// The labels of a connection that was opened. What is known of the source workload
    /// counts for more than what the connection tells of it.
    pub open spec fn of_connection(c: ConnectionOpen) -> TrafficView {
        TrafficView {
            reporter: c.reporter,
            connection_security_policy: c.connection_security_policy,
            ..TrafficView::unknown().with_derived_source(c.derived_source).with_source(
                workload_view(c.source),
            ).with_destination(workload_view(c.destination)).with_destination_service(
                service_view(c.destination_service),
            )
        }
    }

    /// The labels as names and values.
    pub open spec fn labels(self) -> LabelSetView {
        seq![("reporter"@, LabelValueView::Text(self.reporter.label()))] + self.source.labels(
            "source"@,
        ) + seq![
            ("destination_service"@, LabelValueView::of_text(self.destination_service)),
            (
                "destination_service_namespace"@,
                LabelValueView::of_text(self.destination_service_namespace),
            ),
            ("destination_service_name"@, LabelValueView::of_text(self.destination_service_name)),
        ] + self.destination.labels("destination"@) + seq![
            ("request_protocol"@, LabelValueView::Text(self.request_protocol.label())),
            ("response_flags"@, LabelValueView::Text(self.response_flags.label())),
            (
                "connection_security_policy"@,
                LabelValueView::Text(self.connection_security_policy.label()),
            ),
        ]
    }
}

impl CommonTrafficLabels {
    /// Nothing is known.
    pub fn new() -> (r: Self)
        ensures
            r@ == TrafficView::unknown(),
    {
        CommonTrafficLabels::default()
    }

    /// With the source a workload, if one is given.
    pub fn with_source(self, w: Option<&Workload>) -> (r: Self)
        ensures
            r@ == self@.with_source(
                match w {
                    Some(w) => Some(w@),
                    None => None,
                },
            ),
    {
        match w {
            Some(w) => CommonTrafficLabels { source: PeerLabels::of_workload(w), ..self },
            None => self,
        }
    }

    /// With the source derived from the connection, if one is given.
    pub fn with_derived_source(self, w: Option<&DerivedWorkload>) -> (r: Self)
        ensures
            r@ == self@.with_derived_source(
                match w {
                    Some(w) => Some(*w),
                    None => None,
                },
            ),
    {
        match w {
            Some(w) => CommonTrafficLabels { source: PeerLabels::of_derived(w), ..self },
            None => self,
        }
    }

    /// With the destination a workload, if one is given.
    pub fn with_destination(self, w: Option<&Workload>) -> (r: Self)
        ensures
            r@ == self@.with_destination(
                match w {
                    Some(w) => Some(w@),
                    None => None,
                },
            ),
    {
        match w {
            Some(w) => CommonTrafficLabels { destination: PeerLabels::of_workload(w), ..self },
            None => self,
        }
    }

    /// With the destination a service, if one is given.
    pub fn with_destination_service(self, s: Option<&ServiceDescription>) -> (r: Self)
        ensures
            r@ == self@.with_destination_service(
                match s {
                    Some(s) => Some(s@),
                    None => None,
                },
            ),
    {
        match s {
            Some(s) => CommonTrafficLabels {
                destination_service: DefaultedUnknown::from_text(&s.hostname),
                destination_service_name: DefaultedUnknown::from_text(&s.name),
                destination_service_namespace: DefaultedUnknown::from_text(&s.namespace),
                ..self
            },
            None => self,
        }
    }

    /// The labels of a connection that was opened.
    pub fn of_connection(c: &ConnectionOpen) -> (r: Self)
        ensures
            r@ == TrafficView::of_connection(*c),
    {
        // The derived source comes first: the source itself is more reliable.
        let labels = CommonTrafficLabels::new().with_derived_source(c.derived_source.as_ref());
        let labels = labels.with_source(c.source.as_ref());
        let labels = labels.with_destination(c.destination.as_ref());
        let labels = labels.with_destination_service(c.destination_service.as_ref());
        CommonTrafficLabels {
            reporter: c.reporter,
            request_protocol: RequestProtocol::tcp,
            response_flags: ResponseFlags::NoFlag,
            connection_security_policy: c.connection_security_policy,
            ..labels
        }
    }

    /// With the given response flags.
    pub fn with_flags(self, flags: ResponseFlags) -> (r: Self)
        ensures
            r@ == (TrafficView { response_flags: flags, ..self@ }),
    {
        CommonTrafficLabels { response_flags: flags, ..self }
    }

    /// Which side reports.
    pub fn reporter(&self) -> (r: Reporter)
        ensures
            r == self@.reporter,
    {
        self.reporter
    }

    /// Whether the connection is secured by mutual TLS.
    pub fn is_mtls(&self) -> (r: bool)
        ensures
            r == (self@.connection_security_policy == SecurityPolicy::mutual_tls),
    {
        self.connection_security_policy == SecurityPolicy::mutual_tls
    }

    /// The labels of the source.
    pub fn source(&self) -> (r: &PeerLabels)
        ensures
            r@ == self@.source,
    {
        &self.source
    }

    /// The labels of the destination.
    pub fn destination(&self) -> (r: &PeerLabels)
        ensures
            r@ == self@.destination,
    {
        &self.destination
    }

    /// The destination service, if known.
    pub fn destination_service(&self) -> (r: Option<String>)
        ensures
            text_view(r) == self@.destination_service,
    {
        self.destination_service.inner()
    }

    /// The labels as names and values.
    pub fn encode(&self) -> (out: LabelSet)
        ensures
            label_views(out@) == self@.labels(),
    {
        let mut out: LabelSet = Vec::new();
        assert(label_views(out@) =~= Seq::empty());
        push_label(&mut out, "", "reporter", LabelValue::Text(self.reporter.encode()));
        self.source.encode_to("source", &mut out);
        push_label(&mut out, "", "destination_service", self.destination_service.to_label());
        push_label(
            &mut out,
            "",
            "destination_service_namespace",
            self.destination_service_namespace.to_label(),
        );
        push_label(
            &mut out,
            "",
            "destination_service_name",
            self.destination_service_name.to_label(),
        );
        self.destination.encode_to("destination", &mut out);
        let protocol = LabelValue::Text(self.request_protocol.encode());
        push_label(&mut out, "", "request_protocol", protocol);
        push_label(&mut out, "", "response_flags", LabelValue::Text(self.response_flags.encode()));
        push_label(
            &mut out,
            "",
            "connection_security_policy",
            LabelValue::Text(self.connection_security_policy.encode()),
        );
        proof {
            reveal_strlit("");
            assert forall|s: Seq<char>| #[trigger] (""@ + s) == s by {
                assert(""@ + s =~= s);
            }
            assert(label_views(out@) =~= self@.labels());
        }
        out
    }
}

impl From<ConnectionOpen> for CommonTrafficLabels {
    fn from(c: ConnectionOpen) -> (r: Self)
        ensures
            r@ == TrafficView::of_connection(c),
    {
        CommonTrafficLabels::of_connection(&c)
    }
}

impl vstd::std_specs::convert::FromSpecImpl<ConnectionOpen> for CommonTrafficLabels {
    /// The contract of `from` speaks of what the labels say, not of how they are held.
    open spec fn obeys_from_spec() -> bool {
        false
    }

    open spec fn from_spec(c: ConnectionOpen) -> Self {
        choose|r: Self| r@ == TrafficView::of_connection(c)
    }
}

/// The labels of a name that was resolved on demand.
#[derive(Debug, PartialEq, Eq, Hash)]
pub struct OnDemandDnsLabels {
    /// Who asked; nice to have.
    source: PeerLabels,
    /// Names are resolved per host, so this is the label that matters most.
    hostname: DefaultedUnknown<String>,
}

/// What [`OnDemandDnsLabels`] say.
#[verifier::ext_equal]
pub struct DnsView {
    pub source: PeerView,
    pub hostname: Option<Seq<char>>,
}

impl View for OnDemandDnsLabels {
    type V = DnsView;

    closed spec fn view(&self) -> DnsView {
        DnsView { source: self.source@, hostname: self.hostname@ }
    }
}

impl DnsView {
    /// The labels as names and values.
    pub open spec fn labels(self) -> LabelSetView {
        self.source.labels("source"@).push(("hostname"@, LabelValueView::of_text(self.hostname)))
    }
}

impl Clone for OnDemandDnsLabels {
    fn clone(&self) -> (r: Self)
        ensures
            r == *self,
    {
        OnDemandDnsLabels { source: self.source.clone(), hostname: self.hostname.clone() }
    }
}

impl Default for OnDemandDnsLabels {
    fn default() -> (r: Self)
        ensures
            r@ == (DnsView { source: PeerView::unknown(), hostname: None }),
    {
        OnDemandDnsLabels { source: PeerLabels::unknown(), hostname: DefaultedUnknown::unknown() }
    }
}

impl OnDemandDnsLabels {
    /// Nothing is known.
    pub fn new() -> (r: Self)
        ensures
            r@ == (DnsView { source: PeerView::unknown(), hostname: None }),
    {
        OnDemandDnsLabels::default()
    }

    /// With the workload that asked.
    pub fn with_source(self, w: &Workload) -> (r: Self)
        ensures
            r@ == (DnsView { source: PeerView::of_workload(w@), ..self@ }),
    {
        OnDemandDnsLabels { source: PeerLabels::of_workload(w), ..self }
    }

    /// With the workload whose host name was resolved.
    pub fn with_destination(self, w: &Workload) -> (r: Self)
        ensures
            r@ == (DnsView { hostname: known(w@.hostname), ..self@ }),
    {
        OnDemandDnsLabels { hostname: DefaultedUnknown::from_text(&w.hostname), ..self }
    }

    /// The labels as names and values.
    pub fn encode(&self) -> (out: LabelSet)
        ensures
            label_views(out@) == self@.labels(),
    {
        let mut out: LabelSet = Vec::new();
        assert(label_views(out@) =~= Seq::empty());
        self.source.encode_to("source", &mut out);
        push_label(&mut out, "", "hostname", self.hostname.to_label());
        proof {
            reveal_strlit("");
            assert(""@ + "hostname"@ =~= "hostname"@);
            assert(label_views(out@) =~= self@.labels());
        }
        out
    }
}

} // verus!
