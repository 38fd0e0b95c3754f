//! Plaintext connections that come in and are passed on to a workload of this node.

use vstd::pervasive::unreached;
use vstd::prelude::*;
use vstd::string::*;

use crate::config::Config;
use crate::identity::Identity;
use crate::net::{to_canonical, IpAddr, SocketAddr};
use crate::proxy::error::Error;
use crate::proxy::labels::{
    ConnectionOpen, DerivedWorkload, PeerView, Reporter, ResponseFlags, SecurityPolicy,
    TrafficView,
};
use crate::proxy::metrics::{
    error_view, log_early_deny, peer_name, AccessLog, CompletionLog, ConnectionResult,
    ConnectionView, EarlyDeny, Level, Metrics, MetricsView,
};
use crate::proxy::util::{is_runtime_shutdown, shutdown_message, ErrorKind, IoError};
use crate::workload::{
    service_view, workload_view, NetworkAddress, ServiceDescription, ServiceView, Workload,
    WorkloadView,
};

verus! {

/// A connection as the access rules see it.
#[derive(Debug)]
pub struct RbacConnection {
    pub src_identity: Option<Identity>,
    pub src: SocketAddr,
    pub dst_network: String,
    pub dst: SocketAddr,
}

/// How far a connection has come.
pub enum Phase {
    /// The workload at the destination is being looked up.
    Upstream,
    /// The workload at the source is being looked up.
    Source { upstream: Workload },
    /// The access rules are being asked.
    Authorize { tracker: ConnectionResult },
    /// Bytes are being passed on.
    Relay { tracker: ConnectionResult },
    /// The connection is over.
    Closed,
}

/// What a [`Phase`] says.
pub enum PhaseView {
    Upstream,
    Source { upstream: WorkloadView },
    Authorize { tracker: ConnectionView },
    Relay { tracker: ConnectionView },
    Closed,
}

impl View for Phase {
    type V = PhaseView;

    open spec fn view(&self) -> PhaseView {
        match self {
            Phase::Upstream => PhaseView::Upstream,
            Phase::Source { upstream } => PhaseView::Source { upstream: upstream@ },
            Phase::Authorize { tracker } => PhaseView::Authorize { tracker: tracker@ },
            Phase::Relay { tracker } => PhaseView::Relay { tracker: tracker@ },
            Phase::Closed => PhaseView::Closed,
        }
    }
}

/// A plaintext connection that came in. Instants are nanoseconds since a fixed origin.
pub struct PlaintextConnection {
    pub source: SocketAddr,
    pub dest: SocketAddr,
    pub start: u128,
    pub enable_orig_src: bool,
    pub network: String,
    pub phase: Phase,
}

/// What a [`PlaintextConnection`] says.
pub struct PlaintextView {
    pub source: SocketAddr,
    pub dest: SocketAddr,
    pub start: u128,
    pub enable_orig_src: bool,
    pub network: Seq<char>,
    pub phase: PhaseView,
}

impl View for PlaintextConnection {
    type V = PlaintextView;

    open spec fn view(&self) -> PlaintextView {
        PlaintextView {
            source: self.source,
            dest: self.dest,
            start: self.start,
            enable_orig_src: self.enable_orig_src,
            network: self.network@,
            phase: self.phase@,
        }
    }
}

/// What is to be done next for a connection.
pub enum Action {
    /// Log that the connection was denied; it is over.
    Deny(EarlyDeny<Error>),
    /// Look up the workload at the destination, and its services.
    FetchUpstream(NetworkAddress),
    /// Look up the workload at the source.
    FetchSource(NetworkAddress),
    /// Log that the connection was opened, and ask the access rules.
    Authorize { rbac: RbacConnection, opened: AccessLog },
    /// Connect to the destination, from the given address if there is one, and pass bytes
    /// on both ways.
    Connect { orig_src: Option<IpAddr>, dest: SocketAddr },
    /// Log how the connection ended; it is over.
    Finish(CompletionLog),
}

/// Whether an action denies a connection with `error`.
pub open spec fn denies(action: Action, conn: PlaintextView, error: Error) -> bool {
    action matches Action::Deny(entry) && entry.level == Level::Warn && entry.src_addr
        == conn.source && entry.dst_addr == conn.dest && entry.direction@
        == Reporter::destination.direction_spec() && entry.error == error && entry.message@
        == "connection failed"@
}

/// Whether an address is `ip` on the network `network`.
pub open spec fn is_address(a: NetworkAddress, network: Seq<char>, ip: IpAddr) -> bool {
    a.network@ == network && a.address == ip
}

impl PlaintextView {
    /// A connection that just came in: over if it is a call of the proxy to itself.
    pub open spec fn begun(
        cfg: Config,
        source: SocketAddr,
        dest: SocketAddr,
        start: u128,
        enable_orig_src: bool,
    ) -> PlaintextView {
        PlaintextView {
            source,
            dest,
            start,
            enable_orig_src,
            network: cfg.network@,
            phase: if cfg.illegal_call(dest) {
                PhaseView::Closed
            } else {
                PhaseView::Upstream
            },
        }
    }

    /// The connection at another point.
    pub open spec fn at(self, phase: PhaseView) -> PlaintextView {
        PlaintextView { phase, ..self }
    }

    /// What is counted and logged of the connection, once its ends are known. The source
    /// has no identity: a plaintext connection proves none.
    pub open spec fn tracker(
        self,
        source: Option<WorkloadView>,
        upstream: WorkloadView,
        service: Option<ServiceView>,
    ) -> ConnectionView {
        let labels = TrafficView {
            reporter: Reporter::destination,
            connection_security_policy: SecurityPolicy::unknown,
            ..TrafficView::unknown().with_source(source).with_destination(
                Some(upstream),
            ).with_destination_service(service)
        };
        ConnectionView {
            src: self.source,
            src_name: peer_name(source, labels.source),
            dst: self.dest,
            dst_name: peer_name(Some(upstream), labels.destination),
            hbone_target: None,
            start: self.start,
            labels,
            byte_labels: labels.labels(),
            sent: 0,
            recv: 0,
        }
    }
}

impl PlaintextView {
    /// The connection once it is known whether `found` is at the destination.
    pub open spec fn after_upstream(self, found: Option<WorkloadView>) -> PlaintextView {
        match (self.phase, found) {
            (PhaseView::Upstream, Some(upstream)) => self.at(PhaseView::Source { upstream }),
            (PhaseView::Upstream, None) => self.at(PhaseView::Closed),
            _ => self,
        }
    }

    /// The connection once its source and its service have been looked up.
    pub open spec fn after_source(
        self,
        found: Option<WorkloadView>,
        service: Option<ServiceView>,
    ) -> PlaintextView {
        match self.phase {
            PhaseView::Source { upstream } => self.at(
                PhaseView::Authorize { tracker: self.tracker(found, upstream, service) },
            ),
            _ => self,
        }
    }

    /// What has been counted once the source and the service have been looked up.
    pub open spec fn counted_source(
        self,
        found: Option<WorkloadView>,
        service: Option<ServiceView>,
        m: MetricsView,
    ) -> MetricsView {
        match self.phase {
            PhaseView::Source { upstream } => {
                let labels = self.tracker(found, upstream, service).byte_labels;
                m.opened(labels).sent(labels, 0).received(labels, 0)
            },
            _ => m,
        }
    }

    /// The connection once the access rules have allowed it or not.
    pub open spec fn after_verdict(self, allowed: bool) -> PlaintextView {
        match self.phase {
            PhaseView::Authorize { tracker } => if allowed {
                self.at(PhaseView::Relay { tracker })
            } else {
                self.at(PhaseView::Closed)
            },
            _ => self,
        }
    }

    /// What has been counted once the access rules have allowed the connection or not.
    pub open spec fn counted_verdict(self, allowed: bool, m: MetricsView) -> MetricsView {
        match self.phase {
            PhaseView::Authorize { tracker } => if allowed {
                m
            } else {
                m.closed(denied(tracker).labels.labels())
            },
            _ => m,
        }
    }

    /// The connection once `sent` bytes more were sent on it and `recv` more received.
    pub open spec fn after_bytes(self, sent: u64, recv: u64) -> PlaintextView {
        match self.phase {
            PhaseView::Relay { tracker } => self.at(
                PhaseView::Relay {
                    tracker: ConnectionView {
                        sent: tracker.sent.wrapping_add(sent),
                        recv: tracker.recv.wrapping_add(recv),
                        ..tracker
                    },
                },
            ),
            _ => self,
        }
    }

    /// The connection once passing bytes on ended.
    pub open spec fn after_end(self) -> PlaintextView {
        match self.phase {
            PhaseView::Relay { .. } => self.at(PhaseView::Closed),
            _ => self,
        }
    }

    /// What has been counted once passing bytes on ended.
    pub open spec fn counted_end(self, m: MetricsView) -> MetricsView {
        match self.phase {
            PhaseView::Relay { tracker } => m.closed(tracker.labels.labels()),
            _ => m,
        }
    }
}

/// A connection that the access rules refused.
pub open spec fn denied(tracker: ConnectionView) -> ConnectionView {
    ConnectionView {
        labels: TrafficView {
            response_flags: ResponseFlags::AuthorizationPolicyDenied,
            ..tracker.labels
        },
        ..tracker
    }
}

impl PlaintextConnection {
    /// Takes a connection in. A call of the proxy to itself is denied: it could reach
    /// addresses that are off limits, or go on forever.
    pub fn begin(
        cfg: &Config,
        source: SocketAddr,
        dest: SocketAddr,
        start: u128,
        enable_orig_src: bool,
    ) -> (r: (PlaintextConnection, Action))
        ensures
            r.0@ == PlaintextView::begun(*cfg, source, dest, start, enable_orig_src),
            if cfg.illegal_call(dest) {
                denies(r.1, r.0@, Error::SelfCall)
            } else {
                r.1 matches Action::FetchUpstream(a) && is_address(a, cfg.network@, dest.ip)
            },
    {
        let illegal = cfg.is_illegal_call(dest);
        let conn = PlaintextConnection {
            source,
            dest,
            start,
            enable_orig_src,
            network: cfg.network.clone(),
            phase: if illegal {
                Phase::Closed
            } else {
                Phase::Upstream
            },
        };
        let action = if illegal {
            Action::Deny(log_early_deny(source, dest, Reporter::destination, Error::SelfCall))
        } else {
            // What comes in is on the proxy's own network.
            Action::FetchUpstream(
                NetworkAddress { network: cfg.network.clone(), address: dest.ip },
            )
        };
        (conn, action)
    }

    /// Goes on with the workload at the destination. Without one the connection is denied.
    pub fn upstream(self, found: Option<Workload>) -> (r: (PlaintextConnection, Action))
        requires
            self@.phase is Upstream,
        ensures
            r.0@ == self@.after_upstream(workload_view(found)),
            if found is Some {
                r.1 matches Action::FetchSource(a) && is_address(
                    a,
                    self@.network,
                    self@.source.ip,
                )
            } else {
                denies(r.1, self@, Error::UnknownDestination(self@.dest.ip))
            },
    {
        match found {
            Some(upstream) => {
                // Without a gateway in between, the source is on the proxy's own network.
                let action = Action::FetchSource(
                    NetworkAddress { network: self.network.clone(), address: self.source.ip },
                );
                (PlaintextConnection { phase: Phase::Source { upstream }, ..self }, action)
            },
            None => {
                let action = Action::Deny(
                    log_early_deny(
                        self.source,
                        self.dest,
                        Reporter::destination,
                        Error::UnknownDestination(self.dest.ip),
                    ),
                );
                (PlaintextConnection { phase: Phase::Closed, ..self }, action)
            },
        }
    }

    /// Goes on with the workload at the source, if it is known, and the service that the
    /// connection is for, if one was found. From here on the connection is counted.
    pub fn source(
        self,
        found: Option<Workload>,
        service: Option<ServiceDescription>,
        metrics: &mut Metrics,
    ) -> (r: (PlaintextConnection, Action))
        requires
            self@.phase is Source,
        ensures
            r.0@ == self@.after_source(workload_view(found), service_view(service)),
            final(metrics)@ == self@.counted_source(
                workload_view(found),
                service_view(service),
                old(metrics)@,
            ),
            r.1 matches Action::Authorize { rbac, opened } && rbac.src_identity is None && rbac.src
                == self@.source && rbac.dst_network@ == self@.network && rbac.dst == self@.dest
                && opened@ == r.0@.phase->Authorize_tracker.access(
                Level::Debug,
                "connection opened"@,
            ),
            r.1 matches Action::Authorize { rbac, opened } ==> {
                &&& opened.src_addr == self.source
                &&& opened.dst_addr == self.dest
                &&& opened.src_workload is Some == found is Some
                &&& found is Some ==> opened.src_workload->0@ == found->0.name@
                &&& opened.src_namespace is Some == (found is Some && found->0.namespace@.len()
                    > 0)
                &&& opened.src_namespace is Some ==> opened.src_namespace->0@
                    == found->0.namespace@
            },
    {
        let upstream = match self.phase {
            Phase::Source { upstream } => upstream,
            _ => unreached(),
        };
        let rbac = RbacConnection {
            src_identity: None,
            src: self.source,
            dst_network: self.network.clone(),
            dst: self.dest,
        };
        let derived = DerivedWorkload { identity: None, ..DerivedWorkload::default() };
        let open = ConnectionOpen {
            reporter: Reporter::destination,
            source: found,
            derived_source: Some(derived),
            destination: Some(upstream),
            connection_security_policy: SecurityPolicy::unknown,
            destination_service: service,
        };
        assert(PeerView::of_derived(derived) == PeerView::unknown());
        let (tracker, opened) = ConnectionResult::new(
            self.source,
            self.dest,
            None,
            self.start,
            open,
            metrics,
        );
        (
            PlaintextConnection {
                source: self.source,
                dest: self.dest,
                start: self.start,
                enable_orig_src: self.enable_orig_src,
                network: self.network,
                phase: Phase::Authorize { tracker },
            },
            Action::Authorize { rbac, opened },
        )
    }

    /// Goes on with the verdict of the access rules: a refusal is counted and logged as such;
    /// otherwise the destination is connected to.
    pub fn authorized(
        self,
        verdict: Result<(), String>,
        now: u128,
        metrics: &mut Metrics,
    ) -> (r: (PlaintextConnection, Action))
        requires
            self@.phase is Authorize,
        ensures
            r.0@ == self@.after_verdict(verdict is Ok),
            final(metrics)@ == self@.counted_verdict(verdict is Ok, old(metrics)@),
            match verdict {
                Ok(_) => r.1 matches Action::Connect { orig_src, dest } && dest == self@.dest
                    && orig_src == (if self@.enable_orig_src {
                    Some(self@.source.ip)
                } else {
                    None
                }),
                Err(e) => r.1 matches Action::Finish(log) && log@ == denied(
                    self@.phase->Authorize_tracker,
                ).completion(now, Some(e@)),
            },
    {
        let tracker = match self.phase {
            Phase::Authorize { tracker } => tracker,
            _ => unreached(),
        };
        let orig_src = if self.enable_orig_src {
            Some(self.source.ip)
        } else {
            None
        };
        let (phase, action) = match verdict {
            Ok(_) => (Phase::Relay { tracker }, Action::Connect { orig_src, dest: self.dest }),
            Err(e) => {
                let log = tracker.record_with_flag(
                    Err(e),
                    ResponseFlags::AuthorizationPolicyDenied,
                    now,
                    metrics,
                );
                (Phase::Closed, Action::Finish(log))
            },
        };
        (
            PlaintextConnection {
                source: self.source,
                dest: self.dest,
                start: self.start,
                enable_orig_src: self.enable_orig_src,
                network: self.network,
                phase,
            },
            action,
        )
    }

    /// Counts bytes that were sent.
    pub fn sent(&mut self, n: u64, metrics: &mut Metrics)
        requires
            old(self)@.phase is Relay,
        ensures
            final(self)@ == old(self)@.after_bytes(n, 0),
            final(metrics)@ == old(metrics)@.sent(old(self)@.phase->Relay_tracker.byte_labels, n),
    {
        match &mut self.phase {
            Phase::Relay { tracker } => tracker.increment_send(n, metrics),
            _ => unreached(),
        }
    }

    /// Counts bytes that were received.
    pub fn received(&mut self, n: u64, metrics: &mut Metrics)
        requires
            old(self)@.phase is Relay,
        ensures
            final(self)@ == old(self)@.after_bytes(0, n),
            final(metrics)@ == old(metrics)@.received(
                old(self)@.phase->Relay_tracker.byte_labels,
                n,
            ),
    {
        match &mut self.phase {
            Phase::Relay { tracker } => tracker.increment_recv(n, metrics),
            _ => unreached(),
        }
    }

    /// Counts and logs how passing bytes on ended.
    pub fn finished(self, res: Result<(), String>, now: u128, metrics: &mut Metrics) -> (r: (
        PlaintextConnection,
        Action,
    ))
        requires
            self@.phase is Relay,
        ensures
            r.0@ == self@.after_end(),
            final(metrics)@ == self@.counted_end(old(metrics)@),
            r.1 matches Action::Finish(log) && log@ == self@.phase->Relay_tracker.completion(
                now,
                error_view(res),
            ),
    {
        let log = match &self.phase {
            Phase::Relay { tracker } => tracker.record(res, now, metrics),
            _ => unreached(),
        };
        (PlaintextConnection { phase: Phase::Closed, ..self }, Action::Finish(log))
    }
}

/// Whether connections are still taken in.
#[derive(Clone, Copy, Debug, PartialEq, Eq, Structural)]
pub enum AcceptState {
    /// Connections are taken in.
    Accepting,
    /// No more connections are taken in; those there are may finish.
    Draining,
    /// It is over.
    Stopped,
}

/// What to do after taking a connection in failed.
#[derive(Clone, Copy, Debug, PartialEq, Eq, Structural)]
pub enum AcceptFailure {
    /// The runtime is shutting down: stop.
    Stop,
    /// Log the failure and go on.
    Log,
}

/// How draining ended: all connections that are left are told to stop in any case.
#[derive(Clone, Copy, Debug, PartialEq, Eq, Structural)]
pub struct DrainEnd {
    /// Connections were still open when the time was up.
    pub expired: bool,
    /// Connections that are still open have to stop now.
    pub force_shutdown: bool,
}

/// Takes connections in until it is told to drain.
pub struct InboundPassthrough {
    pub state: AcceptState,
    /// Connections that have not finished.
    pub open: u64,
    /// How long connections may take to finish once draining starts, in nanoseconds.
    pub deadline: u128,
    /// Whether connections keep the source address of the client.
    pub enable_orig_src: bool,
}

impl InboundPassthrough {
    /// With one more connection.
    pub open spec fn after_accept(self) -> InboundPassthrough {
        InboundPassthrough { open: (self.open + 1) as u64, ..self }
    }

    /// After taking a connection in failed: over if the runtime is shutting down.
    pub open spec fn after_failure(self, shutdown: bool) -> InboundPassthrough {
        if shutdown {
            InboundPassthrough { state: AcceptState::Stopped, ..self }
        } else {
            self
        }
    }

    /// With one connection less.
    pub open spec fn after_done(self) -> InboundPassthrough {
        InboundPassthrough { open: (self.open - 1) as u64, ..self }
    }

    /// Draining.
    pub open spec fn after_drain(self) -> InboundPassthrough {
        InboundPassthrough { state: AcceptState::Draining, ..self }
    }

    /// Over.
    pub open spec fn after_drained(self) -> InboundPassthrough {
        InboundPassthrough { state: AcceptState::Stopped, ..self }
    }

    /// Whether draining is over when it has lasted for `elapsed`: all connections finished, or
    /// they have had the time that they may take.
    pub open spec fn may_stop(self, elapsed: u128) -> bool {
        self.state == AcceptState::Draining && (self.open == 0 || elapsed >= self.deadline)
    }

    /// Whether one step leads to `next`.
    pub open spec fn steps_to(self, next: InboundPassthrough) -> bool {
        ||| self.state == AcceptState::Accepting && self.open < u64::MAX && next
            == self.after_accept()
        ||| self.state == AcceptState::Accepting && exists|shutdown: bool|
            next == #[trigger] self.after_failure(shutdown)
        ||| self.open > 0 && next == self.after_done()
        ||| self.state == AcceptState::Accepting && next == self.after_drain()
        ||| exists|elapsed: u128| #[trigger] self.may_stop(elapsed) && next == self.after_drained()
    }

    /// Ready to take connections in, where the listener was `bound` and it is known whether
    /// connections can keep the source address of the client. Either failure is handed on,
    /// that of the binding first.
    pub fn new(
        cfg: &Config,
        bound: Result<(), String>,
        transparent: Result<bool, Error>,
    ) -> (r: Result<InboundPassthrough, Error>)
        ensures
            r == match (bound, transparent) {
                (Err(e), _) => Err(Error::Bind(cfg.inbound_plaintext_addr, e)),
                (Ok(_), Err(e)) => Err(e),
                (Ok(_), Ok(enable_orig_src)) => Ok::<InboundPassthrough, Error>(
                    InboundPassthrough {
                        state: AcceptState::Accepting,
                        open: 0,
                        deadline: cfg.self_termination_deadline,
                        enable_orig_src,
                    },
                ),
            },
    {
        if let Err(e) = bound {
            return Err(Error::Bind(cfg.inbound_plaintext_addr, e));
        }
        match transparent {
            Err(e) => Err(e),
            Ok(enable_orig_src) => Ok(
                InboundPassthrough {
                    state: AcceptState::Accepting,
                    open: 0,
                    deadline: cfg.self_termination_deadline,
                    enable_orig_src,
                },
            ),
        }
    }

    /// Takes a connection from `remote` in, and gives the address under which to serve it.
    pub fn accepted(&mut self, remote: SocketAddr) -> (r: SocketAddr)
        requires
            old(self).state == AcceptState::Accepting,
            old(self).open < u64::MAX,
        ensures
            r == remote.canonical(),
            *final(self) == old(self).after_accept(),
    {
        self.open = self.open + 1;
        to_canonical(remote)
    }

    /// Says what to do after taking a connection in failed.
    pub fn accept_failed(&mut self, e: &IoError) -> (r: AcceptFailure)
        requires
            old(self).state == AcceptState::Accepting,
        ensures
            ({
                let shutdown = e.kind == ErrorKind::Other && e.message@ == shutdown_message();
                &&& r == if shutdown {
                    AcceptFailure::Stop
                } else {
                    AcceptFailure::Log
                }
                &&& *final(self) == old(self).after_failure(shutdown)
            }),
    {
        if is_runtime_shutdown(e) {
            self.state = AcceptState::Stopped;
            AcceptFailure::Stop
        } else {
            AcceptFailure::Log
        }
    }

    /// Notes that a connection finished, and says whether it was the last.
    pub fn connection_done(&mut self) -> (last: bool)
        requires
            old(self).open > 0,
        ensures
            last == (final(self).open == 0),
            *final(self) == old(self).after_done(),
    {
        self.open = self.open - 1;
        self.open == 0
    }

    /// Stops taking connections in, and gives the time that those there are may take.
    pub fn drain(&mut self) -> (deadline: u128)
        requires
            old(self).state == AcceptState::Accepting,
        ensures
            deadline == old(self).deadline,
            *final(self) == old(self).after_drain(),
    {
        self.state = AcceptState::Draining;
        self.deadline
    }

    /// Whether draining is over when it has lasted for `elapsed`.
    pub fn is_drained(&self, elapsed: u128) -> (r: bool)
        requires
            self.state == AcceptState::Draining,
        ensures
            r == self.may_stop(elapsed),
    {
        self.open == 0 || elapsed >= self.deadline
    }

    /// Ends draining after `elapsed`: all connections finished, or the time was up. What is
    /// left open is told to stop in either case.
    pub fn drained(&mut self, elapsed: u128) -> (end: DrainEnd)
        requires
            old(self).may_stop(elapsed),
        ensures
            end == (DrainEnd { expired: old(self).open > 0, force_shutdown: true }),
            end.expired ==> elapsed >= old(self).deadline,
            *final(self) == old(self).after_drained(),
    {
        self.state = AcceptState::Stopped;
        DrainEnd { expired: self.open > 0, force_shutdown: true }
    }
}

} // verus!
