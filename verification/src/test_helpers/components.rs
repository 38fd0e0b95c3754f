//! Workloads of a test mesh, and the proxy that is deployed for them.

use vstd::prelude::*;
use vstd::string::*;

use crate::assoc::AssocMap;
use crate::config::{Config, ConfigSource};
use crate::net::IpAddr;
use crate::test_helpers::app::{local_config, local_node};
use crate::text::{decimal, decimal_text, join, joined, views};
use crate::workload::{Protocol, Workload, WorkloadView};

verus! {

/// A workload with the service addresses that lead to it: for each address, the port of the
/// workload that stands behind a port of the service.
pub struct LocalWorkload {
    pub workload: Workload,
    pub vips: AssocMap<String, AssocMap<u16, u16>>,
}

/// What a [`LocalWorkload`] says.
pub struct LocalWorkloadView {
    pub workload: WorkloadView,
    pub vips: Map<Seq<char>, Map<u16, u16>>,
}

impl View for LocalWorkload {
    type V = LocalWorkloadView;

    open spec fn view(&self) -> LocalWorkloadView {
        LocalWorkloadView {
            workload: self.workload@,
            vips: self.vips@.map_values(|ports: AssocMap<u16, u16>| ports@),
        }
    }
}

impl LocalWorkload {
    /// No address and no port occurs twice.
    pub open spec fn wf(self) -> bool {
        &&& self.vips.wf()
        &&& forall|ip: Seq<char>| #[trigger]
            self.vips@.contains_key(ip) ==> self.vips@[ip].wf()
    }
}

impl LocalWorkloadView {
    /// A workload named `name`, otherwise as `base`: in the namespace and under the service
    /// account `default`, on the node `not-local`, behind no service.
    pub open spec fn named(name: Seq<char>, base: WorkloadView) -> LocalWorkloadView {
        LocalWorkloadView {
            workload: WorkloadView {
                name,
                namespace: "default"@,
                service_account: "default"@,
                node: "not-local"@,
                ..base
            },
            vips: Map::empty(),
        }
    }

    /// The workload, reached over HBONE.
    pub open spec fn with_hbone(self) -> LocalWorkloadView {
        LocalWorkloadView {
            workload: WorkloadView { protocol: Protocol::HBONE, ..self.workload },
            ..self
        }
    }

    /// The workload, with one more waypoint.
    pub open spec fn with_waypoint(self, waypoint: IpAddr) -> LocalWorkloadView {
        LocalWorkloadView {
            workload: WorkloadView {
                waypoint_addresses: self.workload.waypoint_addresses.push(waypoint),
                ..self.workload
            },
            ..self
        }
    }

    /// The ports behind the address `ip`.
    pub open spec fn ports(self, ip: Seq<char>) -> Map<u16, u16> {
        if self.vips.contains_key(ip) {
            self.vips[ip]
        } else {
            Map::empty()
        }
    }

    /// The workload, with `target_port` behind `server_port` of `ip`.
    pub open spec fn with_vip(
        self,
        ip: Seq<char>,
        server_port: u16,
        target_port: u16,
    ) -> LocalWorkloadView {
        LocalWorkloadView {
            vips: self.vips.insert(ip, self.ports(ip).insert(server_port, target_port)),
            ..self
        }
    }

    /// The workload, on the node of the proxy under test.
    pub open spec fn on_local_node(self) -> LocalWorkloadView {
        LocalWorkloadView { workload: WorkloadView { node: local_node(), ..self.workload }, ..self }
    }

    /// The workload, at the address `ip`.
    pub open spec fn at(self, ip: IpAddr) -> LocalWorkloadView {
        LocalWorkloadView {
            workload: WorkloadView { workload_ips: seq![ip], ..self.workload },
            ..self
        }
    }

    /// Whether the workload can be a waypoint at the address `ip`.
    pub open spec fn is_waypoint(self, ip: IpAddr) -> bool {
        self.workload.protocol == Protocol::HBONE && self.workload.workload_ips == seq![ip]
    }
}

/// What each of the workloads says.
pub open spec fn local_views(workloads: Seq<LocalWorkload>) -> Seq<LocalWorkloadView> {
    workloads.map_values(|w: LocalWorkload| w@)
}

/// The workloads that were set up, and the addresses of those that are waypoints.
pub struct WorkloadManager {
    workloads: Vec<LocalWorkload>,
    waypoints: Vec<IpAddr>,
}

/// What a [`WorkloadManager`] holds.
#[verifier::ext_equal]
pub struct ManagerView {
    pub workloads: Seq<LocalWorkloadView>,
    pub waypoints: Seq<IpAddr>,
}

impl View for WorkloadManager {
    type V = ManagerView;

    closed spec fn view(&self) -> ManagerView {
        ManagerView { workloads: local_views(self.workloads@), waypoints: self.waypoints@ }
    }
}

impl ManagerView {
    /// Whether some workload is a waypoint at the address `ip`.
    pub open spec fn has_waypoint(self, ip: IpAddr) -> bool {
        exists|j: int|
            0 <= j < self.workloads.len() && (#[trigger] self.workloads[j]).is_waypoint(ip)
    }

    /// Every waypoint is a workload that is reached over HBONE.
    pub open spec fn waypoints_are_workloads(self) -> bool {
        forall|i: int|
            0 <= i < self.waypoints.len() ==> self.has_waypoint(#[trigger] self.waypoints[i])
    }

    /// The address of the proxy's own workload, where that is the one set up last.
    pub open spec fn proxy_ip(self) -> Option<IpAddr> {
        if self.workloads.len() > 0 && self.workloads.last().workload.name == "ztunnel"@
            && self.workloads.last().workload.workload_ips.len() == 1 {
            Some(self.workloads.last().workload.workload_ips[0])
        } else {
            None
        }
    }

    /// The addresses of the waypoints as text, where `v6` are the texts of those that are
    /// IPv6 addresses.
    pub open spec fn waypoint_texts(self, v6: Seq<Seq<char>>) -> Seq<Seq<char>> {
        Seq::new(self.waypoints.len(), |i: int| self.waypoints[i].text(v6[i]))
    }

    /// With one more workload.
    pub open spec fn with_workload(self, w: LocalWorkloadView) -> ManagerView {
        ManagerView { workloads: self.workloads.push(w), ..self }
    }

    /// With one more waypoint.
    pub open spec fn with_waypoint(self, ip: IpAddr) -> ManagerView {
        ManagerView { waypoints: self.waypoints.push(ip), ..self }
    }
}

/// A workload that is being set up.
pub struct TestWorkloadBuilder<'a> {
    pub w: LocalWorkload,
    /// Where it will be registered.
    pub manager: &'a mut WorkloadManager,
}

impl<'a> View for TestWorkloadBuilder<'a> {
    type V = LocalWorkloadView;

    open spec fn view(&self) -> LocalWorkloadView {
        self.w@
    }
}

impl<'a> TestWorkloadBuilder<'a> {
    /// No address and no port occurs twice.
    pub open spec fn wf(self) -> bool {
        self.w.wf()
    }

    /// A workload named `name`, otherwise as `base`.
    pub fn new(name: &str, base: Workload, manager: &'a mut WorkloadManager) -> (r:
        TestWorkloadBuilder<'a>)
        ensures
            r.wf(),
            r@ == LocalWorkloadView::named(name@, base@),
            *r.manager == *old(manager),
            *final(manager) == *final(r.manager),
    {
        let vips: AssocMap<String, AssocMap<u16, u16>> = AssocMap::new();
        let r = TestWorkloadBuilder {
            w: LocalWorkload {
                workload: Workload {
                    name: name.to_owned(),
                    namespace: "default".to_owned(),
                    service_account: "default".to_owned(),
                    node: "not-local".to_owned(),
                    ..base
                },
                vips,
            },
            manager,
        };
        assert(r@.vips =~= Map::<Seq<char>, Map<u16, u16>>::empty());
        r
    }

    /// The name of the workload.
    pub fn name(&self) -> (r: &str)
        ensures
            r@ == self@.workload.name,
    {
        self.w.workload.name.as_str()
    }

    /// The workload, reached over HBONE.
    pub fn hbone(self) -> (r: Self)
        requires
            self.wf(),
        ensures
            r.wf(),
            r@ == self@.with_hbone(),
            *r.manager == *old(self.manager),
            *final(r.manager) == *final(self.manager),
    {
        let mut w = self.w;
        w.workload.protocol = Protocol::HBONE;
        TestWorkloadBuilder { w, manager: self.manager }
    }

    /// The workload, with one more waypoint.
    pub fn waypoint(self, waypoint: IpAddr) -> (r: Self)
        requires
            self.wf(),
        ensures
            r.wf(),
            r@ == self@.with_waypoint(waypoint),
            *r.manager == *old(self.manager),
            *final(r.manager) == *final(self.manager),
    {
        let mut w = self.w;
        w.workload.waypoint_addresses.push(waypoint);
        TestWorkloadBuilder { w, manager: self.manager }
    }

    /// The workload, with `target_port` behind `server_port` of `ip`. A port that stood
    /// there before no longer does.
    pub fn vip(self, ip: &str, server_port: u16, target_port: u16) -> (r: Self)
        requires
            self.wf(),
        ensures
            r.wf(),
            r@ == self@.with_vip(ip@, server_port, target_port),
            *r.manager == *old(self.manager),
            *final(r.manager) == *final(self.manager),
    {
        let ghost before = self.w;
        let mut w = self.w;
        let key = ip.to_owned();
        let mut ports: AssocMap<u16, u16> = match w.vips.remove(&key) {
            Some(ports) => ports,
            None => AssocMap::new(),
        };
        assert(before.vips@.contains_key(ip@) ==> ports == before.vips@[ip@]);
        assert(ports@ == before@.ports(ip@));
        ports.insert(server_port, target_port);
        w.vips.insert(key, ports);
        assert(w@.vips =~= before@.with_vip(ip@, server_port, target_port).vips);
        TestWorkloadBuilder { w, manager: self.manager }
    }

    /// The workload, on the node of the proxy under test.
    pub fn on_local_node(self) -> (r: Self)
        requires
            self.wf(),
        ensures
            r.wf(),
            r@ == self@.on_local_node(),
            *r.manager == *old(self.manager),
            *final(r.manager) == *final(self.manager),
    {
        let mut w = self.w;
        w.workload.node = "local".to_owned();
        TestWorkloadBuilder { w, manager: self.manager }
    }

    /// Sets the workload up at `ip`, the address of the network namespace made for it.
    pub fn register(self, ip: IpAddr)
        requires
            self.wf(),
            old(self.manager).wf(),
        ensures
            final(self.manager).wf(),
            final(self.manager)@ == old(self.manager)@.with_workload(self@.at(ip)),
    {
        let manager = self.manager;
        let ghost before = *manager;
        let mut w = self.w;
        let mut ips: Vec<IpAddr> = Vec::new();
        ips.push(ip);
        assert(ips@ =~= seq![ip]);
        w.workload.workload_ips = ips;
        manager.workloads.push(w);
        proof {
            assert(local_views(manager.workloads@) =~= local_views(before.workloads@).push(w@));
            let after = *manager;
            assert forall|i: int| 0 <= i < after.workloads@.len() implies (
            #[trigger] after.workloads@[i]).wf() by {
                if i < before.workloads@.len() {
                    assert(after.workloads@[i] == before.workloads@[i]);
                }
            }
            assert forall|i: int| 0 <= i < after@.waypoints.len() implies after@.has_waypoint(
                #[trigger] after@.waypoints[i],
            ) by {
                let ip = before@.waypoints[i];
                assert(before@.has_waypoint(ip));
                let j = choose|j: int|
                    0 <= j < before@.workloads.len() && (
                    #[trigger] before@.workloads[j]).is_waypoint(ip);
                assert(after@.workloads[j] == before@.workloads[j]);
            }
        }
    }
}

/// The namespace of the deployed proxy, as text.
#[derive(Debug, PartialEq, Eq)]
pub struct NamespaceText {
    /// Its address, where that is an IPv6 address.
    pub ipv6: String,
    /// The interface that leads to it.
    pub veth: String,
    /// How many namespaces there are.
    pub count: usize,
}

/// What deploying a proxy takes.
#[derive(Debug)]
pub struct Deployment {
    /// What the proxy is run with.
    pub config: Config,
    /// Run in the namespace of the proxy, before it starts.
    pub ztunnel_redirect: String,
    /// Run on the node, once the proxy is ready.
    pub node_redirect: String,
}

impl WorkloadManager {
    /// No address and no port of a workload occurs twice, and every waypoint is a workload
    /// that is reached over HBONE.
    pub closed spec fn wf(self) -> bool {
        &&& forall|i: int| 0 <= i < self.workloads@.len() ==> (#[trigger] self.workloads@[i]).wf()
        &&& self@.waypoints_are_workloads()
    }

    /// What every sequence of calls keeps: every waypoint is a workload that is reached over
    /// HBONE.
    pub proof fn waypoints_stay_workloads(self)
        requires
            self.wf(),
        ensures
            self@.waypoints_are_workloads(),
    {
    }

    /// Without workloads.
    pub fn new() -> (r: WorkloadManager)
        ensures
            r.wf(),
            r@.workloads.len() == 0,
            r@.waypoints.len() == 0,
    {
        WorkloadManager { workloads: Vec::new(), waypoints: Vec::new() }
    }

    /// The workloads that were set up, in order.
    pub fn workloads(&self) -> (r: &Vec<LocalWorkload>)
        ensures
            local_views(r@) == self@.workloads,
    {
        &self.workloads
    }

    /// The addresses of the waypoints, in order.
    pub fn waypoints(&self) -> (r: &Vec<IpAddr>)
        ensures
            r@ == self@.waypoints,
    {
        &self.waypoints
    }

    /// A workload named `name`, otherwise as `base`.
    pub fn workload_builder<'a>(&'a mut self, name: &str, base: Workload) -> (r:
        TestWorkloadBuilder<'a>)
        ensures
            r.wf(),
            r@ == LocalWorkloadView::named(name@, base@),
            *r.manager == *old(self),
            *final(self) == *final(r.manager),
    {
        TestWorkloadBuilder::new(name, base, self)
    }

    /// Sets up a waypoint: a workload that is reached over HBONE.
    pub fn register_waypoint(&mut self, name: &str, base: Workload, ip: IpAddr)
        requires
            old(self).wf(),
        ensures
            final(self).wf(),
            final(self)@ == old(self)@.with_workload(
                LocalWorkloadView::named(name@, base@).with_hbone().at(ip),
            ).with_waypoint(ip),
    {
        TestWorkloadBuilder::new(name, base, self).hbone().register(ip);
        let ghost mid = *self;
        self.waypoints.push(ip);
        proof {
            let after = *self;
            let last = after@.workloads.len() - 1;
            assert(after@.workloads == mid@.workloads);
            assert(after@.workloads[last].is_waypoint(ip));
            assert forall|i: int| 0 <= i < after@.waypoints.len() implies after@.has_waypoint(
                #[trigger] after@.waypoints[i],
            ) by {
                if i < mid@.waypoints.len() {
                    assert(mid@.has_waypoint(mid@.waypoints[i]));
                }
            }
        }
    }

    /// Sets up the workload of the proxy itself, named `ztunnel`.
    pub fn deploy_ztunnel(&mut self, base: Workload, ip: IpAddr)
        requires
            old(self).wf(),
        ensures
            final(self).wf(),
            final(self)@ == old(self)@.with_workload(
                LocalWorkloadView::named("ztunnel"@, base@).at(ip),
            ),
            final(self)@.proxy_ip() == Some(ip),
    {
        TestWorkloadBuilder::new("ztunnel", base, self).register(ip);
    }

    /// The addresses of the waypoints as text, in order.
    fn waypoint_texts(&self, v6: &Vec<String>) -> (r: Vec<String>)
        requires
            v6@.len() == self@.waypoints.len(),
        ensures
            views(r@) == self@.waypoint_texts(views(v6@)),
    {
        let mut r: Vec<String> = Vec::new();
        let mut i: usize = 0;
        while i < self.waypoints.len()
            invariant
                i <= self.waypoints@.len(),
                v6@.len() == self.waypoints@.len(),
                r@.len() == i,
                forall|j: int|
                    0 <= j < i ==> (#[trigger] r@[j])@ == self.waypoints@[j].text(v6@[j]@),
            decreases self.waypoints@.len() - i,
        {
            r.push(self.waypoints[i].to_text(v6[i].as_str()));
            i += 1;
        }
        assert(views(r@) =~= self@.waypoint_texts(views(v6@)));
        r
    }

    /// What deploying the proxy takes, once its own workload is set up. `local` is the
    /// configuration that lists the workloads, and `waypoints_v6` are the texts of those
    /// waypoints that have an IPv6 address.
    pub fn deployment(
        &self,
        ns: &NamespaceText,
        waypoints_v6: &Vec<String>,
        local: Vec<u8>,
        base: Config,
    ) -> (r: Deployment)
        requires
            self@.proxy_ip() is Some,
            waypoints_v6@.len() == self@.waypoints.len(),
        ensures
            r.config == (Config {
                xds_address: None,
                fake_ca: true,
                local_xds_config: Some(ConfigSource::Static(local)),
                local_node: r.config.local_node,
                ..base
            }),
            r.config.local_node matches Some(n) && n@ == local_node(),
            r.ztunnel_redirect@ == "scripts/ztunnel-redirect.sh "@ + self@.proxy_ip()->0.text(
                ns.ipv6@,
            ) + " "@ + joined(self@.waypoint_texts(views(waypoints_v6@)), " "@),
            r.node_redirect@ == "scripts/node-redirect.sh "@ + self@.proxy_ip()->0.text(ns.ipv6@)
                + " "@ + ns.veth@ + " "@ + decimal(ns.count as nat),
    {
        let last = &self.workloads[self.workloads.len() - 1];
        assert(last@ == self@.workloads.last());
        let ip = last.workload.workload_ips[0].to_text(ns.ipv6.as_str());
        let all = join(&self.waypoint_texts(waypoints_v6), " ");
        let count = decimal_text(ns.count as u128);
        let ztunnel_redirect = "scripts/ztunnel-redirect.sh ".to_owned().concat(
            ip.as_str(),
        ).concat(" ").concat(all.as_str());
        let node_redirect = "scripts/node-redirect.sh ".to_owned().concat(ip.as_str()).concat(
            " ",
        ).concat(ns.veth.as_str()).concat(" ").concat(count.as_str());
        Deployment {
            config: local_config(base, Some(ConfigSource::Static(local))),
            ztunnel_redirect,
            node_redirect,
        }
    }
}

/// The order in which a workload is described does not matter: neither of the protocol, the
/// node and the services, nor of two services with different addresses or ports. Of two
/// descriptions of one port the later counts.
pub proof fn description_order(
    w: LocalWorkloadView,
    ip: Seq<char>,
    port: u16,
    target: u16,
    ip2: Seq<char>,
    port2: u16,
    target2: u16,
)
    ensures
        w.with_hbone().on_local_node() == w.on_local_node().with_hbone(),
        w.with_hbone().with_vip(ip, port, target) == w.with_vip(ip, port, target).with_hbone(),
        w.on_local_node().with_vip(ip, port, target) == w.with_vip(
            ip,
            port,
            target,
        ).on_local_node(),
        ip != ip2 || port != port2 ==> w.with_vip(ip, port, target).with_vip(ip2, port2, target2)
            == w.with_vip(ip2, port2, target2).with_vip(ip, port, target),
        w.with_vip(ip, port, target).with_vip(ip, port, target2) == w.with_vip(ip, port, target2),
        w.with_vip(ip, port, target).ports(ip)[port] == target,
{
    let a = w.with_vip(ip, port, target).with_vip(ip2, port2, target2);
    let b = w.with_vip(ip2, port2, target2).with_vip(ip, port, target);
    if ip != ip2 || port != port2 {
        if ip == ip2 {
            assert(w.ports(ip).insert(port, target).insert(port2, target2) =~= w.ports(ip).insert(
                port2,
                target2,
            ).insert(port, target));
        }
        assert(a.vips =~= b.vips);
    }
    assert(w.ports(ip).insert(port, target).insert(port, target2) =~= w.ports(ip).insert(
        port,
        target2,
    ));
    assert(w.with_vip(ip, port, target).with_vip(ip, port, target2).vips =~= w.with_vip(
        ip,
        port,
        target2,
    ).vips);
}

} // verus!
