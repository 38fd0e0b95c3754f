//! Workloads, services and network addresses as the proxy sees them.

use vstd::prelude::*;
use vstd::string::*;

use crate::identity::{Identity, IdentityView};
use crate::net::IpAddr;

verus! {

/// How a workload is reached.
#[derive(Clone, Copy, Debug, Hash, PartialEq, Eq, Structural)]
pub enum Protocol {
    TCP,
    HBONE,
}

impl Default for Protocol {
    fn default() -> (r: Self)
        ensures
            r == Protocol::TCP,
    {
        Protocol::TCP
    }
}

/// A workload of the mesh.
#[derive(Debug)]
pub struct Workload {
    pub name: String,
    pub namespace: String,
    pub service_account: String,
    pub trust_domain: String,
    pub workload_name: String,
    pub canonical_name: String,
    pub canonical_revision: String,
    pub cluster_id: String,
    pub hostname: String,
    pub node: String,
    pub protocol: Protocol,
    pub workload_ips: Vec<IpAddr>,
    pub waypoint_addresses: Vec<IpAddr>,
}

/// What a [`Workload`] says.
#[verifier::ext_equal]
pub struct WorkloadView {
    pub name: Seq<char>,
    pub namespace: Seq<char>,
    pub service_account: Seq<char>,
    pub trust_domain: Seq<char>,
    pub workload_name: Seq<char>,
    pub canonical_name: Seq<char>,
    pub canonical_revision: Seq<char>,
    pub cluster_id: Seq<char>,
    pub hostname: Seq<char>,
    pub node: Seq<char>,
    pub protocol: Protocol,
    pub workload_ips: Seq<IpAddr>,
    pub waypoint_addresses: Seq<IpAddr>,
}

impl View for Workload {
    type V = WorkloadView;

    open spec fn view(&self) -> WorkloadView {
        WorkloadView {
            name: self.name@,
            namespace: self.namespace@,
            service_account: self.service_account@,
            trust_domain: self.trust_domain@,
            workload_name: self.workload_name@,
            canonical_name: self.canonical_name@,
            canonical_revision: self.canonical_revision@,
            cluster_id: self.cluster_id@,
            hostname: self.hostname@,
            node: self.node@,
            protocol: self.protocol,
            workload_ips: self.workload_ips@,
            waypoint_addresses: self.waypoint_addresses@,
        }
    }
}

/// A copy of a list of addresses.
pub fn clone_ips(ips: &Vec<IpAddr>) -> (r: Vec<IpAddr>)
    ensures
        r@ == ips@,
{
    let r = ips.clone();
    assert(r@ =~= ips@);
    r
}

impl Clone for Workload {
    fn clone(&self) -> (r: Self)
        ensures
            r@ == self@,
    {
        Workload {
            name: self.name.clone(),
            namespace: self.namespace.clone(),
            service_account: self.service_account.clone(),
            trust_domain: self.trust_domain.clone(),
            workload_name: self.workload_name.clone(),
            canonical_name: self.canonical_name.clone(),
            canonical_revision: self.canonical_revision.clone(),
            cluster_id: self.cluster_id.clone(),
            hostname: self.hostname.clone(),
            node: self.node.clone(),
            protocol: self.protocol,
            workload_ips: clone_ips(&self.workload_ips),
            waypoint_addresses: clone_ips(&self.waypoint_addresses),
        }
    }
}

impl WorkloadView {
    /// The identity that the workload runs under.
    pub open spec fn identity(self) -> IdentityView {
        IdentityView {
            trust_domain: self.trust_domain,
            namespace: self.namespace,
            service_account: self.service_account,
        }
    }
}

impl Workload {
    /// The identity that the workload runs under.
    pub fn identity(&self) -> (id: Identity)
        ensures
            id@ == self@.identity(),
    {
        Identity {
            trust_domain: self.trust_domain.clone(),
            namespace: self.namespace.clone(),
            service_account: self.service_account.clone(),
        }
    }
}

/// A service, as far as metrics and logs name it.
#[derive(Debug)]
pub struct ServiceDescription {
    pub hostname: String,
    pub name: String,
    pub namespace: String,
}

/// What a [`ServiceDescription`] says.
pub struct ServiceView {
    pub hostname: Seq<char>,
    pub name: Seq<char>,
    pub namespace: Seq<char>,
}

impl View for ServiceDescription {
    type V = ServiceView;

    open spec fn view(&self) -> ServiceView {
        ServiceView {
            hostname: self.hostname@,
            name: self.name@,
            namespace: self.namespace@,
        }
    }
}

impl Clone for ServiceDescription {
    fn clone(&self) -> (r: Self)
        ensures
            r == *self,
    {
        ServiceDescription {
            hostname: self.hostname.clone(),
            name: self.name.clone(),
            namespace: self.namespace.clone(),
        }
    }
}

/// An address on a named network.
#[derive(Debug, PartialEq, Eq)]
pub struct NetworkAddress {
    pub network: String,
    pub address: IpAddr,
}

/// What a [`NetworkAddress`] says.
pub struct NetworkAddressView {
    pub network: Seq<char>,
    pub address: IpAddr,
}

impl View for NetworkAddress {
    type V = NetworkAddressView;

    open spec fn view(&self) -> NetworkAddressView {
        NetworkAddressView { network: self.network@, address: self.address }
    }
}

/// What an optional workload says.
pub open spec fn workload_view(w: Option<Workload>) -> Option<WorkloadView> {
    match w {
        Some(w) => Some(w@),
        None => None,
    }
}

/// What an optional service says.
pub open spec fn service_view(s: Option<ServiceDescription>) -> Option<ServiceView> {
    match s {
        Some(s) => Some(s@),
        None => None,
    }
}

/// A workload says what its fields hold, and runs under the identity of its trust domain, its
/// namespace and its service account.
pub proof fn workloads_say_what_they_hold(w: Workload)
    ensures
        w@.name == w.name@,
        w@.namespace == w.namespace@,
        w@.service_account == w.service_account@,
        w@.trust_domain == w.trust_domain@,
        w@.workload_name == w.workload_name@,
        w@.canonical_name == w.canonical_name@,
        w@.canonical_revision == w.canonical_revision@,
        w@.cluster_id == w.cluster_id@,
        w@.hostname == w.hostname@,
        w@.node == w.node@,
        w@.protocol == w.protocol,
        w@.workload_ips == w.workload_ips@,
        w@.waypoint_addresses == w.waypoint_addresses@,
        w@.identity().trust_domain == w.trust_domain@,
        w@.identity().namespace == w.namespace@,
        w@.identity().service_account == w.service_account@,
{
}

/// Services and addresses say what their fields hold.
pub proof fn services_and_addresses_say_what_they_hold(s: ServiceDescription, a: NetworkAddress)
    ensures
        s@.hostname == s.hostname@,
        s@.name == s.name@,
        s@.namespace == s.namespace@,
        a@.network == a.network@,
        a@.address == a.address,
{
}

} // verus!
