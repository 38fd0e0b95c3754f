//! What holds of the workloads of a test mesh.

use vstd::prelude::*;

use crate::net::IpAddr;
use crate::test_helpers::components::{
    local_views, LocalWorkload, LocalWorkloadView, ManagerView,
};
use crate::workload::{Protocol, WorkloadView};

verus! {

/// A workload that is begun has its name, is in the namespace and under the service account
/// `default`, on the node `not-local`, and behind no service; the rest is as given.
pub proof fn how_workloads_begin(name: Seq<char>, base: WorkloadView, ip: Seq<char>)
    ensures
        ({
            let w = LocalWorkloadView::named(name, base);
            &&& w.workload.name == name
            &&& w.workload.namespace == "default"@
            &&& w.workload.service_account == "default"@
            &&& w.workload.node == "not-local"@
            &&& w.workload.trust_domain == base.trust_domain
            &&& w.workload.workload_name == base.workload_name
            &&& w.workload.canonical_name == base.canonical_name
            &&& w.workload.canonical_revision == base.canonical_revision
            &&& w.workload.cluster_id == base.cluster_id
            &&& w.workload.hostname == base.hostname
            &&& w.workload.protocol == base.protocol
            &&& w.workload.workload_ips == base.workload_ips
            &&& w.workload.waypoint_addresses == base.waypoint_addresses
            &&& !w.vips.contains_key(ip)
        }),
{
}

/// Each word of a description changes what it is about, and nothing else.
pub proof fn descriptions_change_one_thing(
    w: LocalWorkloadView,
    ip: IpAddr,
    address: Seq<char>,
    port: u16,
    target: u16,
    other: Seq<char>,
    other_port: u16,
)
    ensures
        w.with_hbone() == (LocalWorkloadView {
            workload: WorkloadView { protocol: Protocol::HBONE, ..w.workload },
            ..w
        }),
        w.with_waypoint(ip) == (LocalWorkloadView {
            workload: WorkloadView {
                waypoint_addresses: w.workload.waypoint_addresses.push(ip),
                ..w.workload
            },
            ..w
        }),
        w.on_local_node() == (LocalWorkloadView {
            workload: WorkloadView { node: "local"@, ..w.workload },
            ..w
        }),
        w.at(ip) == (LocalWorkloadView {
            workload: WorkloadView { workload_ips: seq![ip], ..w.workload },
            ..w
        }),
        w.with_vip(address, port, target).workload == w.workload,
        w.with_vip(address, port, target).vips.contains_key(address),
        w.with_vip(address, port, target).vips[address].contains_key(port),
        w.with_vip(address, port, target).vips[address][port] == target,
        other != address ==> {
            &&& w.with_vip(address, port, target).vips.contains_key(other)
                == w.vips.contains_key(other)
            &&& w.vips.contains_key(other) ==> w.with_vip(address, port, target).vips[other]
                == w.vips[other]
        },
        other_port != port ==> {
            &&& w.with_vip(address, port, target).vips[address].contains_key(other_port) == (
            w.vips.contains_key(address) && w.vips[address].contains_key(other_port))
            &&& w.vips.contains_key(address) && w.vips[address].contains_key(other_port)
                ==> w.with_vip(address, port, target).vips[address][other_port]
                == w.vips[address][other_port]
        },
        w.vips.contains_key(address) ==> w.ports(address) == w.vips[address],
        !w.vips.contains_key(address) ==> !w.ports(address).contains_key(port),
{
}

/// A waypoint is a workload that is reached over HBONE at its one address.
pub proof fn what_waypoints_are(w: LocalWorkloadView, ip: IpAddr, m: ManagerView)
    ensures
        w.is_waypoint(ip) <==> w.workload.protocol == Protocol::HBONE
            && w.workload.workload_ips.len() == 1 && w.workload.workload_ips[0] == ip,
        m.has_waypoint(ip) <==> exists|j: int|
            0 <= j < m.workloads.len() && (#[trigger] m.workloads[j]).workload.protocol
                == Protocol::HBONE && m.workloads[j].workload.workload_ips == seq![ip],
        m.waypoints_are_workloads() ==> forall|i: int|
            0 <= i < m.waypoints.len() ==> m.has_waypoint(#[trigger] m.waypoints[i]),
{
    if w.workload.workload_ips.len() == 1 && w.workload.workload_ips[0] == ip {
        assert(w.workload.workload_ips =~= seq![ip]);
    }
    if exists|j: int|
        0 <= j < m.workloads.len() && (#[trigger] m.workloads[j]).workload.protocol
            == Protocol::HBONE && m.workloads[j].workload.workload_ips == seq![ip] {
        let j = choose|j: int|
            0 <= j < m.workloads.len() && (#[trigger] m.workloads[j]).workload.protocol
                == Protocol::HBONE && m.workloads[j].workload.workload_ips == seq![ip];
        assert(m.workloads[j].is_waypoint(ip));
    }
}

/// Workloads and waypoints are kept in the order in which they were set up.
pub proof fn workloads_are_kept_in_order(m: ManagerView, w: LocalWorkloadView, ip: IpAddr)
    ensures
        m.with_workload(w).workloads == m.workloads.push(w),
        m.with_workload(w).waypoints == m.waypoints,
        m.with_waypoint(ip).waypoints == m.waypoints.push(ip),
        m.with_waypoint(ip).workloads == m.workloads,
{
}

/// The proxy has the address of the workload that was set up last, if that is named
/// `ztunnel` and has one address.
pub proof fn where_the_proxy_is(m: ManagerView)
    ensures
        m.proxy_ip() is Some <==> m.workloads.len() > 0 && m.workloads[m.workloads.len()
            - 1].workload.name == "ztunnel"@ && m.workloads[m.workloads.len()
            - 1].workload.workload_ips.len() == 1,
        m.proxy_ip() is Some ==> m.proxy_ip()->0 == m.workloads[m.workloads.len()
            - 1].workload.workload_ips[0],
{
}

/// The addresses of the waypoints are written one by one, in order.
pub proof fn waypoints_are_written_in_order(m: ManagerView, v6: Seq<Seq<char>>, i: int)
    requires
        0 <= i < m.waypoints.len(),
    ensures
        m.waypoint_texts(v6).len() == m.waypoints.len(),
        m.waypoint_texts(v6)[i] == m.waypoints[i].text(v6[i]),
{
}

/// A workload of a test mesh says what its fields hold.
pub proof fn local_workloads_say_what_they_hold(
    w: LocalWorkload,
    all: Seq<LocalWorkload>,
    i: int,
    ip: Seq<char>,
)
    requires
        0 <= i < all.len(),
    ensures
        w@.workload == w.workload@,
        w@.vips.contains_key(ip) == w.vips@.contains_key(ip),
        w.vips@.contains_key(ip) ==> w@.vips[ip] == w.vips@[ip]@,
        local_views(all).len() == all.len(),
        local_views(all)[i] == all[i]@,
{
}

} // verus!
