//! What holds of tunnels and of the packets that go through them.

use vstd::prelude::*;

use crate::identity::IdentityView;
use crate::net::{from_be_bytes_of_four, IpAddr, SocketAddr};
use crate::proxy::out_ip::{
    delivery, distinct_nodes, inspected, ipv4, opened, packet, tunnel, Delivery, DeliveryView,
    Dial, Direction, Inspection, InspectionView, OutboundIP, Packet, PacketView, Request,
    RequestType, CONNECT_DELAY, PACKET_BUFFER,
};
use crate::proxy::packet::{starts_with_ipv4, starts_with_ipv6};
use crate::workload::{Protocol, Workload, WorkloadView};

verus! {

/// A tunnel is opened by the node's own ztunnel, as it is in every respect, whichever peer it
/// leads to.
pub proof fn tunnels_are_opened_by_the_own_ztunnel(
    me: WorkloadView,
    peer: WorkloadView,
    other: WorkloadView,
)
    ensures
        tunnel(me, peer).source.name == me.name,
        tunnel(me, peer).source.namespace == me.namespace,
        tunnel(me, peer).source.service_account == me.service_account,
        tunnel(me, peer).source.trust_domain == me.trust_domain,
        tunnel(me, peer).source.workload_name == me.workload_name,
        tunnel(me, peer).source.canonical_name == me.canonical_name,
        tunnel(me, peer).source.canonical_revision == me.canonical_revision,
        tunnel(me, peer).source.cluster_id == me.cluster_id,
        tunnel(me, peer).source.hostname == me.hostname,
        tunnel(me, peer).source.node == me.node,
        tunnel(me, peer).source.protocol == me.protocol,
        tunnel(me, peer).source.workload_ips == me.workload_ips,
        tunnel(me, peer).source.waypoint_addresses == me.waypoint_addresses,
        tunnel(me, peer).source == tunnel(me, other).source,
{
}

/// A tunnel leads to the first address of the peer, at port 15008, as destination and as
/// gateway, whoever opens it; and the peer has to prove the identity that its workload runs
/// under.
pub proof fn tunnels_lead_to_the_peer(me: WorkloadView, peer: WorkloadView, other: WorkloadView)
    requires
        peer.workload_ips.len() > 0,
    ensures
        ({
            let r = tunnel(me, peer);
            &&& r.destination == (SocketAddr { ip: peer.workload_ips[0], port: 15008 })
            &&& r.gateway == (SocketAddr { ip: peer.workload_ips[0], port: 15008 })
            &&& r.destination_workload is None
            &&& r.expected_identity == Some(
                IdentityView {
                    trust_domain: peer.trust_domain,
                    namespace: peer.namespace,
                    service_account: peer.service_account,
                },
            )
            &&& r.protocol == Protocol::TCP
            &&& r.direction == Direction::Inbound
            &&& r.request_type == RequestType::Direct
            &&& r.destination == tunnel(other, peer).destination
            &&& r.expected_identity == tunnel(other, peer).expected_identity
        }),
{
}

/// A request says what its fields hold.
pub proof fn requests_say_what_they_hold(r: Request)
    ensures
        r@.protocol == r.protocol,
        r@.direction == r.direction,
        r@.source == r.source@,
        r@.destination == r.destination,
        r@.destination_workload is Some == r.destination_workload is Some,
        r.destination_workload is Some ==> r@.destination_workload->0
            == r.destination_workload->0@,
        r@.expected_identity is Some == r.expected_identity is Some,
        r.expected_identity is Some ==> r@.expected_identity->0 == r.expected_identity->0@,
        r@.gateway == r.gateway,
        r@.request_type == r.request_type,
{
}

/// The node's own ztunnel is the one that is listed under the name of the node.
pub proof fn which_ztunnel_is_the_own(out: OutboundIP, ztunnels: Seq<(String, Workload)>, i: int)
    ensures
        out.is_own(ztunnels, i) <==> 0 <= i < ztunnels.len() && out.local_node is Some
            && ztunnels[i].0@ == out.local_node->0@,
{
}

/// No node is listed twice exactly when the names at two places always differ.
pub proof fn when_nodes_are_distinct(ztunnels: Seq<(String, Workload)>, i: int, j: int)
    requires
        distinct_nodes(ztunnels),
        0 <= i < ztunnels.len(),
        0 <= j < ztunnels.len(),
    ensures
        ztunnels[i].0@ == ztunnels[j].0@ <==> i == j,
{
}

/// The tunnels to open have all one source, the workload of the node's own ztunnel, and each
/// leads to the ztunnel of the node that it is for.
pub proof fn all_dials_have_one_source(
    out: OutboundIP,
    ztunnels: Vec<(String, Workload)>,
    dials: Vec<Dial>,
    own: int,
    i: int,
    j: int,
)
    requires
        call_ensures(OutboundIP::dials, (&out, &ztunnels), dials),
        0 <= own < ztunnels@.len(),
        out.local_node is Some,
        ztunnels@[own].0@ == out.local_node->0@,
        0 <= i < ztunnels@.len(),
        0 <= j < ztunnels@.len(),
        ztunnels@[i].1.workload_ips@.len() > 0,
    ensures
        dials@.len() == ztunnels@.len(),
        dials@[i].node@ == ztunnels@[i].0@,
        dials@[i].request.source.name@ == ztunnels@[own].1.name@,
        dials@[i].request.source.namespace@ == ztunnels@[own].1.namespace@,
        dials@[i].request.source.service_account@ == ztunnels@[own].1.service_account@,
        dials@[i].request.source.trust_domain@ == ztunnels@[own].1.trust_domain@,
        dials@[i].request.source.node@ == ztunnels@[own].1.node@,
        dials@[i].request.source.workload_ips@ == ztunnels@[own].1.workload_ips@,
        dials@[i].request.source@ == ztunnels@[own].1@,
        dials@[i].request.source@ == dials@[j].request.source@,
        dials@[i].request.destination.ip == ztunnels@[i].1.workload_ips@[0],
        dials@[i].request.gateway == dials@[i].request.destination,
{
    assert(out.is_own(ztunnels@, own));
    assert(dials@[i].request@ == tunnel(ztunnels@[own].1@, ztunnels@[i].1@));
    assert(dials@[j].request@ == tunnel(ztunnels@[own].1@, ztunnels@[j].1@));
}

/// The address that four octets in network order spell.
pub proof fn how_addresses_are_read(octets: Seq<u8>)
    requires
        octets.len() == 4,
    ensures
        ipv4(octets) == IpAddr::V4(
            (octets[0] * 0x100_0000 + octets[1] * 0x1_0000 + octets[2] * 0x100 + octets[3]) as u32,
        ),
{
    from_be_bytes_of_four(octets);
}

/// A packet that is IPv4 is looked up by its destination, which its bytes 16 to 19 spell, on
/// the network of the node; its source is spelled by the bytes 12 to 15; and its bytes are
/// kept. Any other is dropped.
pub proof fn how_packets_are_read(network: Seq<char>, bytes: Seq<u8>)
    ensures
        starts_with_ipv4(bytes) ==> inspected(network, bytes) is Lookup && {
            let p = inspected(network, bytes)->Lookup_0;
            &&& p.bytes == bytes
            &&& p.source == ipv4(seq![bytes[12], bytes[13], bytes[14], bytes[15]])
            &&& p.destination == ipv4(seq![bytes[16], bytes[17], bytes[18], bytes[19]])
            &&& p.address.address == p.destination
            &&& p.address.network == network
        },
        !starts_with_ipv4(bytes) && starts_with_ipv6(bytes) ==> inspected(
            network,
            bytes,
        ) is NotIpv4,
        !starts_with_ipv4(bytes) && !starts_with_ipv6(bytes) ==> inspected(
            network,
            bytes,
        ) is NotIp,
{
    if starts_with_ipv4(bytes) {
        assert(bytes.subrange(12, 16) =~= seq![bytes[12], bytes[13], bytes[14], bytes[15]]);
        assert(bytes.subrange(16, 20) =~= seq![bytes[16], bytes[17], bytes[18], bytes[19]]);
    }
}

/// Which packets are IPv4: of version four, with a header of at least twenty bytes that is
/// there in full and fits in the length that it gives, followed by a whole authentication
/// header where it announces one.
pub proof fn which_packets_are_ipv4(b: Seq<u8>)
    ensures
        starts_with_ipv4(b) ==> b.len() >= 20 && b[0] / 16 == 4 && (b[0] % 16) * 4 >= 20 && (b[0]
            % 16) * 4 <= b.len() && b[2] * 256 + b[3] >= (b[0] % 16) * 4,
        b.len() >= 20 && b[0] / 16 == 4 && 20 <= (b[0] % 16) * 4 <= b.len() && b[2] * 256 + b[3]
            >= (b[0] % 16) * 4 && b[9] != 51 ==> starts_with_ipv4(b),
        b.len() >= 20 && b[0] / 16 == 4 && 20 <= (b[0] % 16) * 4 <= b.len() && b[2] * 256 + b[3]
            >= (b[0] % 16) * 4 && b[9] == 51 ==> (starts_with_ipv4(b) <==> {
            let n = (b[0] % 16) * 4;
            &&& b.len() >= n + 12
            &&& b[n + 1] >= 1
            &&& b.len() >= n + (b[n + 1] + 2) * 4
        }),
{
}

/// A packet says what its fields hold.
pub proof fn packets_say_what_they_hold(
    p: Packet,
    network: Seq<char>,
    source: IpAddr,
    destination: IpAddr,
    bytes: Seq<u8>,
)
    ensures
        p@.source == p.source,
        p@.destination == p.destination,
        p@.address.network == p.address.network@,
        p@.address.address == p.address.address,
        p@.bytes == p.bytes@,
        packet(network, source, destination, bytes).source == source,
        packet(network, source, destination, bytes).destination == destination,
        packet(network, source, destination, bytes).address.address == destination,
        packet(network, source, destination, bytes).address.network == network,
        packet(network, source, destination, bytes).bytes == bytes,
{
}

/// What becomes of a packet is what it says.
pub proof fn verdicts_say_what_they_hold(i: Inspection, d: Delivery)
    ensures
        i is Lookup <==> i@ is Lookup,
        i is NotIpv4 <==> i@ is NotIpv4,
        i is NotIp <==> i@ is NotIp,
        i matches Inspection::Lookup(p) ==> i@ == InspectionView::Lookup(p@),
        d matches Delivery::Write { node, bytes } ==> d@ == (DeliveryView::Write {
            node: node@,
            bytes: bytes@,
        }),
        d matches Delivery::UnknownDestination(ip) ==> d@ == DeliveryView::UnknownDestination(ip),
        d matches Delivery::UnknownNode(ip) ==> d@ == DeliveryView::UnknownNode(ip),
{
}

/// A packet goes, byte for byte, to the node of the workload at its destination, if there is
/// a tunnel to it; else it is dropped, and what is told is its destination.
pub proof fn where_packets_go(p: PacketView, w: WorkloadView, nodes: Set<Seq<char>>)
    ensures
        delivery(p, None, nodes) == DeliveryView::UnknownDestination(p.destination),
        nodes.contains(w.node) ==> delivery(p, Some(w), nodes) == (DeliveryView::Write {
            node: w.node,
            bytes: p.bytes,
        }),
        !nodes.contains(w.node) ==> delivery(p, Some(w), nodes) == DeliveryView::UnknownNode(
            p.destination,
        ),
{
}

/// A tunnel that is opened later takes the place of one to the same node, and leaves the
/// others.
pub proof fn later_tunnels_count<H>(
    nodes: Seq<Seq<char>>,
    tunnels: Seq<H>,
    node: Seq<char>,
    tunnel: H,
)
    requires
        nodes.len() == tunnels.len(),
    ensures
        opened(nodes.push(node), tunnels.push(tunnel)) == opened(nodes, tunnels).insert(
            node,
            tunnel,
        ),
{
    assert(nodes.push(node).drop_last() =~= nodes);
    assert(tunnels.push(tunnel).drop_last() =~= tunnels);
}

/// The tunnels are opened ten seconds after the start, and a packet is read into a buffer of
/// a kibibyte.
pub proof fn how_long_and_how_much()
    ensures
        CONNECT_DELAY == 10 * 1_000_000_000,
        PACKET_BUFFER == 1024,
{
}

} // verus!
