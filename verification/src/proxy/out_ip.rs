//! Tunnelling whole IP packets between nodes.
//!
//! Packets that the node sends come in on a TUN device. Each goes out on the tunnel to the
//! ztunnel of the node where its destination runs.

use vstd::prelude::*;
use vstd::string::*;

use crate::assoc::AssocMap;
use crate::config::Config;
use crate::identity::{Identity, IdentityView};
use crate::net::{from_be_bytes, from_be_bytes_of_four, IpAddr, SocketAddr};
use crate::proxy::packet::{read_header, starts_with_ipv4, starts_with_ipv6, PacketHeader};
use crate::workload::{
    workload_view, NetworkAddress, NetworkAddressView, Protocol, Workload, WorkloadView,
};

verus! {

/// How long to wait before the tunnels are opened, in nanoseconds.
pub const CONNECT_DELAY: u128 = 10_000_000_000;

/// The port on which a ztunnel takes tunnels.
pub const HBONE_PORT: u16 = 15008;

/// How many bytes of a packet are read.
pub const PACKET_BUFFER: usize = 1024;

/// How the TUN device is set up.
#[derive(Debug, PartialEq, Eq)]
pub struct TunSettings {
    pub name: String,
    pub tap: bool,
    pub packet_info: bool,
    pub mtu: i32,
    pub up: bool,
}

/// The device `z_tun0`: layer three, without packet information, and up at once.
pub fn tun_settings() -> (r: TunSettings)
    ensures
        r.name@ == "z_tun0"@,
        !r.tap,
        !r.packet_info,
        r.mtu == 1350,
        r.up,
{
    TunSettings { name: "z_tun0".to_owned(), tap: false, packet_info: false, mtu: 1350, up: true }
}

/// Which way a tunnelled request goes.
#[derive(Clone, Copy, Debug, PartialEq, Eq, Structural)]
pub enum Direction {
    Inbound,
    Outbound,
}

/// How a request reaches its destination.
#[derive(Clone, Copy, Debug, PartialEq, Eq, Structural)]
pub enum RequestType {
    Direct,
}

/// A tunnel to be opened.
#[derive(Debug)]
pub struct Request {
    pub protocol: Protocol,
    pub direction: Direction,
    pub source: Workload,
    pub destination: SocketAddr,
    pub destination_workload: Option<Workload>,
    pub expected_identity: Option<Identity>,
    pub gateway: SocketAddr,
    pub request_type: RequestType,
}

/// What a [`Request`] says.
pub struct RequestView {
    pub protocol: Protocol,
    pub direction: Direction,
    pub source: WorkloadView,
    pub destination: SocketAddr,
    pub destination_workload: Option<WorkloadView>,
    pub expected_identity: Option<IdentityView>,
    pub gateway: SocketAddr,
    pub request_type: RequestType,
}

impl View for Request {
    type V = RequestView;

    open spec fn view(&self) -> RequestView {
        RequestView {
            protocol: self.protocol,
            direction: self.direction,
            source: self.source@,
            destination: self.destination,
            destination_workload: workload_view(self.destination_workload),
            expected_identity: match self.expected_identity {
                Some(id) => Some(id@),
                None => None,
            },
            gateway: self.gateway,
            request_type: self.request_type,
        }
    }
}

/// The tunnel from the ztunnel `me` to the ztunnel `peer`: direct, to the peer's first
/// address, and only if the peer proves to be itself.
pub open spec fn tunnel(me: WorkloadView, peer: WorkloadView) -> RequestView {
    let addr = SocketAddr { ip: peer.workload_ips[0], port: HBONE_PORT };
    RequestView {
        protocol: Protocol::TCP,
        direction: Direction::Inbound,
        source: me,
        destination: addr,
        destination_workload: None,
        expected_identity: Some(peer.identity()),
        gateway: addr,
        request_type: RequestType::Direct,
    }
}

/// The tunnel from the ztunnel `me` to the ztunnel `peer`.
pub fn tunnel_request(me: &Workload, peer: &Workload) -> (r: Request)
    requires
        peer.workload_ips@.len() > 0,
    ensures
        r@ == tunnel(me@, peer@),
        r.source@ == me@,
        r.destination == (SocketAddr { ip: peer.workload_ips@[0], port: 15008 }),
        r.gateway == r.destination,
{
    let addr = SocketAddr { ip: peer.workload_ips[0], port: HBONE_PORT };
    Request {
        protocol: Protocol::default(),
        direction: Direction::Inbound,
        source: me.clone(),
        destination: addr,
        destination_workload: None,
        expected_identity: Some(peer.identity()),
        gateway: addr,
        request_type: RequestType::Direct,
    }
}

/// A tunnel to be opened to the ztunnel of a node.
#[derive(Debug)]
pub struct Dial {
    pub node: String,
    pub request: Request,
}

/// An IPv4 packet on its way.
#[derive(Debug, PartialEq, Eq)]
pub struct Packet {
    pub source: IpAddr,
    pub destination: IpAddr,
    /// The destination on the network of this node.
    pub address: NetworkAddress,
    pub bytes: Vec<u8>,
}

/// What a [`Packet`] says.
pub struct PacketView {
    pub source: IpAddr,
    pub destination: IpAddr,
    pub address: NetworkAddressView,
    pub bytes: Seq<u8>,
}

impl View for Packet {
    type V = PacketView;

    open spec fn view(&self) -> PacketView {
        PacketView {
            source: self.source,
            destination: self.destination,
            address: self.address@,
            bytes: self.bytes@,
        }
    }
}

/// What to do with what was read from the device.
#[derive(Debug, PartialEq, Eq)]
pub enum Inspection {
    /// Look up the workload at the packet's address.
    Lookup(Packet),
    /// Drop it: it is IP, but not IPv4.
    NotIpv4,
    /// Drop it: it is not IP.
    NotIp,
}

/// What an [`Inspection`] says.
pub enum InspectionView {
    Lookup(PacketView),
    NotIpv4,
    NotIp,
}

impl View for Inspection {
    type V = InspectionView;

    open spec fn view(&self) -> InspectionView {
        match self {
            Inspection::Lookup(p) => InspectionView::Lookup(p@),
            Inspection::NotIpv4 => InspectionView::NotIpv4,
            Inspection::NotIp => InspectionView::NotIp,
        }
    }
}

/// What to do with a packet once its destination was looked up.
#[derive(Debug, PartialEq, Eq)]
pub enum Delivery {
    /// Write the bytes to the tunnel of the node.
    Write { node: String, bytes: Vec<u8> },
    /// Drop the packet: no workload has the destination address.
    UnknownDestination(IpAddr),
    /// Drop the packet: there is no tunnel to the node of the destination.
    UnknownNode(IpAddr),
}

/// What a [`Delivery`] says.
pub enum DeliveryView {
    Write { node: Seq<char>, bytes: Seq<u8> },
    UnknownDestination(IpAddr),
    UnknownNode(IpAddr),
}

impl View for Delivery {
    type V = DeliveryView;

    open spec fn view(&self) -> DeliveryView {
        match self {
            Delivery::Write { node, bytes } => DeliveryView::Write { node: node@, bytes: bytes@ },
            Delivery::UnknownDestination(ip) => DeliveryView::UnknownDestination(*ip),
            Delivery::UnknownNode(ip) => DeliveryView::UnknownNode(*ip),
        }
    }
}

/// The IPv4 address that four octets in network order spell.
pub open spec fn ipv4(octets: Seq<u8>) -> IpAddr {
    IpAddr::V4(from_be_bytes(octets) as u32)
}

/// The packet `bytes` with the addresses `source` and `destination`, on `network`.
pub open spec fn packet(
    network: Seq<char>,
    source: IpAddr,
    destination: IpAddr,
    bytes: Seq<u8>,
) -> PacketView {
    PacketView {
        source,
        destination,
        address: NetworkAddressView { network, address: destination },
        bytes,
    }
}

/// What to do with the packet `bytes` on `network`.
pub open spec fn inspected(network: Seq<char>, bytes: Seq<u8>) -> InspectionView {
    if starts_with_ipv4(bytes) {
        InspectionView::Lookup(
            packet(network, ipv4(bytes.subrange(12, 16)), ipv4(bytes.subrange(16, 20)), bytes),
        )
    } else if starts_with_ipv6(bytes) {
        InspectionView::NotIpv4
    } else {
        InspectionView::NotIp
    }
}

/// What to do with a packet whose destination is `workload`, where there are tunnels to
/// `nodes`.
pub open spec fn delivery(
    p: PacketView,
    workload: Option<WorkloadView>,
    nodes: Set<Seq<char>>,
) -> DeliveryView {
    match workload {
        None => DeliveryView::UnknownDestination(p.destination),
        Some(w) => if nodes.contains(w.node) {
            DeliveryView::Write { node: w.node, bytes: p.bytes }
        } else {
            DeliveryView::UnknownNode(p.destination)
        },
    }
}

/// No node has two ztunnels.
pub open spec fn distinct_nodes(ztunnels: Seq<(String, Workload)>) -> bool {
    forall|i: int, j: int|
        0 <= i < j < ztunnels.len() ==> (#[trigger] ztunnels[i]).0@ != (#[trigger] ztunnels[j]).0@
}

/// Whether two ztunnels are never on one node.
pub fn have_distinct_nodes(ztunnels: &Vec<(String, Workload)>) -> (r: bool)
    ensures
        r == distinct_nodes(ztunnels@),
{
    let mut j: usize = 0;
    while j < ztunnels.len()
        invariant
            j <= ztunnels@.len(),
            forall|a: int, b: int|
                0 <= a < b < j ==> (#[trigger] ztunnels@[a]).0@ != (#[trigger] ztunnels@[b]).0@,
        decreases ztunnels@.len() - j,
    {
        let mut i: usize = 0;
        while i < j
            invariant
                i <= j < ztunnels@.len(),
                forall|a: int|
                    0 <= a < i ==> (#[trigger] ztunnels@[a]).0@ != ztunnels@[j as int].0@,
            decreases j - i,
        {
            if ztunnels[i].0 == ztunnels[j].0 {
                assert(ztunnels@[i as int].0@ == ztunnels@[j as int].0@);
                return false;
            }
            i += 1;
        }
        j += 1;
    }
    true
}

/// Whether packets are taken from the device.
#[derive(Clone, Copy, Debug, PartialEq, Eq, Structural)]
pub enum PumpState {
    /// They are.
    Running,
    /// No more packets are taken. Tunnels that are open are not waited for.
    Stopped,
}

/// The tunnelling of packets from one node.
#[derive(Debug)]
pub struct OutboundIP {
    pub local_node: Option<String>,
    pub network: String,
    pub state: PumpState,
}

impl OutboundIP {
    /// Tunnelling as `cfg` sets it up.
    pub fn new(cfg: &Config) -> (r: OutboundIP)
        ensures
            r.network == cfg.network,
            r.local_node == cfg.local_node,
            r.state == PumpState::Running,
    {
        OutboundIP {
            local_node: match &cfg.local_node {
                Some(n) => Some(n.clone()),
                None => None,
            },
            network: cfg.network.clone(),
            state: PumpState::Running,
        }
    }

    /// No longer taking packets.
    pub open spec fn after_drain(self) -> OutboundIP {
        OutboundIP { state: PumpState::Stopped, ..self }
    }

    /// Stops taking packets, at once: tunnels that are open are not waited for, since nothing
    /// would hold their other ends back.
    pub fn drain(&mut self)
        ensures
            *final(self) == old(self).after_drain(),
    {
        self.state = PumpState::Stopped;
    }

    /// Whether the ztunnel at `i` is the one of this node.
    pub open spec fn is_own(self, ztunnels: Seq<(String, Workload)>, i: int) -> bool {
        &&& 0 <= i < ztunnels.len()
        &&& self.local_node matches Some(n) && ztunnels[i].0@ == n@
    }

    /// Where the ztunnel of this node is among `ztunnels`.
    pub fn own_index(&self, ztunnels: &Vec<(String, Workload)>) -> (r: Option<usize>)
        ensures
            match r {
                Some(i) => self.is_own(ztunnels@, i as int),
                None => forall|i: int| !self.is_own(ztunnels@, i),
            },
    {
        match &self.local_node {
            Some(n) => {
                let mut i: usize = 0;
                while i < ztunnels.len()
                    invariant
                        i <= ztunnels@.len(),
                        self.local_node == Some(*n),
                        forall|j: int| 0 <= j < i ==> !self.is_own(ztunnels@, j),
                    decreases ztunnels@.len() - i,
                {
                    if ztunnels[i].0 == *n {
                        return Some(i);
                    }
                    i += 1;
                }
                None
            },
            None => None,
        }
    }

    /// The tunnels to open: one to every ztunnel, this node's own among them.
    pub fn dials(&self, ztunnels: &Vec<(String, Workload)>) -> (r: Vec<Dial>)
        requires
            distinct_nodes(ztunnels@),
            exists|i: int| self.is_own(ztunnels@, i),
            forall|i: int|
                0 <= i < ztunnels@.len() ==> (#[trigger] ztunnels@[i]).1.workload_ips@.len() > 0,
        ensures
            r@.len() == ztunnels@.len(),
            forall|i: int|
                0 <= i < r@.len() ==> (#[trigger] r@[i]).node@ == ztunnels@[i].0@,
            forall|i: int, me: int|
                0 <= i < r@.len() && #[trigger] self.is_own(ztunnels@, me) ==> (
                #[trigger] r@[i]).request@ == tunnel(ztunnels@[me].1@, ztunnels@[i].1@),
            forall|i: int, me: int|
                0 <= i < r@.len() && #[trigger] self.is_own(ztunnels@, me) ==> (
                #[trigger] r@[i]).request.source@ == ztunnels@[me].1@,
    {
        let own = match self.own_index(ztunnels) {
            Some(i) => i,
            None => vstd::pervasive::unreached(),
        };
        let mut r: Vec<Dial> = Vec::new();
        let mut i: usize = 0;
        while i < ztunnels.len()
            invariant
                i <= ztunnels@.len(),
                r@.len() == i,
                distinct_nodes(ztunnels@),
                self.is_own(ztunnels@, own as int),
                forall|j: int|
                    0 <= j < ztunnels@.len() ==> (#[trigger] ztunnels@[j]).1.workload_ips@.len() > 0,
                forall|j: int|
                    0 <= j < i ==> (#[trigger] r@[j]).node@ == ztunnels@[j].0@ && r@[j].request@
                        == tunnel(ztunnels@[own as int].1@, ztunnels@[j].1@),
            decreases ztunnels@.len() - i,
        {
            let node = ztunnels[i].0.clone();
            let request = tunnel_request(&ztunnels[own].1, &ztunnels[i].1);
            r.push(Dial { node, request });
            i += 1;
        }
        assert forall|me: int| #[trigger] self.is_own(ztunnels@, me) implies me == own by {
            assert(ztunnels@[me].0@ == ztunnels@[own as int].0@);
        }
        r
    }

    /// What to do with `bytes`, whose start turned out to be `header`.
    pub fn classify(&self, header: PacketHeader, bytes: Vec<u8>) -> (r: Inspection)
        ensures
            r@ == match header {
                PacketHeader::V4 { source, destination } => InspectionView::Lookup(
                    packet(self.network@, ipv4(source@), ipv4(destination@), bytes@),
                ),
                PacketHeader::V6 => InspectionView::NotIpv4,
                PacketHeader::Invalid => InspectionView::NotIp,
            },
    {
        match header {
            PacketHeader::V4 { source, destination } => {
                assert(source@ =~= seq![source@[0], source@[1], source@[2], source@[3]]);
                assert(destination@ =~= seq![
                    destination@[0],
                    destination@[1],
                    destination@[2],
                    destination@[3],
                ]);
                let src = IpAddr::from_octets(source[0], source[1], source[2], source[3]);
                let dst = IpAddr::from_octets(
                    destination[0],
                    destination[1],
                    destination[2],
                    destination[3],
                );
                Inspection::Lookup(
                    Packet {
                        source: src,
                        destination: dst,
                        address: NetworkAddress { network: self.network.clone(), address: dst },
                        bytes,
                    },
                )
            },
            PacketHeader::V6 => Inspection::NotIpv4,
            PacketHeader::Invalid => Inspection::NotIp,
        }
    }

    /// What to do with `bytes` read from the device, while packets are taken from it.
    pub fn inspect(&self, bytes: Vec<u8>) -> (r: Inspection)
        requires
            self.state == PumpState::Running,
        ensures
            r@ == inspected(self.network@, bytes@),
    {
        let header = read_header(bytes.as_slice());
        self.classify(header, bytes)
    }

    /// What to do with a packet whose destination is `workload`, over the tunnels `routes`.
    pub fn route<H>(
        packet: Packet,
        workload: Option<&Workload>,
        routes: &AssocMap<String, H>,
    ) -> (r: Delivery)
        requires
            routes.wf(),
        ensures
            r@ == delivery(
                packet@,
                match workload {
                    Some(w) => Some(w@),
                    None => None,
                },
                routes@.dom(),
            ),
    {
        match workload {
            None => Delivery::UnknownDestination(packet.destination),
            Some(w) => if routes.contains(&w.node) {
                Delivery::Write { node: w.node.clone(), bytes: packet.bytes }
            } else {
                Delivery::UnknownNode(packet.destination)
            },
        }
    }
}

/// The tunnels by node, after the tunnel to each of `nodes` in turn was opened.
pub open spec fn opened<H>(nodes: Seq<Seq<char>>, tunnels: Seq<H>) -> Map<Seq<char>, H>
    decreases nodes.len(),
{
    if nodes.len() == 0 {
        Map::empty()
    } else {
        opened(nodes.drop_last(), tunnels.drop_last()).insert(nodes.last(), tunnels.last())
    }
}

/// Once a tunnel to each node was opened, every node is reached over its own tunnel, and no
/// other node is reached.
pub proof fn every_node_is_reached<H>(nodes: Seq<Seq<char>>, tunnels: Seq<H>)
    requires
        nodes.no_duplicates(),
        nodes.len() == tunnels.len(),
    ensures
        forall|n: Seq<char>| opened(nodes, tunnels).contains_key(n) == nodes.contains(n),
        forall|i: int|
            0 <= i < nodes.len() ==> opened(nodes, tunnels)[#[trigger] nodes[i]] == tunnels[i],
    decreases nodes.len(),
{
    if nodes.len() > 0 {
        let ns = nodes.drop_last();
        every_node_is_reached(ns, tunnels.drop_last());
        assert forall|n: Seq<char>| opened(nodes, tunnels).contains_key(n) == nodes.contains(n) by {
            if nodes.contains(n) {
                let i = nodes.index_of(n);
                if i < ns.len() {
                    assert(ns[i] == n);
                }
            }
            if ns.contains(n) {
                assert(nodes[ns.index_of(n)] == n);
            }
            assert(nodes[nodes.len() - 1] == nodes.last());
        }
        assert forall|i: int| 0 <= i < nodes.len() implies opened(nodes, tunnels)[#[trigger] nodes[i]]
            == tunnels[i] by {
            if i < ns.len() {
                assert(ns[i] == nodes[i]);
                assert(nodes[i] != nodes[nodes.len() - 1]);
            }
        }
    }
}

/// A packet goes out exactly when it is IPv4, a workload has its destination address, and
/// there is a tunnel to that workload's node; and then it goes to that node, byte for byte.
pub proof fn forwarded_iff_routable(
    network: Seq<char>,
    bytes: Seq<u8>,
    workload: Option<WorkloadView>,
    nodes: Set<Seq<char>>,
)
    ensures
        inspected(network, bytes) is Lookup == starts_with_ipv4(bytes),
        inspected(network, bytes) matches InspectionView::Lookup(p) ==> {
            &&& p.address == (NetworkAddressView {
                network,
                address: ipv4(bytes.subrange(16, 20)),
            })
            &&& delivery(p, workload, nodes) is Write == (workload matches Some(w)
                && nodes.contains(w.node))
            &&& delivery(p, workload, nodes) matches DeliveryView::Write { node, bytes: sent }
                ==> sent == bytes && node == workload->0.node
        },
{
}

/// Once packets are no longer taken, they never are again, and all else stays as it was.
pub proof fn drained_for_good(o: OutboundIP)
    ensures
        o.after_drain().state == PumpState::Stopped,
        o.after_drain().after_drain() == o.after_drain(),
        o.after_drain().network == o.network,
        o.after_drain().local_node == o.local_node,
{
}

/// Different octets spell different addresses.
pub proof fn addresses_are_read_apart(a: Seq<u8>, b: Seq<u8>)
    requires
        a.len() == 4,
        b.len() == 4,
    ensures
        ipv4(a) == ipv4(b) <==> a == b,
{
    from_be_bytes_of_four(a);
    from_be_bytes_of_four(b);
    if ipv4(a) == ipv4(b) {
        octets_are_unique(a[0], a[1], a[2], a[3], b[0], b[1], b[2], b[3]);
        assert(a =~= b);
    }
}

/// Four octets are told by the number that they spell.
proof fn octets_are_unique(a0: u8, a1: u8, a2: u8, a3: u8, b0: u8, b1: u8, b2: u8, b3: u8)
    requires
        a0 * 0x100_0000 + a1 * 0x1_0000 + a2 * 0x100 + a3 == b0 * 0x100_0000 + b1 * 0x1_0000 + b2
            * 0x100 + b3,
    ensures
        a0 == b0,
        a1 == b1,
        a2 == b2,
        a3 == b3,
{
    assert(a0 == b0);
    assert(a1 == b1);
    assert(a2 == b2);
}

} // verus!
