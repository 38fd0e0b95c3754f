//! Reading the headers of IP packets.

use etherparse::IpHeader;
use vstd::prelude::*;

verus! {

/// The IP protocol number of an authentication header.
pub const AUTHENTICATION_HEADER: u8 = 51;

/// What the start of a packet turned out to be.
#[derive(Clone, Copy, Debug, PartialEq, Eq)]
pub enum PacketHeader {
    /// An IPv4 header, with its addresses as octets in network order.
    V4 { source: [u8; 4], destination: [u8; 4] },
    /// An IPv6 header.
    V6,
    /// No IP header.
    Invalid,
}

/// Whether `b` starts with a whole authentication header. The second byte counts the
/// header in units of four bytes, less two, and is at least one.
pub open spec fn starts_with_authentication(b: Seq<u8>) -> bool {
    b.len() >= 12 && b[1] >= 1 && b.len() >= (b[1] + 2) * 4
}

/// How many bytes an IPv4 header says that it takes.
pub open spec fn ipv4_header_len(b: Seq<u8>) -> int {
    (b[0] % 16) * 4
}

/// Whether `b` starts with a whole IPv4 header: it has version four, takes at least twenty
/// bytes, all of them there, fits in the total length that it gives, and, where it
/// announces an authentication header, is followed by a whole one.
pub open spec fn starts_with_ipv4(b: Seq<u8>) -> bool {
    &&& b.len() >= 20
    &&& b[0] / 16 == 4
    &&& 20 <= ipv4_header_len(b) <= b.len()
    &&& b[2] * 256 + b[3] >= ipv4_header_len(b)
    &&& b[9] == AUTHENTICATION_HEADER ==> starts_with_authentication(b.skip(ipv4_header_len(b)))
}

/// Whether `etherparse::IpHeader::from_slice` reads an IPv6 header, with every extension
/// header that it knows, from the start of `b`.
pub uninterp spec fn starts_with_ipv6(b: Seq<u8>) -> bool;

/// Calls `etherparse::IpHeader::from_slice`. It reads an IPv4 header from exactly the
/// packets that [`starts_with_ipv4`] describes, and the addresses are the bytes 12 to 15
/// and 16 to 19. Which packets give an IPv6 header is left to a name; such a packet has at
/// least forty bytes and version six.
#[verifier::external_body]
pub(crate) fn read_header(packet: &[u8]) -> (r: PacketHeader)
    ensures
        r is V4 == starts_with_ipv4(packet@),
        (r matches PacketHeader::V4 { source, destination } ==> source@ == packet@.subrange(12, 16)
            && destination@ == packet@.subrange(16, 20)),
        r is V6 == starts_with_ipv6(packet@),
        r is V6 ==> packet@.len() >= 40 && packet@[0] / 16 == 6,
{
    match IpHeader::from_slice(packet) {
        Ok((IpHeader::Version4(h, _), _, _)) => PacketHeader::V4 {
            source: h.source,
            destination: h.destination,
        },
        Ok((IpHeader::Version6(_, _), _, _)) => PacketHeader::V6,
        Err(_) => PacketHeader::Invalid,
    }
}

} // verus!
