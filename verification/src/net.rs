//! IP addresses and socket addresses as plain integers.

use vstd::prelude::*;
use vstd::string::*;

use crate::text::{decimal, decimal_text};

verus! {

/// An IP address, held as the number its octets spell in network order.
#[derive(Clone, Copy, Debug, Hash, PartialEq, Eq, Structural)]
pub enum IpAddr {
    V4(u32),
    V6(u128),
}

/// An IP address with a port.
#[derive(Clone, Copy, Debug, Hash, PartialEq, Eq, Structural)]
pub struct SocketAddr {
    pub ip: IpAddr,
    pub port: u16,
}

/// The `len` least significant bytes of `value`, most significant first.
pub open spec fn be_bytes(value: nat, len: nat) -> Seq<u8>
    decreases len,
{
    if len == 0 {
        Seq::empty()
    } else {
        be_bytes(value / 256, (len - 1) as nat).push((value % 256) as u8)
    }
}

/// The number that `bytes` spell, most significant first.
pub open spec fn from_be_bytes(bytes: Seq<u8>) -> nat
    decreases bytes.len(),
{
    if bytes.len() == 0 {
        0
    } else {
        from_be_bytes(bytes.drop_last()) * 256 + bytes.last() as nat
    }
}

/// 256 to the power of `len`.
pub open spec fn byte_range(len: nat) -> nat
    decreases len,
{
    if len == 0 {
        1
    } else {
        256 * byte_range((len - 1) as nat)
    }
}

/// Reading back the bytes of a number that fits gives the number.
pub proof fn be_bytes_round_trip(value: nat, len: nat)
    requires
        value < byte_range(len),
    ensures
        be_bytes(value, len).len() == len,
        from_be_bytes(be_bytes(value, len)) == value,
    decreases len,
{
    if len > 0 {
        assert(value / 256 < byte_range((len - 1) as nat));
        be_bytes_round_trip(value / 256, (len - 1) as nat);
        assert(be_bytes(value, len).drop_last() =~= be_bytes(value / 256, (len - 1) as nat));
    }
}

/// Four bytes spell a number of at most 32 bits.
pub proof fn from_be_bytes_of_four(bytes: Seq<u8>)
    requires
        bytes.len() == 4,
    ensures
        from_be_bytes(bytes) == bytes[0] as nat * 0x100_0000 + bytes[1] as nat * 0x1_0000
            + bytes[2] as nat * 0x100 + bytes[3] as nat,
        from_be_bytes(bytes) <= u32::MAX,
{
    reveal_with_fuel(from_be_bytes, 5);
    let b3 = bytes.drop_last();
    let b2 = b3.drop_last();
    let b1 = b2.drop_last();
    assert(b1.drop_last() =~= Seq::<u8>::empty());
}

/// The `len` least significant bytes of `value` in network order.
pub fn to_be_bytes(value: u128, len: usize) -> (bytes: Vec<u8>)
    ensures
        bytes@ == be_bytes(value as nat, len as nat),
    decreases len,
{
    if len == 0 {
        Vec::new()
    } else {
        let mut bytes = to_be_bytes(value / 256, len - 1);
        bytes.push((value % 256) as u8);
        bytes
    }
}

impl IpAddr {
    /// Whether this is an IPv4 address.
    pub fn is_ipv4(&self) -> (b: bool)
        ensures
            b == (self is V4),
    {
        match self {
            IpAddr::V4(_) => true,
            IpAddr::V6(_) => false,
        }
    }

    /// The octets in network order: four of them, or sixteen.
    pub open spec fn octets_spec(self) -> Seq<u8> {
        match self {
            IpAddr::V4(a) => be_bytes(a as nat, 4),
            IpAddr::V6(a) => be_bytes(a as nat, 16),
        }
    }

    /// The octets in network order.
    pub fn octets(&self) -> (bytes: Vec<u8>)
        ensures
            bytes@ == self.octets_spec(),
    {
        match self {
            IpAddr::V4(a) => to_be_bytes(*a as u128, 4),
            IpAddr::V6(a) => to_be_bytes(*a, 16),
        }
    }

    /// An IPv4-mapped IPv6 address (`::ffff:a.b.c.d`) stands for the IPv4 address in it.
    pub open spec fn canonical(self) -> IpAddr {
        match self {
            IpAddr::V6(a) => if a / 0x1_0000_0000 == 0xffff {
                IpAddr::V4((a % 0x1_0000_0000) as u32)
            } else {
                self
            },
            IpAddr::V4(_) => self,
        }
    }

    /// The IPv4 address in an IPv4-mapped IPv6 address; any other address as it is.
    pub fn to_canonical(&self) -> (ip: IpAddr)
        ensures
            ip == self.canonical(),
    {
        match self {
            IpAddr::V6(a) => if *a / 0x1_0000_0000 == 0xffff {
                IpAddr::V4((*a % 0x1_0000_0000) as u32)
            } else {
                *self
            },
            IpAddr::V4(_) => *self,
        }
    }

    /// The IPv4 address `a.b.c.d`.
    pub fn from_octets(a: u8, b: u8, c: u8, d: u8) -> (ip: IpAddr)
        ensures
            ip == IpAddr::V4(from_be_bytes(seq![a, b, c, d]) as u32),
    {
        proof {
            from_be_bytes_of_four(seq![a, b, c, d]);
        }
        IpAddr::V4(
            a as u32 * 0x100_0000 + b as u32 * 0x1_0000 + c as u32 * 0x100 + d as u32,
        )
    }
}

/// An IPv4 address as text: its four octets in decimal, with dots between them.
pub open spec fn ipv4_text(a: u32) -> Seq<char> {
    decimal((a / 0x100_0000) as nat) + "."@ + decimal((a / 0x1_0000 % 256) as nat) + "."@
        + decimal((a / 0x100 % 256) as nat) + "."@ + decimal((a % 256) as nat)
}

impl IpAddr {
    /// The address as text, where `v6` is the text of an IPv6 address.
    pub open spec fn text(self, v6: Seq<char>) -> Seq<char> {
        match self {
            IpAddr::V4(a) => ipv4_text(a),
            IpAddr::V6(_) => v6,
        }
    }

    /// The address as text. The text of an IPv6 address is given, since only the standard
    /// library can write one.
    pub fn to_text(&self, v6: &str) -> (s: String)
        ensures
            s@ == self.text(v6@),
    {
        match self {
            IpAddr::V4(a) => {
                let a: u32 = *a;
                let s = decimal_text((a / 0x100_0000) as u128).concat(".");
                let s = s.concat(decimal_text((a / 0x1_0000 % 256) as u128).as_str()).concat(".");
                let s = s.concat(decimal_text((a / 0x100 % 256) as u128).as_str()).concat(".");
                s.concat(decimal_text((a % 256) as u128).as_str())
            },
            IpAddr::V6(_) => v6.to_owned(),
        }
    }
}

impl SocketAddr {
    /// The address with its IP in canonical form.
    pub open spec fn canonical(self) -> SocketAddr {
        SocketAddr { ip: self.ip.canonical(), port: self.port }
    }
}

/// The same address, with an IPv4-mapped IPv6 address turned into IPv4.
pub fn to_canonical(addr: SocketAddr) -> (res: SocketAddr)
    ensures
        res == addr.canonical(),
{
    SocketAddr { ip: addr.ip.to_canonical(), port: addr.port }
}

/// The same port on another IP.
pub fn with_ip(addr: SocketAddr, ip: IpAddr) -> (res: SocketAddr)
    ensures
        res == (SocketAddr { ip, port: addr.port }),
{
    SocketAddr { ip, port: addr.port }
}

/// Bringing an address into canonical form twice is the same as once.
pub proof fn canonical_idempotent(addr: SocketAddr)
    ensures
        addr.canonical().canonical() == addr.canonical(),
{
}

} // verus!
