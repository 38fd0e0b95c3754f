//! What holds of text that is built and taken apart.

use vstd::prelude::*;

use crate::net::{be_bytes, byte_range, IpAddr, SocketAddr};
use crate::text::{decimal, digit, joined, lines_of, split_lines, stripped, views, without_return};

verus! {

/// The number that decimal digits spell.
pub open spec fn spelled(s: Seq<char>) -> nat
    decreases s.len(),
{
    if s.len() == 0 {
        0
    } else {
        spelled(s.drop_last()) * 10 + (s.last() as nat - '0' as nat) as nat
    }
}

/// A number in decimal consists of digits, does not begin with a zero unless it is zero, and
/// spells the number.
pub proof fn decimals_spell_numbers(n: nat)
    ensures
        decimal(n).len() > 0,
        forall|i: int|
            0 <= i < decimal(n).len() ==> '0' <= #[trigger] decimal(n)[i] && decimal(n)[i] <= '9',
        n > 0 ==> decimal(n)[0] != '0',
        n == 0 ==> decimal(n) == seq!['0'],
        spelled(decimal(n)) == n,
    decreases n,
{
    if n < 10 {
        assert(decimal(n).drop_last() =~= Seq::empty());
        assert(spelled(decimal(n).drop_last()) == 0);
        assert(decimal(n).last() == digit(n));
    } else {
        decimals_spell_numbers(n / 10);
        assert(decimal(n).drop_last() =~= decimal(n / 10));
        assert(decimal(n).last() == digit(n % 10));
        assert(decimal(n)[0] == decimal(n / 10)[0]);
        assert forall|i: int| 0 <= i < decimal(n).len() implies '0' <= #[trigger] decimal(n)[i]
            && decimal(n)[i] <= '9' by {
            if i < decimal(n / 10).len() {
                assert(decimal(n)[i] == decimal(n / 10)[i]);
            }
        }
    }
}

/// Joining puts the separator between two pieces, and nowhere else.
pub proof fn pieces_are_joined_in_order(parts: Seq<Seq<char>>, sep: Seq<char>, piece: Seq<char>)
    ensures
        joined(Seq::empty(), sep).len() == 0,
        joined(seq![piece], sep) == piece,
        parts.len() > 0 ==> joined(parts.push(piece), sep) == joined(parts, sep) + sep + piece,
{
    assert(parts.push(piece).drop_last() =~= parts);
}

/// A suffix that is there is taken away once, and one that is not there is not.
pub proof fn suffixes_are_stripped(s: Seq<char>, suffix: Seq<char>)
    ensures
        stripped(s + suffix, suffix) == s,
        !suffix.is_suffix_of(s) ==> stripped(s, suffix) == s,
{
    assert((s + suffix).subrange(s.len() as int, (s + suffix).len() as int) =~= suffix);
    assert((s + suffix).take(s.len() as int) =~= s);
    assert(suffix.is_suffix_of(s + suffix));
}

/// What the strings in a vector say, one by one.
pub proof fn views_are_read_one_by_one(parts: Seq<String>, i: int)
    requires
        0 <= i < parts.len(),
    ensures
        views(parts).len() == parts.len(),
        views(parts)[i] == parts[i]@,
{
}

/// What follows a line feed is split as if it stood alone.
proof fn lemma_split_after_feed(a: Seq<char>, b: Seq<char>)
    ensures
        split_lines(a.push('\n') + b).0 == split_lines(a.push('\n')).0 + split_lines(b).0,
        split_lines(a.push('\n') + b).1 == split_lines(b).1,
    decreases b.len(),
{
    let s = a.push('\n') + b;
    if b.len() == 0 {
        assert(s =~= a.push('\n'));
        assert(split_lines(a.push('\n')).0 + split_lines(b).0 =~= split_lines(a.push('\n')).0);
    } else {
        lemma_split_after_feed(a, b.drop_last());
        assert(s.drop_last() =~= a.push('\n') + b.drop_last());
        assert(s.last() == b.last());
        assert(split_lines(s).0 =~= split_lines(a.push('\n')).0 + split_lines(b).0);
    }
}

/// A text without a line feed has no line that is ended.
proof fn lemma_no_feed(line: Seq<char>)
    requires
        !line.contains('\n'),
    ensures
        split_lines(line).0.len() == 0,
        split_lines(line).1 == line,
    decreases line.len(),
{
    if line.len() > 0 {
        assert forall|i: int| 0 <= i < line.drop_last().len() implies line.drop_last()[i] != '\n' by {
            assert(line[i] != '\n');
        }
        lemma_no_feed(line.drop_last());
        assert(line[line.len() - 1] != '\n');
        assert(line.drop_last().push(line.last()) =~= line);
    }
}

/// How a text is taken apart: at each line feed, which belongs to no line, no more than one
/// carriage return before it; what is not ended by a line feed is a line unless it is empty,
/// and keeps its carriage return.
pub proof fn lines_end_at_line_feeds(a: Seq<char>, b: Seq<char>, line: Seq<char>)
    requires
        !line.contains('\n'),
    ensures
        lines_of(Seq::empty()).len() == 0,
        lines_of(a.push('\n') + b) == lines_of(a.push('\n')) + lines_of(b),
        line.len() > 0 ==> lines_of(line) == seq![line],
        line.len() > 0 && line.last() == '\r' ==> lines_of(line.push('\n')) == seq![
            line.drop_last(),
        ],
        line.len() == 0 || line.last() != '\r' ==> lines_of(line.push('\n')) == seq![line],
{
    lemma_split_after_feed(a, b);
    lemma_no_feed(line);
    assert(a.push('\n').drop_last() =~= a);
    assert(split_lines(a.push('\n')).1.len() == 0);
    assert(lines_of(a.push('\n') + b) =~= lines_of(a.push('\n')) + lines_of(b));
    assert(line.push('\n').drop_last() =~= line);
    assert(split_lines(line.push('\n')).0 =~= seq![without_return(line)]);
}

/// The bytes of a number, most significant first: the last is its remainder by 256, and the
/// others are those of its quotient.
pub proof fn bytes_are_in_network_order(value: nat, len: nat)
    requires
        len > 0,
    ensures
        be_bytes(value, 0).len() == 0,
        be_bytes(value, len).len() == len,
        be_bytes(value, len).last() == value % 256,
        be_bytes(value, len).drop_last() == be_bytes(value / 256, (len - 1) as nat),
        byte_range(0) == 1,
        byte_range(len) == 256 * byte_range((len - 1) as nat),
    decreases len,
{
    assert(be_bytes(value, len).drop_last() =~= be_bytes(value / 256, (len - 1) as nat));
    if len > 1 {
        bytes_are_in_network_order(value / 256, (len - 1) as nat);
    }
}

/// The octets of an IPv4 address are its four bytes, and its text is these in decimal with
/// dots between them; an IPv6 address has sixteen.
pub proof fn octets_and_text_of_addresses(a: u32, b: u128, v6: Seq<char>)
    ensures
        IpAddr::V4(a).octets_spec() == seq![
            (a / 0x100_0000) as u8,
            (a / 0x1_0000 % 256) as u8,
            (a / 0x100 % 256) as u8,
            (a % 256) as u8,
        ],
        IpAddr::V6(b).octets_spec() == be_bytes(b as nat, 16),
        IpAddr::V4(a).text(v6) == decimal((a / 0x100_0000) as nat) + "."@ + decimal(
            (a / 0x1_0000 % 256) as nat,
        ) + "."@ + decimal((a / 0x100 % 256) as nat) + "."@ + decimal((a % 256) as nat),
        IpAddr::V6(b).text(v6) == v6,
{
    reveal_with_fuel(be_bytes, 5);
    let n = a as nat;
    assert(n / 256 / 256 == n / 0x1_0000);
    assert(n / 256 / 256 / 256 == n / 0x100_0000);
    assert(n / 256 / 256 / 256 % 256 == n / 0x100_0000);
    assert(be_bytes(n, 4) =~= seq![
        (a / 0x100_0000) as u8,
        (a / 0x1_0000 % 256) as u8,
        (a / 0x100 % 256) as u8,
        (a % 256) as u8,
    ]);
}

/// An address in canonical form: IPv4 in IPv6 (`::ffff:a.b.c.d`) is the IPv4 address, and
/// nothing else changes, the port least of all.
pub proof fn what_canonical_form_is(a: u32, b: u128, port: u16)
    ensures
        IpAddr::V4(a).canonical() == IpAddr::V4(a),
        IpAddr::V6((0xffff * 0x1_0000_0000 + a) as u128).canonical() == IpAddr::V4(a),
        b < 0xffff_0000_0000 || b > 0xffff_ffff_ffff ==> IpAddr::V6(b).canonical() == IpAddr::V6(
            b,
        ),
        (SocketAddr { ip: IpAddr::V4(a), port }).canonical() == (SocketAddr {
            ip: IpAddr::V4(a),
            port,
        }),
        (SocketAddr { ip: IpAddr::V6(b), port }).canonical().ip == IpAddr::V6(b).canonical(),
        (SocketAddr { ip: IpAddr::V6(b), port }).canonical().port == port,
{
}

} // verus!
