use vstd::prelude::*;
use vstd::utf8::encode_utf8;

use crate::text::{decimal, push_decimal};

verus! {

/// An IP address: IPv4 as its 32 bits, IPv6 as its 128 bits (network order read as a
/// number, as `Ipv4Addr::from(u32)` and `Ipv6Addr::from(u128)` take them).
#[derive(Debug, Clone, Copy, PartialEq, Eq, Hash)]
pub enum IpAddress {
    V4(u32),
    V6(u128),
}

/// An IP address with a port.
#[derive(Debug, Clone, Copy, PartialEq, Eq, Hash)]
pub struct SocketAddress {
    pub ip: IpAddress,
    pub port: u16,
}

impl SocketAddress {
    pub fn new(ip: IpAddress, port: u16) -> (r: Self)
        ensures
            r.ip == ip,
            r.port == port,
    {
        SocketAddress { ip, port }
    }

    pub fn port(&self) -> (r: u16)
        ensures
            r == self.port,
    {
        self.port
    }
}

/// Dotted-decimal text of an IPv4 address.
pub open spec fn ipv4_text(a: u32) -> Seq<char> {
    decimal((a / 16777216) as nat) + seq!['.'] + decimal(((a / 65536) % 256) as nat) + seq!['.']
        + decimal(((a / 256) % 256) as nat) + seq!['.'] + decimal((a % 256) as nat)
}

/// The eight 16-bit segments of an IPv6 address, most significant first.
pub open spec fn segment(a: u128, i: int) -> u16 {
    ((a as nat / pow65536((7 - i) as nat)) % 65536) as u16
}

pub open spec fn pow65536(n: nat) -> nat
    decreases n,
{
    if n == 0 {
        1
    } else {
        65536 * pow65536((n - 1) as nat)
    }
}

pub open spec fn segments(a: u128) -> Seq<u16> {
    Seq::new(8, |i: int| segment(a, i))
}

/// Lowercase hexadecimal digit.
pub open spec fn hex_char(d: int) -> char {
    if d < 10 {
        (d + 48) as char
    } else {
        (d + 87) as char
    }
}

/// Lowercase hexadecimal rendering without leading zeros (`{:x}`).
pub open spec fn hex(n: nat) -> Seq<char>
    decreases n,
{
    if n < 16 {
        seq![hex_char(n as int)]
    } else {
        hex(n / 16).push(hex_char((n % 16) as int))
    }
}

/// Segments in hexadecimal joined by `:`.
pub open spec fn hex_join(segs: Seq<u16>) -> Seq<char>
    decreases segs.len(),
{
    if segs.len() == 0 {
        seq![]
    } else if segs.len() == 1 {
        hex(segs[0] as nat)
    } else {
        hex_join(segs.drop_last()) + seq![':'] + hex(segs.last() as nat)
    }
}

/// Scan for the longest run of zero segments, the first one on a tie: the current run
/// `(start, len)` and the longest so far.
pub open spec fn zero_run_scan(segs: Seq<u16>) -> ((int, int), (int, int))
    decreases segs.len(),
{
    if segs.len() == 0 {
        ((0, 0), (0, 0))
    } else {
        let (current, longest) = zero_run_scan(segs.drop_last());
        let i = segs.len() - 1;
        if segs.last() == 0 {
            let cur = if current.1 == 0 {
                (i, 1int)
            } else {
                (current.0, current.1 + 1)
            };
            (cur, if cur.1 > longest.1 { cur } else { longest })
        } else {
            ((0, 0), longest)
        }
    }
}

/// Whether the address is an IPv4-mapped one, `::ffff:a.b.c.d`.
pub open spec fn is_v4_mapped(a: u128) -> bool {
    &&& forall|i: int| 0 <= i < 5 ==> segment(a, i) == 0
    &&& segment(a, 5) == 0xffff
}

/// The text that `Ipv6Addr`'s `Display` gives (RFC 5952): IPv4-mapped addresses as
/// `::ffff:` and dotted decimal; otherwise lowercase hexadecimal segments, with the
/// first longest run of at least two zero segments written as `::`.
pub open spec fn ipv6_text(a: u128) -> Seq<char> {
    let segs = segments(a);
    if is_v4_mapped(a) {
        seq![':', ':', 'f', 'f', 'f', 'f', ':'] + ipv4_text((a % 0x1_0000_0000) as u32)
    } else {
        let longest = zero_run_scan(segs).1;
        if longest.1 > 1 {
            hex_join(segs.subrange(0, longest.0)) + seq![':', ':'] + hex_join(
                segs.subrange(longest.0 + longest.1, 8),
            )
        } else {
            hex_join(segs)
        }
    }
}

/// Text of an IP address, as `IpAddr`'s `Display` gives it.
pub open spec fn ip_text(ip: IpAddress) -> Seq<char> {
    match ip {
        IpAddress::V4(a) => ipv4_text(a),
        IpAddress::V6(a) => ipv6_text(a),
    }
}

/// One lowercase hexadecimal digit as text.
fn hex_digit_text(d: u64) -> (s: &'static str)
    requires
        d < 16,
    ensures
        s@ == seq![hex_char(d as int)],
{
    proof {
        reveal_strlit("0");
        reveal_strlit("1");
        reveal_strlit("2");
        reveal_strlit("3");
        reveal_strlit("4");
        reveal_strlit("5");
        reveal_strlit("6");
        reveal_strlit("7");
        reveal_strlit("8");
        reveal_strlit("9");
        reveal_strlit("a");
        reveal_strlit("b");
        reveal_strlit("c");
        reveal_strlit("d");
        reveal_strlit("e");
        reveal_strlit("f");
    }
    match d {
        0 => "0",
        1 => "1",
        2 => "2",
        3 => "3",
        4 => "4",
        5 => "5",
        6 => "6",
        7 => "7",
        8 => "8",
        9 => "9",
        10 => "a",
        11 => "b",
        12 => "c",
        13 => "d",
        14 => "e",
        _ => "f",
    }
}

/// Appends the lowercase hexadecimal rendering of `n`.
fn push_hex(s: &mut String, n: u64)
    ensures
        final(s)@ == old(s)@ + hex(n as nat),
    decreases n,
{
    if n < 16 {
        s.append(hex_digit_text(n));
    } else {
        push_hex(s, n / 16);
        s.append(hex_digit_text(n % 16));
    }
}

/// Appends the segments `segs[from..to]` in hexadecimal, joined by `:`.
fn push_hex_join(s: &mut String, segs: &Vec<u16>, from: usize, to: usize)
    requires
        from <= to <= segs@.len(),
    ensures
        final(s)@ == old(s)@ + hex_join(segs@.subrange(from as int, to as int)),
    decreases to - from,
{
    if from == to {
        proof {
            assert(segs@.subrange(from as int, to as int).len() == 0);
            assert(final(s)@ =~= old(s)@ + hex_join(segs@.subrange(from as int, to as int)));
        }
    } else if from + 1 == to {
        push_hex(s, segs[from] as u64);
        proof {
            assert(segs@.subrange(from as int, to as int) =~= seq![segs@[from as int]]);
        }
    } else {
        push_hex_join(s, segs, from, to - 1);
        proof {
            reveal_strlit(":");
        }
        s.append(":");
        push_hex(s, segs[to - 1] as u64);
        proof {
            let sub = segs@.subrange(from as int, to as int);
            assert(sub.drop_last() =~= segs@.subrange(from as int, to - 1));
            assert(final(s)@ =~= old(s)@ + hex_join(sub));
        }
    }
}

/// The eight segments of an IPv6 address.
fn segments_of(a: u128) -> (segs: Vec<u16>)
    ensures
        segs@ == segments(a),
{
    proof {
        reveal_with_fuel(pow65536, 8);
    }
    let mut segs: Vec<u16> = Vec::new();
    segs.push((a / 0x1_0000_0000_0000_0000_0000_0000_0000) as u16);
    segs.push(((a / 0x1_0000_0000_0000_0000_0000_0000) % 65536) as u16);
    segs.push(((a / 0x1_0000_0000_0000_0000_0000) % 65536) as u16);
    segs.push(((a / 0x1_0000_0000_0000_0000) % 65536) as u16);
    segs.push(((a / 0x1_0000_0000_0000) % 65536) as u16);
    segs.push(((a / 0x1_0000_0000) % 65536) as u16);
    segs.push(((a / 0x1_0000) % 65536) as u16);
    segs.push((a % 65536) as u16);
    proof {
        assert(a / 0x1_0000_0000_0000_0000_0000_0000_0000 < 65536);
        assert(pow65536(0) == 1);
        assert(pow65536(1) == 0x1_0000);
        assert(pow65536(2) == 0x1_0000_0000);
        assert(pow65536(3) == 0x1_0000_0000_0000);
        assert(pow65536(4) == 0x1_0000_0000_0000_0000);
        assert(pow65536(5) == 0x1_0000_0000_0000_0000_0000);
        assert(pow65536(6) == 0x1_0000_0000_0000_0000_0000_0000);
        assert(pow65536(7) == 0x1_0000_0000_0000_0000_0000_0000_0000);
        assert forall|i: int| 0 <= i < 8 implies segs@[i] == segment(a, i) by {
            if i == 0 {
                assert(pow65536((7 - i) as nat) == 0x1_0000_0000_0000_0000_0000_0000_0000);
                assert(segment(a, 0) == ((a as nat / 0x1_0000_0000_0000_0000_0000_0000_0000) % 65536) as u16);
            }
            if i == 1 {
                assert(pow65536((7 - i) as nat) == 0x1_0000_0000_0000_0000_0000_0000);
                assert(segment(a, 1) == ((a as nat / 0x1_0000_0000_0000_0000_0000_0000) % 65536) as u16);
            }
            if i == 2 {
                assert(pow65536((7 - i) as nat) == 0x1_0000_0000_0000_0000_0000);
                assert(segment(a, 2) == ((a as nat / 0x1_0000_0000_0000_0000_0000) % 65536) as u16);
            }
            if i == 3 {
                assert(pow65536((7 - i) as nat) == 0x1_0000_0000_0000_0000);
                assert(segment(a, 3) == ((a as nat / 0x1_0000_0000_0000_0000) % 65536) as u16);
            }
            if i == 4 {
                assert(pow65536((7 - i) as nat) == 0x1_0000_0000_0000);
                assert(segment(a, 4) == ((a as nat / 0x1_0000_0000_0000) % 65536) as u16);
            }
            if i == 5 {
                assert(pow65536((7 - i) as nat) == 0x1_0000_0000);
                assert(segment(a, 5) == ((a as nat / 0x1_0000_0000) % 65536) as u16);
            }
            if i == 6 {
                assert(pow65536((7 - i) as nat) == 0x1_0000);
                assert(segment(a, 6) == ((a as nat / 0x1_0000) % 65536) as u16);
            }
            if i == 7 {
                assert(pow65536((7 - i) as nat) == 1);
                assert(segment(a, 7) == ((a as nat / 1) % 65536) as u16);
            }
        }
        assert(segs@ =~= segments(a));
    }
    segs
}

/// Text of an IPv6 address, as `Ipv6Addr`'s `Display` gives it.
pub fn ipv6_to_string(a: u128) -> (s: String)
    ensures
        s@ == ipv6_text(a),
{
    let segs = segments_of(a);
    let mut s = String::new();
    let mut mapped = segs[5] == 0xffff;
    let mut k: usize = 0;
    while k < 5
        invariant
            k <= 5,
            segs@ == segments(a),
            mapped == (segment(a, 5) == 0xffff && forall|i: int| 0 <= i < k ==> segment(a, i) == 0),
        decreases 5 - k,
    {
        if segs[k] != 0 {
            mapped = false;
        }
        k = k + 1;
    }
    if mapped {
        proof {
            reveal_strlit("::ffff:");
        }
        s.append("::ffff:");
        let low = ipv4_to_string((a % 0x1_0000_0000) as u32);
        s.append(low.as_str());
        proof {
            assert(s@ =~= ipv6_text(a));
        }
        return s;
    }
    let mut cur_start: usize = 0;
    let mut cur_len: usize = 0;
    let mut long_start: usize = 0;
    let mut long_len: usize = 0;
    let mut i: usize = 0;
    while i < 8
        invariant
            i <= 8,
            segs@ == segments(a),
            zero_run_scan(segs@.take(i as int)) == ((cur_start as int, cur_len as int), (
                long_start as int,
                long_len as int,
            )),
            cur_start + cur_len <= i,
            long_start + long_len <= i,
        decreases 8 - i,
    {
        proof {
            assert(segs@.take(i + 1).drop_last() =~= segs@.take(i as int));
        }
        if segs[i] == 0 {
            if cur_len == 0 {
                cur_start = i;
            }
            cur_len = cur_len + 1;
            if cur_len > long_len {
                long_start = cur_start;
                long_len = cur_len;
            }
        } else {
            cur_start = 0;
            cur_len = 0;
        }
        i = i + 1;
    }
    proof {
        assert(segs@.take(8) =~= segs@);
    }
    if long_len > 1 {
        push_hex_join(&mut s, &segs, 0, long_start);
        proof {
            reveal_strlit("::");
        }
        s.append("::");
        push_hex_join(&mut s, &segs, long_start + long_len, 8);
    } else {
        push_hex_join(&mut s, &segs, 0, 8);
        proof {
            assert(segs@.subrange(0, 8) =~= segs@);
        }
    }
    proof {
        assert(s@ =~= ipv6_text(a));
    }
    s
}

/// Dotted-decimal text of an IPv4 address.
pub fn ipv4_to_string(a: u32) -> (s: String)
    ensures
        s@ == ipv4_text(a),
{
    let mut s = String::new();
    push_decimal(&mut s, (a / 16777216) as u64);
    s.append(".");
    push_decimal(&mut s, ((a / 65536) % 256) as u64);
    s.append(".");
    push_decimal(&mut s, ((a / 256) % 256) as u64);
    s.append(".");
    push_decimal(&mut s, (a % 256) as u64);
    proof {
        reveal_strlit(".");
        assert(s@ =~= ipv4_text(a));
    }
    s
}

/// Text of an IP address.
pub fn ip_to_string(ip: &IpAddress) -> (s: String)
    ensures
        s@ == ip_text(*ip),
{
    match ip {
        IpAddress::V4(a) => ipv4_to_string(*a),
        IpAddress::V6(a) => ipv6_to_string(*a),
    }
}

/// The UTF-8 bytes of an address's text.
pub open spec fn ip_text_bytes(ip: IpAddress) -> Seq<u8> {
    encode_utf8(ip_text(ip))
}

/// The port whose network-order bytes are the low two bytes of `field` as a
/// little-endian machine stores it (what `u16::from_be(field as u16)` gives there).
pub open spec fn net_port(field: u32) -> u16 {
    ((field % 256) * 256 + (field / 256) % 256) as u16
}

/// The IPv4 address whose network-order bytes are those of `field` as a little-endian
/// machine stores it (what `u32::from_be(field)` gives there).
pub open spec fn net_ipv4(field: u32) -> u32 {
    ((field % 256) * 16777216 + ((field / 256) % 256) * 65536 + ((field / 65536) % 256) * 256
        + field / 16777216) as u32
}

/// The number whose big-endian bytes are `b`.
pub open spec fn be_value(b: Seq<u8>) -> nat
    decreases b.len(),
{
    if b.len() == 0 {
        0
    } else {
        be_value(b.drop_last()) * 256 + b.last() as nat
    }
}

proof fn lemma_be_value_bound(b: Seq<u8>)
    ensures
        be_value(b) < pow256_nat(b.len()),
    decreases b.len(),
{
    if b.len() > 0 {
        lemma_be_value_bound(b.drop_last());
        let p = pow256_nat((b.len() - 1) as nat);
        let v = be_value(b.drop_last());
        assert(v * 256 + b.last() < p * 256) by (nonlinear_arith)
            requires
                v < p,
                b.last() < 256,
        ;
    }
}

/// 256 to the power `n`.
pub open spec fn pow256_nat(n: nat) -> nat
    decreases n,
{
    if n == 0 {
        1
    } else {
        pow256_nat((n - 1) as nat) * 256
    }
}

/// Reads a port stored in network byte order.
pub fn port_from_network(field: u32) -> (p: u16)
    ensures
        p == net_port(field),
{
    let p = (((field & 0xff) << 8) | ((field >> 8) & 0xff)) as u16;
    assert((((field & 0xff) << 8) | ((field >> 8) & 0xff)) as u16 == ((field % 256) * 256 + (field / 256)
        % 256) as u16) by (bit_vector);
    p
}

/// Reads an IPv4 address stored in network byte order.
pub fn ipv4_from_network(field: u32) -> (a: u32)
    ensures
        a == net_ipv4(field),
{
    let a = ((field & 0xff) << 24) | (((field >> 8) & 0xff) << 16) | (((field >> 16) & 0xff) << 8) | (field
        >> 24);
    assert(((field & 0xff) << 24) | (((field >> 8) & 0xff) << 16) | (((field >> 16) & 0xff) << 8) | (field
        >> 24) == ((field % 256) * 16777216 + ((field / 256) % 256) * 65536 + ((field / 65536) % 256) * 256
        + field / 16777216) as u32) by (bit_vector);
    a
}

/// Reads an IPv6 address from its sixteen bytes, most significant first.
pub fn ipv6_from_bytes(bytes: [u8; 16]) -> (a: u128)
    ensures
        a == be_value(bytes@),
{
    let mut a: u128 = 0;
    let mut i: usize = 0;
    while i < 16
        invariant
            i <= 16,
            bytes@.len() == 16,
            a == be_value(bytes@.take(i as int)),
        decreases 16 - i,
    {
        proof {
            assert(bytes@.take(i + 1).drop_last() =~= bytes@.take(i as int));
            lemma_be_value_bound(bytes@.take(i as int));
            reveal_with_fuel(pow256_nat, 16);
            assert(pow256_nat(15) * 256 == 0x1_0000_0000_0000_0000_0000_0000_0000_0000);
            lemma_pow256_nat_monotone(i as nat, 15);
            assert(a * 256 + 255 < 0x1_0000_0000_0000_0000_0000_0000_0000_0000) by (nonlinear_arith)
                requires
                    a < pow256_nat(i as nat),
                    pow256_nat(i as nat) <= pow256_nat(15),
                    pow256_nat(15) * 256 == 0x1_0000_0000_0000_0000_0000_0000_0000_0000,
            ;
        }
        a = a * 256 + bytes[i] as u128;
        i = i + 1;
    }
    proof {
        assert(bytes@.take(16) =~= bytes@);
    }
    a
}

proof fn lemma_pow256_nat_monotone(a: nat, b: nat)
    requires
        a <= b,
    ensures
        pow256_nat(a) <= pow256_nat(b),
    decreases b,
{
    if a < b {
        lemma_pow256_nat_monotone(a, (b - 1) as nat);
    }
}

/// An IPv4 endpoint whose address and port fields hold network byte order.
pub fn ipv4_endpoint(addr_field: u32, port_field: u32) -> (r: SocketAddress)
    ensures
        r == (SocketAddress { ip: IpAddress::V4(net_ipv4(addr_field)), port: net_port(port_field) }),
{
    SocketAddress::new(IpAddress::V4(ipv4_from_network(addr_field)), port_from_network(port_field))
}

/// An IPv6 endpoint from the address's bytes and a port field in network byte order.
pub fn ipv6_endpoint(addr: [u8; 16], port_field: u32) -> (r: SocketAddress)
    ensures
        r == (SocketAddress { ip: IpAddress::V6(be_value(addr@) as u128), port: net_port(port_field) }),
{
    SocketAddress::new(IpAddress::V6(ipv6_from_bytes(addr)), port_from_network(port_field))
}

} // verus!
