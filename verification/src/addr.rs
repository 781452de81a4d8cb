//! The address model: a destination host (IPv4, IPv6 or domain name) with a
//! port, and the plain text form handed to the outbound dial primitive.

use vstd::prelude::*;
use vstd::slice::slice_to_vec;

verus! {

/// The host part of a destination, as a protocol header encodes it.
#[derive(PartialEq, Eq, Debug)]
pub enum HostAddr {
    Ipv4([u8; 4]),
    Domain(Vec<u8>),
    Ipv6([u8; 16]),
}

/// The mathematical model of a host address.
pub enum HostSpec {
    V4(Seq<u8>),
    Domain(Seq<u8>),
    V6(Seq<u8>),
}

impl View for HostAddr {
    type V = HostSpec;

    open spec fn view(&self) -> HostSpec {
        match self {
            HostAddr::Ipv4(a) => HostSpec::V4(a@),
            HostAddr::Domain(d) => HostSpec::Domain(d@),
            HostAddr::Ipv6(a) => HostSpec::V6(a@),
        }
    }
}

/// A destination endpoint: host plus port.
#[derive(PartialEq, Eq, Debug)]
pub struct Endpoint {
    pub host: HostAddr,
    pub port: u16,
}

pub struct EndpointView {
    pub host: HostSpec,
    pub port: u16,
}

impl View for Endpoint {
    type V = EndpointView;

    open spec fn view(&self) -> EndpointView {
        EndpointView { host: self.host@, port: self.port }
    }
}

/// A well-formed host: the byte fields have the lengths their kind fixes,
/// and a domain name is 1 to 255 ASCII bytes.
pub open spec fn host_wf(h: HostSpec) -> bool {
    match h {
        HostSpec::V4(a) => a.len() == 4,
        HostSpec::Domain(d) => 1 <= d.len() <= 255 && forall|i: int| 0 <= i < d.len() ==> d[i] < 128,
        HostSpec::V6(a) => a.len() == 16,
    }
}

/// A well-formed endpoint: a well-formed host and a nonzero port.
pub open spec fn endpoint_wf(e: EndpointView) -> bool {
    host_wf(e.host) && e.port >= 1
}

/// What the engine actually dials: an address in text form plus a port.
/// It is also the shape of a configured egress override.
#[derive(Clone, PartialEq, Eq, Debug)]
pub struct DialTarget {
    pub addr: Vec<u8>,
    pub port: u16,
}

impl View for DialTarget {
    type V = (Seq<u8>, u16);

    open spec fn view(&self) -> (Seq<u8>, u16) {
        (self.addr@, self.port)
    }
}

/// The decimal text of one byte, without leading zeros.
pub open spec fn dec_byte_seq(n: u8) -> Seq<u8> {
    if n < 10 {
        seq![(48 + n) as u8]
    } else if n < 100 {
        seq![(48 + n / 10) as u8, (48 + n % 10) as u8]
    } else {
        seq![(48 + n / 100) as u8, (48 + (n / 10) % 10) as u8, (48 + n % 10) as u8]
    }
}

/// One lowercase hexadecimal digit for a value below 16.
pub open spec fn hex_digit(d: u8) -> u8 {
    if d < 10 {
        (48 + d) as u8
    } else {
        (87 + d) as u8
    }
}

/// The lowercase hexadecimal text of one 16-bit group, without leading zeros.
pub open spec fn hex_group_seq(g: u16) -> Seq<u8> {
    if g < 0x10 {
        seq![hex_digit(g as u8)]
    } else if g < 0x100 {
        seq![hex_digit((g / 0x10) as u8), hex_digit((g % 0x10) as u8)]
    } else if g < 0x1000 {
        seq![
            hex_digit((g / 0x100) as u8),
            hex_digit(((g / 0x10) % 0x10) as u8),
            hex_digit((g % 0x10) as u8),
        ]
    } else {
        seq![
            hex_digit((g / 0x1000) as u8),
            hex_digit(((g / 0x100) % 0x10) as u8),
            hex_digit(((g / 0x10) % 0x10) as u8),
            hex_digit((g % 0x10) as u8),
        ]
    }
}

/// The value of the i-th 16-bit group of an IPv6 address, big endian.
pub open spec fn v6_group(a: Seq<u8>, i: int) -> u16
    recommends
        a.len() == 16,
        0 <= i < 8,
{
    (a[2 * i] * 256 + a[2 * i + 1]) as u16
}

/// The text of an IPv6 address: eight hexadecimal groups joined by colons,
/// each without leading zeros and without zero-run compression.
pub open spec fn v6_text_seq(a: Seq<u8>) -> Seq<u8>
    recommends
        a.len() == 16,
{
    hex_group_seq(v6_group(a, 0)) + seq![58u8] + hex_group_seq(v6_group(a, 1)) + seq![58u8]
        + hex_group_seq(v6_group(a, 2)) + seq![58u8] + hex_group_seq(v6_group(a, 3)) + seq![58u8]
        + hex_group_seq(v6_group(a, 4)) + seq![58u8] + hex_group_seq(v6_group(a, 5)) + seq![58u8]
        + hex_group_seq(v6_group(a, 6)) + seq![58u8] + hex_group_seq(v6_group(a, 7))
}

/// The text form of a host address, as the dial primitive takes it:
/// dotted decimal for IPv4, the name itself for a domain, uncompressed
/// lowercase hexadecimal groups for IPv6.
pub open spec fn host_text_seq(h: HostSpec) -> Seq<u8> {
    match h {
        HostSpec::V4(a) => dec_byte_seq(a[0]) + seq![46u8] + dec_byte_seq(a[1]) + seq![46u8]
            + dec_byte_seq(a[2]) + seq![46u8] + dec_byte_seq(a[3]),
        HostSpec::Domain(d) => d,
        HostSpec::V6(a) => v6_text_seq(a),
    }
}

/// Appends the decimal text of `n`.
fn push_dec_byte(v: &mut Vec<u8>, n: u8)
    ensures
        final(v)@ == old(v)@ + dec_byte_seq(n),
{
    if n >= 100 {
        v.push(48 + n / 100);
        v.push(48 + (n / 10) % 10);
        v.push(48 + n % 10);
    } else if n >= 10 {
        v.push(48 + n / 10);
        v.push(48 + n % 10);
    } else {
        v.push(48 + n);
    }
    assert(v@ =~= old(v)@ + dec_byte_seq(n));
}

/// Appends the hexadecimal text of one group.
fn push_hex_group(v: &mut Vec<u8>, g: u16)
    ensures
        final(v)@ == old(v)@ + hex_group_seq(g),
{
    if g >= 0x1000 {
        v.push(hex_digit_exec((g / 0x1000) as u8));
        v.push(hex_digit_exec(((g / 0x100) % 0x10) as u8));
        v.push(hex_digit_exec(((g / 0x10) % 0x10) as u8));
        v.push(hex_digit_exec((g % 0x10) as u8));
    } else if g >= 0x100 {
        v.push(hex_digit_exec((g / 0x100) as u8));
        v.push(hex_digit_exec(((g / 0x10) % 0x10) as u8));
        v.push(hex_digit_exec((g % 0x10) as u8));
    } else if g >= 0x10 {
        v.push(hex_digit_exec((g / 0x10) as u8));
        v.push(hex_digit_exec((g % 0x10) as u8));
    } else {
        v.push(hex_digit_exec(g as u8));
    }
    assert(v@ =~= old(v)@ + hex_group_seq(g));
}

/// One lowercase hexadecimal digit.
pub fn hex_digit_exec(d: u8) -> (r: u8)
    requires
        d < 16,
    ensures
        r == hex_digit(d),
{
    if d < 10 {
        48 + d
    } else {
        87 + d
    }
}

/// The text form of a host address, for the outbound dial.
pub fn host_text(h: &HostAddr) -> (r: Vec<u8>)
    ensures
        r@ == host_text_seq(h@),
{
    match h {
        HostAddr::Ipv4(a) => {
            let mut v: Vec<u8> = Vec::new();
            push_dec_byte(&mut v, a[0]);
            v.push(46);
            push_dec_byte(&mut v, a[1]);
            v.push(46);
            push_dec_byte(&mut v, a[2]);
            v.push(46);
            push_dec_byte(&mut v, a[3]);
            assert(v@ =~= host_text_seq(h@));
            v
        },
        HostAddr::Domain(d) => {
            let v = slice_to_vec(d.as_slice());
            v
        },
        HostAddr::Ipv6(a) => {
            let mut v: Vec<u8> = Vec::new();
            let mut i: usize = 0;
            while i < 8
                invariant
                    i <= 8,
                    a@.len() == 16,
                    v@ == v6_prefix_seq(a@, i as int),
                decreases 8 - i,
            {
                if i > 0 {
                    v.push(58);
                }
                let g: u16 = (a[2 * i] as u16) * 256 + (a[2 * i + 1] as u16);
                assert(g == v6_group(a@, i as int));
                push_hex_group(&mut v, g);
                assert(v@ =~= v6_prefix_seq(a@, i as int + 1));
                i = i + 1;
            }
            proof {
                reveal_with_fuel(v6_prefix_seq, 9);
            }
            assert(v@ =~= v6_text_seq(a@));
            v
        },
    }
}

/// The first `i` groups of the IPv6 text, joined by colons.
pub open spec fn v6_prefix_seq(a: Seq<u8>, i: int) -> Seq<u8>
    recommends
        a.len() == 16,
        0 <= i <= 8,
    decreases i,
{
    if i <= 0 {
        Seq::empty()
    } else if i == 1 {
        hex_group_seq(v6_group(a, 0))
    } else {
        v6_prefix_seq(a, i - 1) + seq![58u8] + hex_group_seq(v6_group(a, i - 1))
    }
}

} // verus!
