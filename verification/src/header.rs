//! The header parsers: one per protocol, behind a uniform contract. Given
//! the classified buffer, each extracts the credential, the command, the
//! destination, the response header the protocol owes the client, and the
//! leftover payload bytes that follow the header.
//!
//! A malformed or incomplete header — a length that points past the end of
//! the buffer, a wrong marker byte, an unknown address type, a zero port —
//! is `TruncatedHeader`. A command other than TCP connect is
//! `UnsupportedCommand`.

use vstd::prelude::*;
use vstd::slice::{slice_subrange, slice_to_vec};
use crate::addr::{Endpoint, EndpointView, HostAddr, HostSpec, endpoint_wf};
use crate::detect::Protocol;
use crate::err::TunnelError;

verus! {

/// How an address is laid out on the wire, after the protocol's own
/// address-type byte has been decoded.
#[derive(Clone, Copy, PartialEq, Eq, Structural, Debug)]
pub enum AddrKind {
    V4,
    Domain,
    V6,
}

/// The mathematical result of parsing one header.
pub struct HeaderModel {
    pub credential: Seq<u8>,
    pub command: u8,
    pub host: HostSpec,
    pub port: u16,
    pub consumed: int,
    pub response: Seq<u8>,
}

/// The parsed header, as the engine hands it on: credential material,
/// command, destination, the response header owed to the client (empty
/// when the protocol owes none), and the leftover payload.
pub struct ParsedHeader {
    pub credential: Vec<u8>,
    pub command: u8,
    pub dest: Endpoint,
    pub response: Vec<u8>,
    pub leftover: Vec<u8>,
}

/// How a protocol maps its address-type byte: VLESS and VMess count
/// 1 = IPv4, 2 = domain, 3 = IPv6; Trojan and Shadowsocks use the
/// SOCKS-style codes 1 = IPv4, 3 = domain, 4 = IPv6.
pub open spec fn spec_addr_kind(tag: Protocol, atype: u8) -> Option<AddrKind> {
    if tag == Protocol::Vless || tag == Protocol::Vmess {
        if atype == 1 {
            Some(AddrKind::V4)
        } else if atype == 2 {
            Some(AddrKind::Domain)
        } else if atype == 3 {
            Some(AddrKind::V6)
        } else {
            None
        }
    } else {
        if atype == 1 {
            Some(AddrKind::V4)
        } else if atype == 3 {
            Some(AddrKind::Domain)
        } else if atype == 4 {
            Some(AddrKind::V6)
        } else {
            None
        }
    }
}

/// Domain names carried in headers are plain ASCII bytes.
pub open spec fn domain_ascii(d: Seq<u8>) -> bool {
    forall|i: int| 0 <= i < d.len() ==> d[i] < 128
}

/// Reads one address record at `off`: a fixed 4- or 16-byte field, or a
/// length-prefixed domain name. Yields the host and the offset just past it.
pub open spec fn spec_read_addr(b: Seq<u8>, off: int, k: AddrKind) -> Option<(HostSpec, int)>
    recommends
        0 <= off,
{
    match k {
        AddrKind::V4 => if off + 4 <= b.len() {
            Some((HostSpec::V4(b.subrange(off, off + 4)), off + 4))
        } else {
            None
        },
        AddrKind::Domain => if off + 1 > b.len() {
            None
        } else {
            let l = b[off] as int;
            if l < 1 {
                None
            } else if off + 1 + l > b.len() {
                None
            } else if !domain_ascii(b.subrange(off + 1, off + 1 + l)) {
                None
            } else {
                Some((HostSpec::Domain(b.subrange(off + 1, off + 1 + l)), off + 1 + l))
            }
        },
        AddrKind::V6 => if off + 16 <= b.len() {
            Some((HostSpec::V6(b.subrange(off, off + 16)), off + 16))
        } else {
            None
        },
    }
}

/// Reads a big-endian port at `off`.
pub open spec fn spec_read_port(b: Seq<u8>, off: int) -> Option<u16>
    recommends
        0 <= off,
{
    if off + 2 <= b.len() {
        Some((b[off] * 256 + b[off + 1]) as u16)
    } else {
        None
    }
}

/// The VLESS header: version byte 0, a 16-byte identifier, a
/// length-prefixed addon block, a command byte, then address type,
/// address and port. The client is owed a two-byte response: the version
/// echoed back and an addon length of zero.
pub open spec fn spec_parse_vless(b: Seq<u8>) -> Result<HeaderModel, TunnelError> {
    if b.len() < 18 {
        Err(TunnelError::TruncatedHeader)
    } else if b[0] != 0 {
        Err(TunnelError::TruncatedHeader)
    } else {
        let alen = b[17] as int;
        if 18 + alen >= b.len() {
            Err(TunnelError::TruncatedHeader)
        } else {
            let cmd = b[18 + alen];
            if cmd != 1 {
                Err(TunnelError::UnsupportedCommand)
            } else if 19 + alen >= b.len() {
                Err(TunnelError::TruncatedHeader)
            } else {
                match spec_addr_kind(Protocol::Vless, b[19 + alen]) {
                    None => Err(TunnelError::TruncatedHeader),
                    Some(k) => match spec_read_addr(b, 20 + alen, k) {
                        None => Err(TunnelError::TruncatedHeader),
                        Some(ha) => match spec_read_port(b, ha.1) {
                            None => Err(TunnelError::TruncatedHeader),
                            Some(p) => if p == 0 {
                                Err(TunnelError::TruncatedHeader)
                            } else {
                                Ok(
                                    HeaderModel {
                                        credential: b.subrange(1, 17),
                                        command: 1,
                                        host: ha.0,
                                        port: p,
                                        consumed: ha.1 + 2,
                                        response: seq![0u8, 0u8],
                                    },
                                )
                            },
                        },
                    },
                }
            }
        }
    }
}

/// The Trojan header: a 56-byte password digest, CR LF, a command byte,
/// address type, address and port, terminated by CR LF. No response is
/// owed. The digest bytes are the credential and are not interpreted here.
pub open spec fn spec_parse_trojan(b: Seq<u8>) -> Result<HeaderModel, TunnelError> {
    if b.len() < 58 {
        Err(TunnelError::TruncatedHeader)
    } else if b[56] != 13 || b[57] != 10 {
        Err(TunnelError::TruncatedHeader)
    } else if b.len() < 59 {
        Err(TunnelError::TruncatedHeader)
    } else {
        let cmd = b[58];
        if cmd != 1 {
            Err(TunnelError::UnsupportedCommand)
        } else if b.len() < 60 {
            Err(TunnelError::TruncatedHeader)
        } else {
            match spec_addr_kind(Protocol::Trojan, b[59]) {
                None => Err(TunnelError::TruncatedHeader),
                Some(k) => match spec_read_addr(b, 60, k) {
                    None => Err(TunnelError::TruncatedHeader),
                    Some(ha) => match spec_read_port(b, ha.1) {
                        None => Err(TunnelError::TruncatedHeader),
                        Some(p) => if ha.1 + 4 > b.len() {
                            Err(TunnelError::TruncatedHeader)
                        } else if b[ha.1 + 2] != 13 || b[ha.1 + 3] != 10 {
                            Err(TunnelError::TruncatedHeader)
                        } else if p == 0 {
                            Err(TunnelError::TruncatedHeader)
                        } else {
                            Ok(
                                HeaderModel {
                                    credential: b.subrange(0, 56),
                                    command: 1,
                                    host: ha.0,
                                    port: p,
                                    consumed: ha.1 + 4,
                                    response: Seq::empty(),
                                },
                            )
                        },
                    },
                },
            }
        }
    }
}

/// The VMess header, seen after its envelope has been opened: a 16-byte
/// authentication block, a response check byte, a command byte, then
/// address type, address and port. The client is owed a four-byte
/// response: the check byte echoed back and three zero bytes.
pub open spec fn spec_parse_vmess(b: Seq<u8>) -> Result<HeaderModel, TunnelError> {
    if b.len() < 18 {
        Err(TunnelError::TruncatedHeader)
    } else {
        let cmd = b[17];
        if cmd != 1 {
            Err(TunnelError::UnsupportedCommand)
        } else if b.len() < 19 {
            Err(TunnelError::TruncatedHeader)
        } else {
            match spec_addr_kind(Protocol::Vmess, b[18]) {
                None => Err(TunnelError::TruncatedHeader),
                Some(k) => match spec_read_addr(b, 19, k) {
                    None => Err(TunnelError::TruncatedHeader),
                    Some(ha) => match spec_read_port(b, ha.1) {
                        None => Err(TunnelError::TruncatedHeader),
                        Some(p) => if p == 0 {
                            Err(TunnelError::TruncatedHeader)
                        } else {
                            Ok(
                                HeaderModel {
                                    credential: b.subrange(0, 16),
                                    command: 1,
                                    host: ha.0,
                                    port: p,
                                    consumed: ha.1 + 2,
                                    response: seq![b[16], 0u8, 0u8, 0u8],
                                },
                            )
                        },
                    },
                },
            }
        }
    }
}

/// The Shadowsocks header: a bare address record — address type, address
/// and port. It carries no inline credential and owes no response; the
/// command is implicitly TCP connect.
pub open spec fn spec_parse_ss(b: Seq<u8>) -> Result<HeaderModel, TunnelError> {
    if b.len() < 1 {
        Err(TunnelError::TruncatedHeader)
    } else {
        match spec_addr_kind(Protocol::Shadowsocks, b[0]) {
            None => Err(TunnelError::TruncatedHeader),
            Some(k) => match spec_read_addr(b, 1, k) {
                None => Err(TunnelError::TruncatedHeader),
                Some(ha) => match spec_read_port(b, ha.1) {
                    None => Err(TunnelError::TruncatedHeader),
                    Some(p) => if p == 0 {
                        Err(TunnelError::TruncatedHeader)
                    } else {
                        Ok(
                            HeaderModel {
                                credential: Seq::empty(),
                                command: 1,
                                host: ha.0,
                                port: p,
                                consumed: ha.1 + 2,
                                response: Seq::empty(),
                            },
                        )
                    },
                },
            },
        }
    }
}

/// The uniform parse contract, dispatched on the detected protocol.
pub open spec fn spec_parse(tag: Protocol, b: Seq<u8>) -> Result<HeaderModel, TunnelError> {
    match tag {
        Protocol::Vless => spec_parse_vless(b),
        Protocol::Trojan => spec_parse_trojan(b),
        Protocol::Vmess => spec_parse_vmess(b),
        Protocol::Shadowsocks => spec_parse_ss(b),
    }
}

/// The parsed header agrees with the model: same credential, command,
/// destination and response, and the leftover is exactly the bytes after
/// the header.
pub open spec fn header_matches(p: ParsedHeader, m: HeaderModel, b: Seq<u8>) -> bool {
    &&& p.credential@ == m.credential
    &&& p.command == m.command
    &&& p.dest@.host == m.host
    &&& p.dest@.port == m.port
    &&& p.response@ == m.response
    &&& p.leftover@ == b.skip(m.consumed)
}

/// The parse result agrees with the model result, error for error.
pub open spec fn parse_result_matches(
    r: Result<ParsedHeader, TunnelError>,
    s: Result<HeaderModel, TunnelError>,
    b: Seq<u8>,
) -> bool {
    match s {
        Ok(m) => r matches Ok(p) && header_matches(p, m, b),
        Err(e) => r matches Err(e2) && e2 == e,
    }
}

/// Decodes a protocol's address-type byte.
fn addr_kind(tag: Protocol, atype: u8) -> (r: Option<AddrKind>)
    ensures
        r == spec_addr_kind(tag, atype),
{
    match tag {
        Protocol::Vless | Protocol::Vmess => {
            if atype == 1 {
                Some(AddrKind::V4)
            } else if atype == 2 {
                Some(AddrKind::Domain)
            } else if atype == 3 {
                Some(AddrKind::V6)
            } else {
                None
            }
        },
        Protocol::Trojan | Protocol::Shadowsocks => {
            if atype == 1 {
                Some(AddrKind::V4)
            } else if atype == 3 {
                Some(AddrKind::Domain)
            } else if atype == 4 {
                Some(AddrKind::V6)
            } else {
                None
            }
        },
    }
}

/// Reads one address record.
fn read_addr(b: &[u8], off: usize, k: AddrKind) -> (r: Option<(HostAddr, usize)>)
    requires
        off <= b@.len(),
    ensures
        match spec_read_addr(b@, off as int, k) {
            Some(ha) => r matches Some(p) && p.0@ == ha.0 && p.1 == ha.1,
            None => r is None,
        },
{
    let n = b.len();
    match k {
        AddrKind::V4 => {
            if n - off >= 4 {
                let a = [b[off], b[off + 1], b[off + 2], b[off + 3]];
                assert(a@ =~= b@.subrange(off as int, off as int + 4));
                Some((HostAddr::Ipv4(a), off + 4))
            } else {
                None
            }
        },
        AddrKind::Domain => {
            if n - off < 1 {
                return None;
            }
            let l = b[off] as usize;
            if l < 1 {
                return None;
            }
            if n - off - 1 < l {
                return None;
            }
            let ghost d = b@.subrange(off as int + 1, off as int + 1 + l as int);
            let mut i: usize = 0;
            while i < l
                invariant
                    i <= l,
                    1 <= l,
                    off + 1 + l <= b@.len(),
                    b@.len() == n,
                    l as int == b@[off as int],
                    k == AddrKind::Domain,
                    d == b@.subrange(off as int + 1, off as int + 1 + l as int),
                    forall|j: int| 0 <= j < i ==> #[trigger] b@[off + 1 + j] < 128,
                decreases l - i,
            {
                if b[off + 1 + i] >= 128 {
                    proof {
                        assert(d[i as int] == b@[off + 1 + i]);
                        assert(!domain_ascii(d));
                    }
                    return None;
                }
                i = i + 1;
            }
            assert(domain_ascii(d)) by {
                assert forall|j: int| 0 <= j < d.len() implies d[j] < 128 by {
                    assert(d[j] == b@[off + 1 + j]);
                }
            }
            let d = slice_to_vec(slice_subrange(b, off + 1, off + 1 + l));
            Some((HostAddr::Domain(d), off + 1 + l))
        },
        AddrKind::V6 => {
            if n - off >= 16 {
                let a = [
                    b[off],
                    b[off + 1],
                    b[off + 2],
                    b[off + 3],
                    b[off + 4],
                    b[off + 5],
                    b[off + 6],
                    b[off + 7],
                    b[off + 8],
                    b[off + 9],
                    b[off + 10],
                    b[off + 11],
                    b[off + 12],
                    b[off + 13],
                    b[off + 14],
                    b[off + 15],
                ];
                assert(a@ =~= b@.subrange(off as int, off as int + 16));
                Some((HostAddr::Ipv6(a), off + 16))
            } else {
                None
            }
        },
    }
}

/// Reads a big-endian port.
fn read_port(b: &[u8], off: usize) -> (r: Option<u16>)
    requires
        off <= b@.len(),
    ensures
        r == spec_read_port(b@, off as int),
{
    if b.len() - off >= 2 {
        Some((b[off] as u16) * 256 + (b[off + 1] as u16))
    } else {
        None
    }
}

/// Copies the bytes from `from` to the end: the leftover payload.
fn tail_bytes(b: &[u8], from: usize) -> (r: Vec<u8>)
    requires
        from <= b@.len(),
    ensures
        r@ == b@.skip(from as int),
{
    let r = slice_to_vec(slice_subrange(b, from, b.len()));
    assert(r@ =~= b@.skip(from as int));
    r
}

/// Parses a VLESS header.
pub fn parse_vless(b: &[u8]) -> (r: Result<ParsedHeader, TunnelError>)
    ensures
        parse_result_matches(r, spec_parse_vless(b@), b@),
{
    let n = b.len();
    if n < 18 {
        return Err(TunnelError::TruncatedHeader);
    }
    if b[0] != 0 {
        return Err(TunnelError::TruncatedHeader);
    }
    let alen = b[17] as usize;
    if n - 18 <= alen {
        return Err(TunnelError::TruncatedHeader);
    }
    let cmd = b[18 + alen];
    if cmd != 1 {
        return Err(TunnelError::UnsupportedCommand);
    }
    if n - 19 <= alen {
        return Err(TunnelError::TruncatedHeader);
    }
    let k = match addr_kind(Protocol::Vless, b[19 + alen]) {
        Some(k) => k,
        None => {
            return Err(TunnelError::TruncatedHeader);
        },
    };
    let (host, off2) = match read_addr(b, 20 + alen, k) {
        Some(ha) => ha,
        None => {
            return Err(TunnelError::TruncatedHeader);
        },
    };
    let port = match read_port(b, off2) {
        Some(p) => p,
        None => {
            return Err(TunnelError::TruncatedHeader);
        },
    };
    if port == 0 {
        return Err(TunnelError::TruncatedHeader);
    }
    let credential = slice_to_vec(slice_subrange(b, 1, 17));
    let leftover = tail_bytes(b, off2 + 2);
    let mut response: Vec<u8> = Vec::new();
    response.push(0);
    response.push(0);
    assert(response@ =~= seq![0u8, 0u8]);
    Ok(ParsedHeader { credential, command: 1, dest: Endpoint { host, port }, response, leftover })
}

/// Parses a Trojan header.
pub fn parse_trojan(b: &[u8]) -> (r: Result<ParsedHeader, TunnelError>)
    ensures
        parse_result_matches(r, spec_parse_trojan(b@), b@),
{
    let n = b.len();
    if n < 58 {
        return Err(TunnelError::TruncatedHeader);
    }
    if b[56] != 13 || b[57] != 10 {
        return Err(TunnelError::TruncatedHeader);
    }
    if n < 59 {
        return Err(TunnelError::TruncatedHeader);
    }
    let cmd = b[58];
    if cmd != 1 {
        return Err(TunnelError::UnsupportedCommand);
    }
    if n < 60 {
        return Err(TunnelError::TruncatedHeader);
    }
    let k = match addr_kind(Protocol::Trojan, b[59]) {
        Some(k) => k,
        None => {
            return Err(TunnelError::TruncatedHeader);
        },
    };
    let (host, off2) = match read_addr(b, 60, k) {
        Some(ha) => ha,
        None => {
            return Err(TunnelError::TruncatedHeader);
        },
    };
    let port = match read_port(b, off2) {
        Some(p) => p,
        None => {
            return Err(TunnelError::TruncatedHeader);
        },
    };
    if n - off2 < 4 {
        return Err(TunnelError::TruncatedHeader);
    }
    if b[off2 + 2] != 13 || b[off2 + 3] != 10 {
        return Err(TunnelError::TruncatedHeader);
    }
    if port == 0 {
        return Err(TunnelError::TruncatedHeader);
    }
    let credential = slice_to_vec(slice_subrange(b, 0, 56));
    let leftover = tail_bytes(b, off2 + 4);
    let response: Vec<u8> = Vec::new();
    Ok(ParsedHeader { credential, command: 1, dest: Endpoint { host, port }, response, leftover })
}

/// Parses a VMess header (its envelope already opened).
pub fn parse_vmess(b: &[u8]) -> (r: Result<ParsedHeader, TunnelError>)
    ensures
        parse_result_matches(r, spec_parse_vmess(b@), b@),
{
    let n = b.len();
    if n < 18 {
        return Err(TunnelError::TruncatedHeader);
    }
    let cmd = b[17];
    if cmd != 1 {
        return Err(TunnelError::UnsupportedCommand);
    }
    if n < 19 {
        return Err(TunnelError::TruncatedHeader);
    }
    let k = match addr_kind(Protocol::Vmess, b[18]) {
        Some(k) => k,
        None => {
            return Err(TunnelError::TruncatedHeader);
        },
    };
    let (host, off2) = match read_addr(b, 19, k) {
        Some(ha) => ha,
        None => {
            return Err(TunnelError::TruncatedHeader);
        },
    };
    let port = match read_port(b, off2) {
        Some(p) => p,
        None => {
            return Err(TunnelError::TruncatedHeader);
        },
    };
    if port == 0 {
        return Err(TunnelError::TruncatedHeader);
    }
    let credential = slice_to_vec(slice_subrange(b, 0, 16));
    let leftover = tail_bytes(b, off2 + 2);
    let mut response: Vec<u8> = Vec::new();
    response.push(b[16]);
    response.push(0);
    response.push(0);
    response.push(0);
    assert(response@ =~= seq![b@[16], 0u8, 0u8, 0u8]);
    Ok(ParsedHeader { credential, command: 1, dest: Endpoint { host, port }, response, leftover })
}

/// Parses a Shadowsocks header.
pub fn parse_ss(b: &[u8]) -> (r: Result<ParsedHeader, TunnelError>)
    ensures
        parse_result_matches(r, spec_parse_ss(b@), b@),
{
    let n = b.len();
    if n < 1 {
        return Err(TunnelError::TruncatedHeader);
    }
    let k = match addr_kind(Protocol::Shadowsocks, b[0]) {
        Some(k) => k,
        None => {
            return Err(TunnelError::TruncatedHeader);
        },
    };
    let (host, off2) = match read_addr(b, 1, k) {
        Some(ha) => ha,
        None => {
            return Err(TunnelError::TruncatedHeader);
        },
    };
    let port = match read_port(b, off2) {
        Some(p) => p,
        None => {
            return Err(TunnelError::TruncatedHeader);
        },
    };
    if port == 0 {
        return Err(TunnelError::TruncatedHeader);
    }
    let credential: Vec<u8> = Vec::new();
    let leftover = tail_bytes(b, off2 + 2);
    let response: Vec<u8> = Vec::new();
    Ok(ParsedHeader { credential, command: 1, dest: Endpoint { host, port }, response, leftover })
}

/// Parses the header of the detected protocol: the uniform entry point.
pub fn parse_header(tag: Protocol, b: &[u8]) -> (r: Result<ParsedHeader, TunnelError>)
    ensures
        parse_result_matches(r, spec_parse(tag, b@), b@),
{
    match tag {
        Protocol::Vless => parse_vless(b),
        Protocol::Trojan => parse_trojan(b),
        Protocol::Vmess => parse_vmess(b),
        Protocol::Shadowsocks => parse_ss(b),
    }
}

/// Every successfully parsed header yields a well-formed destination — a
/// host of the right width, a domain of 1 to 255 ASCII bytes, a nonzero
/// port — and consumes no more bytes than the buffer holds.
pub proof fn lemma_parse_wf(tag: Protocol, b: Seq<u8>)
    ensures
        spec_parse(tag, b) matches Ok(m) ==> endpoint_wf(
            EndpointView { host: m.host, port: m.port },
        ) && 0 < m.consumed <= b.len(),
{
}

} // verus!
