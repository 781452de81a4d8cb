//! Laws that relate several parts of the engine: what truncating a valid
//! header does to parsing, and what corrupting a credential does to a
//! session.

use vstd::prelude::*;
use crate::auth::spec_credential_ok;
use crate::config::ConfigView;
use crate::detect::{Protocol, is_hex_ascii, spec_detect, trojan_shape, vless_shape};
use crate::err::TunnelError;
use crate::header::{AddrKind, HeaderModel, spec_addr_kind, spec_parse, spec_read_addr};
use crate::session::{ContextView, spec_handshake};

verus! {

/// Truncating a buffer truncates an address record: if the whole buffer
/// yields an address ending at or before the cut, the prefix yields the
/// same one; if the record ends past the cut, the prefix yields none.
proof fn lemma_read_addr_prefix(b: Seq<u8>, k: int, off: int, kind: AddrKind)
    requires
        0 <= off,
        0 <= k <= b.len(),
        spec_read_addr(b, off, kind) is Some,
    ensures
        spec_read_addr(b, off, kind)->Some_0.1 <= k ==> spec_read_addr(b.take(k), off, kind)
            == spec_read_addr(b, off, kind),
        spec_read_addr(b, off, kind)->Some_0.1 > k ==> spec_read_addr(b.take(k), off, kind)
            is None,
{
    let p = b.take(k);
    match kind {
        AddrKind::V4 => {
            if off + 4 <= k {
                assert(p.subrange(off, off + 4) =~= b.subrange(off, off + 4));
            }
        },
        AddrKind::Domain => {
            let l = b[off] as int;
            if off < k {
                assert(p[off] == b[off]);
                if off + 1 + l <= k {
                    assert(p.subrange(off + 1, off + 1 + l) =~= b.subrange(off + 1, off + 1 + l));
                }
            }
        },
        AddrKind::V6 => {
            if off + 16 <= k {
                assert(p.subrange(off, off + 16) =~= b.subrange(off, off + 16));
            }
        },
    }
}

/// For every strict prefix of a valid header — a buffer the parser
/// accepts in full, leftover empty — parsing the prefix fails with
/// `TruncatedHeader`: never a crash, never an out-of-bounds read, never
/// another error.
pub proof fn lemma_prefix_parse_truncated(tag: Protocol, b: Seq<u8>, k: int)
    requires
        spec_parse(tag, b) is Ok,
        spec_parse(tag, b)->Ok_0.consumed == b.len(),
        0 <= k < b.len(),
    ensures
        spec_parse(tag, b.take(k)) == Err::<HeaderModel, TunnelError>(
            TunnelError::TruncatedHeader,
        ),
{
    let p = b.take(k);
    let m = spec_parse(tag, b)->Ok_0;
    assert(forall|t: int| 0 <= t < k ==> p[t] == b[t]);
    match tag {
        Protocol::Vless => {
            if k >= 18 {
                let alen = b[17] as int;
                assert(p[0] == b[0] && p[17] == b[17]);
                if 18 + alen < k {
                    assert(p[18 + alen] == b[18 + alen]);
                    if 19 + alen < k {
                        assert(p[19 + alen] == b[19 + alen]);
                        let kind = spec_addr_kind(Protocol::Vless, b[19 + alen])->Some_0;
                        lemma_read_addr_prefix(b, k, 20 + alen, kind);
                    }
                }
            }
        },
        Protocol::Trojan => {
            if k >= 58 {
                assert(p[56] == b[56] && p[57] == b[57]);
                if k >= 59 {
                    assert(p[58] == b[58]);
                    if k >= 60 {
                        assert(p[59] == b[59]);
                        let kind = spec_addr_kind(Protocol::Trojan, b[59])->Some_0;
                        lemma_read_addr_prefix(b, k, 60, kind);
                        let ha = spec_read_addr(b, 60, kind)->Some_0;
                        if ha.1 + 2 <= k {
                            assert(p[ha.1] == b[ha.1] && p[ha.1 + 1] == b[ha.1 + 1]);
                        }
                    }
                }
            }
        },
        Protocol::Vmess => {
            if k >= 18 {
                assert(p[16] == b[16] && p[17] == b[17]);
                if k >= 19 {
                    assert(p[18] == b[18]);
                    let kind = spec_addr_kind(Protocol::Vmess, b[18])->Some_0;
                    lemma_read_addr_prefix(b, k, 19, kind);
                }
            }
        },
        Protocol::Shadowsocks => {
            if k >= 1 {
                assert(p[0] == b[0]);
                let kind = spec_addr_kind(Protocol::Shadowsocks, b[0])->Some_0;
                lemma_read_addr_prefix(b, k, 1, kind);
            }
        },
    }
}

/// Where the credential bytes sit in each protocol's header; empty for
/// Shadowsocks, which carries none.
pub open spec fn credential_range(tag: Protocol) -> (int, int) {
    match tag {
        Protocol::Vless => (1, 17),
        Protocol::Trojan => (0, 56),
        Protocol::Vmess => (0, 16),
        Protocol::Shadowsocks => (0, 0),
    }
}

/// Corrupting one credential byte of a parseable header changes the
/// credential and nothing else: the header still parses, to the same
/// command, destination, response and consumed length — and a header
/// whose credential matched before fails afterwards, with
/// `AuthenticationFailed` and no other error.
pub proof fn lemma_credential_corruption(
    tag: Protocol,
    b: Seq<u8>,
    i: int,
    v: u8,
    cfg: ConfigView,
)
    requires
        spec_parse(tag, b) is Ok,
        credential_range(tag).0 <= i < credential_range(tag).1,
        v != b[i],
    ensures
        ({
            let m = spec_parse(tag, b)->Ok_0;
            let s2 = spec_parse(tag, b.update(i, v));
            &&& s2 matches Ok(m2) && {
                &&& m2.command == m.command
                &&& m2.host == m.host
                &&& m2.port == m.port
                &&& m2.consumed == m.consumed
                &&& m2.response == m.response
                &&& m2.credential != m.credential
            }
            &&& spec_credential_ok(tag, m.credential, cfg) ==> !spec_credential_ok(
                tag,
                s2->Ok_0.credential,
                cfg,
            )
        }),
{
    let m = spec_parse(tag, b)->Ok_0;
    let b2 = b.update(i, v);
    assert(b2.len() == b.len());
    assert(forall|t: int| 0 <= t < b.len() && t != i ==> b2[t] == b[t]);
    match tag {
        Protocol::Vless => {
            let alen = b[17] as int;
            assert(b2[0] == b[0] && b2[17] == b[17]);
            assert(b2[18 + alen] == b[18 + alen]);
            assert(b2[19 + alen] == b[19 + alen]);
            let kind = spec_addr_kind(Protocol::Vless, b[19 + alen])->Some_0;
            lemma_read_addr_same(b, b2, i, 20 + alen, kind);
            let ha = spec_read_addr(b, 20 + alen, kind)->Some_0;
            assert(b2[ha.1] == b[ha.1] && b2[ha.1 + 1] == b[ha.1 + 1]);
            let c1 = b.subrange(1, 17);
            let c2 = b2.subrange(1, 17);
            assert(c2[i - 1] == v && c1[i - 1] == b[i]);
        },
        Protocol::Trojan => {
            assert(b2[56] == b[56] && b2[57] == b[57] && b2[58] == b[58] && b2[59] == b[59]);
            let kind = spec_addr_kind(Protocol::Trojan, b[59])->Some_0;
            lemma_read_addr_same(b, b2, i, 60, kind);
            let ha = spec_read_addr(b, 60, kind)->Some_0;
            assert(b2[ha.1] == b[ha.1] && b2[ha.1 + 1] == b[ha.1 + 1]);
            assert(b2[ha.1 + 2] == b[ha.1 + 2] && b2[ha.1 + 3] == b[ha.1 + 3]);
            let c1 = b.subrange(0, 56);
            let c2 = b2.subrange(0, 56);
            assert(c2[i] == v && c1[i] == b[i]);
        },
        Protocol::Vmess => {
            assert(b2[16] == b[16] && b2[17] == b[17] && b2[18] == b[18]);
            let kind = spec_addr_kind(Protocol::Vmess, b[18])->Some_0;
            lemma_read_addr_same(b, b2, i, 19, kind);
            let ha = spec_read_addr(b, 19, kind)->Some_0;
            assert(b2[ha.1] == b[ha.1] && b2[ha.1 + 1] == b[ha.1 + 1]);
            let c1 = b.subrange(0, 16);
            let c2 = b2.subrange(0, 16);
            assert(c2[i] == v && c1[i] == b[i]);
        },
        Protocol::Shadowsocks => {
            assert(false);
        },
    }
}

/// An address record that sits entirely outside the changed position is
/// read the same from both buffers.
proof fn lemma_read_addr_same(b: Seq<u8>, b2: Seq<u8>, i: int, off: int, kind: AddrKind)
    requires
        0 <= off,
        b2.len() == b.len(),
        forall|t: int| 0 <= t < b.len() && t != i ==> b2[t] == b[t],
        i < off,
        spec_read_addr(b, off, kind) is Some,
    ensures
        spec_read_addr(b2, off, kind) == spec_read_addr(b, off, kind),
{
    match kind {
        AddrKind::V4 => {
            assert(b2.subrange(off, off + 4) =~= b.subrange(off, off + 4));
        },
        AddrKind::Domain => {
            let l = b[off] as int;
            assert(b2[off] == b[off]);
            assert(b2.subrange(off + 1, off + 1 + l) =~= b.subrange(off + 1, off + 1 + l));
        },
        AddrKind::V6 => {
            assert(b2.subrange(off, off + 16) =~= b.subrange(off, off + 16));
        },
    }
}

/// The full-session form for VLESS, whose detection reads no credential
/// byte: corrupt one credential byte of a session that would have
/// succeeded, and the handshake still detects VLESS and still parses,
/// but ends in `AuthenticationFailed` — never a different error.
pub proof fn lemma_vless_corruption_authentication_failed(
    b: Seq<u8>,
    i: int,
    v: u8,
    cfg: ConfigView,
)
    requires
        spec_detect(b) == Some(Protocol::Vless),
        spec_handshake(cfg, b) is Ok,
        1 <= i < 17,
        v != b[i],
    ensures
        spec_handshake(cfg, b.update(i, v)) == Err::<ContextView, TunnelError>(
            TunnelError::AuthenticationFailed,
        ),
{
    let b2 = b.update(i, v);
    assert(b2[0] == b[0] && b2[17] == b[17] && b2.len() == b.len());
    assert(vless_shape(b2) == vless_shape(b));
    lemma_credential_corruption(Protocol::Vless, b, i, v, cfg);
}

/// The full-session form for Trojan: corrupt one digest byte of a
/// session that would have succeeded — into another hexadecimal
/// character, so the buffer still carries the digest shape the detector
/// looks for — and the handshake still detects Trojan and still parses,
/// but ends in `AuthenticationFailed` and nothing else.
pub proof fn lemma_trojan_corruption_authentication_failed(
    b: Seq<u8>,
    i: int,
    v: u8,
    cfg: ConfigView,
)
    requires
        spec_detect(b) == Some(Protocol::Trojan),
        spec_handshake(cfg, b) is Ok,
        0 <= i < 56,
        v != b[i],
        is_hex_ascii(v),
    ensures
        spec_handshake(cfg, b.update(i, v)) == Err::<ContextView, TunnelError>(
            TunnelError::AuthenticationFailed,
        ),
{
    let b2 = b.update(i, v);
    assert(b2.len() == b.len() && b2[56] == b[56] && b2[57] == b[57]);
    assert(trojan_shape(b2)) by {
        assert(forall|t: int| 0 <= t < 56 && t != i ==> b2[t] == #[trigger] b[t]);
        assert(b2[i] == v);
    }
    assert(!vless_shape(b2)) by {
        assert(b2[0] == if i == 0 {
            v
        } else {
            b[0]
        });
        assert(is_hex_ascii(b2[0]));
    }
    lemma_credential_corruption(Protocol::Trojan, b, i, v, cfg);
}

} // verus!
