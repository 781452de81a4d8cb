//! The protocol detector: classifies the first bytes of a fresh connection
//! into exactly one of the supported wire protocols, or rejects them.
//!
//! The formats are not self-describing, so the shapes are checked in a
//! fixed priority order: VLESS, then Trojan, then VMess, then Shadowsocks.
//! Classification is pure: it reads the buffer and nothing else.

use vstd::prelude::*;
use crate::err::TunnelError;

verus! {

/// The closed set of wire protocols the engine accepts. Determined once
/// per connection and immutable thereafter.
#[derive(Clone, Copy, PartialEq, Eq, Structural, Debug)]
pub enum Protocol {
    Vless,
    Trojan,
    Vmess,
    Shadowsocks,
}

/// An ASCII hexadecimal digit, either case.
pub open spec fn is_hex_ascii(b: u8) -> bool {
    (48 <= b <= 57) || (97 <= b <= 102) || (65 <= b <= 70)
}

/// The VLESS shape: version byte zero, a 16-byte identifier, and an addon
/// block whose length byte stays inside the buffer.
pub open spec fn vless_shape(b: Seq<u8>) -> bool {
    b.len() >= 18 && b[0] == 0 && 18 + b[17] <= b.len()
}

/// The Trojan shape: 56 hexadecimal characters (a fixed-width password
/// digest) followed by CR LF.
pub open spec fn trojan_shape(b: Seq<u8>) -> bool {
    b.len() >= 58 && (forall|i: int| 0 <= i < 56 ==> is_hex_ascii(b[i])) && b[56] == 13 && b[57]
        == 10
}

/// The VMess shape: a 16-byte authentication block, a response check byte,
/// a command byte, and an address record that fits the buffer. The cipher
/// negotiation inside the envelope is outside this engine; the engine sees
/// the opened envelope, and the authentication block is held against the
/// configured identity by the credential validator.
pub open spec fn vmess_shape(b: Seq<u8>) -> bool {
    b.len() >= 19 && {
        let atype = b[18];
        if atype == 1 {
            b.len() >= 25
        } else if atype == 2 {
            b.len() >= 20 && b[19] >= 1 && 22 + b[19] <= b.len()
        } else if atype == 3 {
            b.len() >= 37
        } else {
            false
        }
    }
}

/// The Shadowsocks shape: a bare SOCKS-style address record, an
/// address-type byte in {1, 3, 4} with a plausible length.
pub open spec fn ss_shape(b: Seq<u8>) -> bool {
    b.len() >= 1 && {
        let atype = b[0];
        if atype == 1 {
            b.len() >= 7
        } else if atype == 3 {
            b.len() >= 2 && b[1] >= 1 && 4 + b[1] <= b.len()
        } else if atype == 4 {
            b.len() >= 19
        } else {
            false
        }
    }
}

/// Classification in priority order; `None` is a rejection.
pub open spec fn spec_detect(b: Seq<u8>) -> Option<Protocol> {
    if vless_shape(b) {
        Some(Protocol::Vless)
    } else if trojan_shape(b) {
        Some(Protocol::Trojan)
    } else if vmess_shape(b) {
        Some(Protocol::Vmess)
    } else if ss_shape(b) {
        Some(Protocol::Shadowsocks)
    } else {
        None
    }
}

/// True when the first 56 bytes are all hexadecimal characters.
fn hex_prefix_56(b: &[u8]) -> (r: bool)
    requires
        b@.len() >= 56,
    ensures
        r == forall|i: int| 0 <= i < 56 ==> is_hex_ascii(b@[i]),
{
    let mut i: usize = 0;
    while i < 56
        invariant
            i <= 56,
            b@.len() >= 56,
            forall|j: int| 0 <= j < i ==> is_hex_ascii(b@[j]),
        decreases 56 - i,
    {
        let c = b[i];
        if !((48 <= c && c <= 57) || (97 <= c && c <= 102) || (65 <= c && c <= 70)) {
            return false;
        }
        i = i + 1;
    }
    true
}

/// Classifies the leading bytes of a connection, or rejects them without
/// a response. The priority order resolves any ambiguity between formats.
pub fn detect(b: &[u8]) -> (r: Result<Protocol, TunnelError>)
    ensures
        r == match spec_detect(b@) {
            Some(t) => Ok::<Protocol, TunnelError>(t),
            None => Err::<Protocol, TunnelError>(TunnelError::DetectionFailed),
        },
{
    let n = b.len();
    if n >= 18 && b[0] == 0 && 18 + (b[17] as usize) <= n {
        return Ok(Protocol::Vless);
    }
    assert(!vless_shape(b@));
    if n >= 58 && b[56] == 13 && b[57] == 10 && hex_prefix_56(b) {
        return Ok(Protocol::Trojan);
    }
    assert(!trojan_shape(b@));
    if n >= 19 {
        let atype = b[18];
        if atype == 1 && n >= 25 {
            return Ok(Protocol::Vmess);
        }
        if atype == 2 && n >= 20 && b[19] >= 1 && 22 + (b[19] as usize) <= n {
            return Ok(Protocol::Vmess);
        }
        if atype == 3 && n >= 37 {
            return Ok(Protocol::Vmess);
        }
    }
    assert(!vmess_shape(b@));
    if n >= 1 {
        let atype = b[0];
        if atype == 1 && n >= 7 {
            return Ok(Protocol::Shadowsocks);
        }
        if atype == 3 && n >= 2 && b[1] >= 1 && 4 + (b[1] as usize) <= n {
            return Ok(Protocol::Shadowsocks);
        }
        if atype == 4 && n >= 19 {
            return Ok(Protocol::Shadowsocks);
        }
    }
    assert(!ss_shape(b@));
    Err(TunnelError::DetectionFailed)
}

/// Detection priority is deterministic: a buffer that fits the shape of
/// more than one protocol is always classified as the one checked first,
/// in the order VLESS, Trojan, VMess, Shadowsocks.
pub proof fn lemma_detect_priority(b: Seq<u8>)
    ensures
        vless_shape(b) ==> spec_detect(b) == Some(Protocol::Vless),
        !vless_shape(b) && trojan_shape(b) ==> spec_detect(b) == Some(Protocol::Trojan),
        !vless_shape(b) && !trojan_shape(b) && vmess_shape(b) ==> spec_detect(b) == Some(
            Protocol::Vmess,
        ),
        !vless_shape(b) && !trojan_shape(b) && !vmess_shape(b) && ss_shape(b) ==> spec_detect(b)
            == Some(Protocol::Shadowsocks),
        !vless_shape(b) && !trojan_shape(b) && !vmess_shape(b) && !ss_shape(b) ==> spec_detect(b)
            is None,
{
}

} // verus!
