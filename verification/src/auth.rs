//! The credential validator: holds the credential a header carried
//! against the configured identity, in constant time, so that the
//! comparison leaks nothing through timing. A mismatch is
//! `AuthenticationFailed` and nothing else: the client cannot tell a
//! wrong credential from a malformed header by the response, since
//! neither gets one.

use vstd::prelude::*;
use sha2::Digest;
use crate::config::{Config, ConfigView};
use crate::detect::Protocol;
use crate::err::TunnelError;
use crate::ident::{hex_lower, hex_lower_seq, uuid_text, uuid_text_seq};

verus! {

/// What sha2's SHA-224 returns on the given bytes. The digest is a
/// function of the input alone; no short statement pins its value.
pub uninterp spec fn sha224_of(data: Seq<u8>) -> Seq<u8>;

/// Relies on sha2's `Sha224`: the digest depends on the input bytes
/// alone and is always 28 bytes long.
#[verifier::external_body]
fn sha224(data: &[u8]) -> (r: Vec<u8>)
    ensures
        r@ == sha224_of(data@),
        r@.len() == 28,
{
    sha2::Sha224::digest(data).to_vec()
}

/// Compares two byte strings in constant time over their common length:
/// every byte pair is visited, and the verdict is accumulated bitwise.
pub fn ct_eq(a: &[u8], b: &[u8]) -> (r: bool)
    ensures
        r == (a@ == b@),
{
    if a.len() != b.len() {
        proof {
            assert(a@ != b@);
        }
        return false;
    }
    let n = a.len();
    let mut diff: u8 = 0;
    let mut i: usize = 0;
    while i < n
        invariant
            i <= n,
            n == a@.len(),
            n == b@.len(),
            diff == 0 <==> (forall|j: int| 0 <= j < i ==> a@[j] == b@[j]),
        decreases n - i,
    {
        let x = a[i];
        let y = b[i];
        let d = x ^ y;
        proof {
            assert((x ^ y) == 0 <==> x == y) by (bit_vector);
            assert((diff | d) == 0 <==> diff == 0 && d == 0) by (bit_vector);
        }
        diff = diff | d;
        i = i + 1;
    }
    if diff == 0 {
        proof {
            assert(a@ =~= b@);
        }
        true
    } else {
        false
    }
}

/// The Trojan credential a trusted client presents: the lowercase
/// hexadecimal SHA-224 digest of the identifier's hyphenated text, the
/// password form the links hand out.
pub open spec fn trojan_expected_seq(uuid: Seq<u8>) -> Seq<u8> {
    hex_lower_seq(sha224_of(uuid_text_seq(uuid)))
}

/// When a credential matches the configured identity: the identifier
/// bytes themselves for VLESS and VMess, the derived password digest for
/// Trojan; Shadowsocks carries no inline credential, so nothing is held
/// against it.
pub open spec fn spec_credential_ok(tag: Protocol, cred: Seq<u8>, cfg: ConfigView) -> bool {
    match tag {
        Protocol::Vless => cred == cfg.uuid,
        Protocol::Vmess => cred == cfg.uuid,
        Protocol::Trojan => cred == trojan_expected_seq(cfg.uuid),
        Protocol::Shadowsocks => true,
    }
}

/// Holds the parsed credential against the configured identity.
pub fn validate_credential(tag: Protocol, cred: &[u8], cfg: &Config) -> (r: Result<
    (),
    TunnelError,
>)
    ensures
        r == if spec_credential_ok(tag, cred@, cfg@) {
            Ok::<(), TunnelError>(())
        } else {
            Err::<(), TunnelError>(TunnelError::AuthenticationFailed)
        },
{
    let ok = match tag {
        Protocol::Vless => ct_eq(cred, cfg.uuid.as_slice()),
        Protocol::Vmess => ct_eq(cred, cfg.uuid.as_slice()),
        Protocol::Trojan => {
            let text = uuid_text(&cfg.uuid);
            let digest = sha224(text.as_slice());
            let expected = hex_lower(digest.as_slice());
            ct_eq(cred, expected.as_slice())
        },
        Protocol::Shadowsocks => true,
    };
    if ok {
        Ok(())
    } else {
        Err(TunnelError::AuthenticationFailed)
    }
}

} // verus!
