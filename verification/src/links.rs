//! The client-side link builders: the URI each protocol's client is
//! handed, embedding the identifier, the visible host and the route
//! path. Pure templating over the configuration; the host and path are
//! embedded verbatim.

use vstd::prelude::*;
use vstd::string::StringExecFns;
use base64::Engine;

verus! {

/// One lowercase hexadecimal digit, as a character.
pub open spec fn hex_digit_char(d: u8) -> char {
    if d < 10 {
        ((48 + d) as u8) as char
    } else {
        ((87 + d) as u8) as char
    }
}

/// The lowercase hexadecimal text of a byte string, as characters.
pub open spec fn hex_chars(s: Seq<u8>) -> Seq<char>
    decreases s.len(),
{
    if s.len() == 0 {
        Seq::empty()
    } else {
        hex_chars(s.drop_last()) + seq![
            hex_digit_char((s.last() / 16) as u8),
            hex_digit_char((s.last() % 16) as u8),
        ]
    }
}

/// The canonical hyphenated text of a 128-bit identifier, as characters.
pub open spec fn uuid_chars(id: Seq<u8>) -> Seq<char>
    recommends
        id.len() == 16,
{
    hex_chars(id.subrange(0, 4)) + seq!['-'] + hex_chars(id.subrange(4, 6)) + seq!['-']
        + hex_chars(id.subrange(6, 8)) + seq!['-'] + hex_chars(id.subrange(8, 10)) + seq!['-']
        + hex_chars(id.subrange(10, 16))
}

/// What base64's standard engine (padded) returns on the characters'
/// bytes: a function of the input alone.
pub uninterp spec fn b64_standard_chars(s: Seq<char>) -> Seq<char>;

/// What base64's URL-safe engine (padded) returns on the characters'
/// bytes: a function of the input alone.
pub uninterp spec fn b64_url_chars(s: Seq<char>) -> Seq<char>;

/// Relies on base64's `STANDARD` engine: the encoding depends on the
/// input alone, and an empty input encodes to an empty string.
#[verifier::external_body]
fn b64_standard(s: &str) -> (r: String)
    ensures
        r@ == b64_standard_chars(s@),
        s@.len() == 0 ==> r@.len() == 0,
{
    base64::engine::general_purpose::STANDARD.encode(s)
}

/// Relies on base64's `URL_SAFE` engine: the encoding depends on the
/// input alone, and an empty input encodes to an empty string.
#[verifier::external_body]
fn b64_url_safe(s: &str) -> (r: String)
    ensures
        r@ == b64_url_chars(s@),
        s@.len() == 0 ==> r@.len() == 0,
{
    base64::engine::general_purpose::URL_SAFE.encode(s)
}

/// Relies on String::push: appends exactly one character.
#[verifier::external_body]
fn push_char(s: &mut String, c: char)
    ensures
        final(s)@ == old(s)@ + seq![c],
{
    s.push(c);
}

/// One lowercase hexadecimal digit, executable.
fn hex_char_exec(d: u8) -> (r: char)
    requires
        d < 16,
    ensures
        r == hex_digit_char(d),
{
    if d < 10 {
        (48 + d) as char
    } else {
        (87 + d) as char
    }
}

/// Appends the lowercase hexadecimal text of `data`.
fn push_hex_chars(s: &mut String, data: &[u8])
    ensures
        final(s)@ == old(s)@ + hex_chars(data@),
{
    let mut i: usize = 0;
    while i < data.len()
        invariant
            i <= data@.len(),
            s@ == old(s)@ + hex_chars(data@.take(i as int)),
        decreases data@.len() - i,
    {
        let byte = data[i];
        push_char(s, hex_char_exec(byte / 16));
        push_char(s, hex_char_exec(byte % 16));
        proof {
            assert(data@.take(i as int + 1).drop_last() =~= data@.take(i as int));
            assert(data@.take(i as int + 1).last() == data@[i as int]);
            assert(s@ =~= old(s)@ + hex_chars(data@.take(i as int + 1)));
        }
        i = i + 1;
    }
    proof {
        assert(data@.take(data@.len() as int) =~= data@);
    }
}

/// Appends the hyphenated identifier text.
fn push_uuid_chars(s: &mut String, id: &[u8; 16])
    ensures
        final(s)@ == old(s)@ + uuid_chars(id@),
{
    let sl = id.as_slice();
    push_hex_chars(s, vstd::slice::slice_subrange(sl, 0, 4));
    push_char(s, '-');
    push_hex_chars(s, vstd::slice::slice_subrange(sl, 4, 6));
    push_char(s, '-');
    push_hex_chars(s, vstd::slice::slice_subrange(sl, 6, 8));
    push_char(s, '-');
    push_hex_chars(s, vstd::slice::slice_subrange(sl, 8, 10));
    push_char(s, '-');
    push_hex_chars(s, vstd::slice::slice_subrange(sl, 10, 16));
    assert(s@ =~= old(s)@ + uuid_chars(id@));
}

/// The VLESS client link.
pub open spec fn vless_link_chars(id: Seq<u8>, host: Seq<char>, path: Seq<char>, tls: bool) -> Seq<
    char,
> {
    "vless://"@ + uuid_chars(id) + "@"@ + host + ":"@ + (if tls {
        "443"@
    } else {
        "80"@
    }) + "?type=ws&security="@ + (if tls {
        "tls"@
    } else {
        "none"@
    }) + "&host="@ + host + "&sni="@ + host + "&path=/"@ + path + "#[XSM]-VLESS-"@ + (if tls {
        "TLS"@
    } else {
        "NTLS"@
    })
}

/// Builds the VLESS client link.
pub fn vless_link(id: &[u8; 16], host: &str, path: &str, tls: bool) -> (r: String)
    ensures
        r@ == vless_link_chars(id@, host@, path@, tls),
{
    let mut s = String::from_str("vless://");
    push_uuid_chars(&mut s, id);
    s.append("@");
    s.append(host);
    s.append(":");
    s.append(if tls {
        "443"
    } else {
        "80"
    });
    s.append("?type=ws&security=");
    s.append(if tls {
        "tls"
    } else {
        "none"
    });
    s.append("&host=");
    s.append(host);
    s.append("&sni=");
    s.append(host);
    s.append("&path=/");
    s.append(path);
    s.append("#[XSM]-VLESS-");
    s.append(if tls {
        "TLS"
    } else {
        "NTLS"
    });
    proof {
        assert(s@ =~= vless_link_chars(id@, host@, path@, tls));
    }
    s
}

/// The Trojan client link.
pub open spec fn trojan_link_chars(
    id: Seq<u8>,
    host: Seq<char>,
    path: Seq<char>,
    tls: bool,
) -> Seq<char> {
    "trojan://"@ + uuid_chars(id) + "@"@ + host + ":"@ + (if tls {
        "443"@
    } else {
        "80"@
    }) + "?type=ws&security="@ + (if tls {
        "tls"@
    } else {
        "none"@
    }) + "&host="@ + host + "&sni="@ + host + "&path=/"@ + path + "#[XSM]-TROJAN-"@ + (if tls {
        "TLS"@
    } else {
        "NTLS"@
    })
}

/// Builds the Trojan client link.
pub fn trojan_link(id: &[u8; 16], host: &str, path: &str, tls: bool) -> (r: String)
    ensures
        r@ == trojan_link_chars(id@, host@, path@, tls),
{
    let mut s = String::from_str("trojan://");
    push_uuid_chars(&mut s, id);
    s.append("@");
    s.append(host);
    s.append(":");
    s.append(if tls {
        "443"
    } else {
        "80"
    });
    s.append("?type=ws&security=");
    s.append(if tls {
        "tls"
    } else {
        "none"
    });
    s.append("&host=");
    s.append(host);
    s.append("&sni=");
    s.append(host);
    s.append("&path=/");
    s.append(path);
    s.append("#[XSM]-TROJAN-");
    s.append(if tls {
        "TLS"
    } else {
        "NTLS"
    });
    proof {
        assert(s@ =~= trojan_link_chars(id@, host@, path@, tls));
    }
    s
}

/// The Shadowsocks user info before encoding: method and identifier.
pub open spec fn ss_userinfo_chars(id: Seq<u8>) -> Seq<char> {
    "none:"@ + uuid_chars(id)
}

/// The Shadowsocks client link.
pub open spec fn ss_link_chars(id: Seq<u8>, host: Seq<char>, path: Seq<char>, tls: bool) -> Seq<
    char,
> {
    "ss://"@ + b64_standard_chars(ss_userinfo_chars(id)) + "@"@ + host + ":"@ + (if tls {
        "443"@
    } else {
        "80"@
    }) + "?encryption=none&type=ws&host="@ + host + "&path=/"@ + path + "&security="@ + (if tls {
        "tls"@
    } else {
        "none"@
    }) + "&fp=random"@ + (if tls {
        "&sni="@ + host
    } else {
        Seq::empty()
    }) + "#[XSM]-SS-"@ + (if tls {
        "TLS"@
    } else {
        "NTLS"@
    })
}

/// Builds the Shadowsocks client link.
pub fn ss_link(id: &[u8; 16], host: &str, path: &str, tls: bool) -> (r: String)
    ensures
        r@ == ss_link_chars(id@, host@, path@, tls),
{
    let mut user = String::from_str("none:");
    push_uuid_chars(&mut user, id);
    let encoded = b64_standard(user.as_str());
    let mut s = String::from_str("ss://");
    s.append(encoded.as_str());
    s.append("@");
    s.append(host);
    s.append(":");
    s.append(if tls {
        "443"
    } else {
        "80"
    });
    s.append("?encryption=none&type=ws&host=");
    s.append(host);
    s.append("&path=/");
    s.append(path);
    s.append("&security=");
    s.append(if tls {
        "tls"
    } else {
        "none"
    });
    s.append("&fp=random");
    if tls {
        s.append("&sni=");
        s.append(host);
    }
    s.append("#[XSM]-SS-");
    s.append(if tls {
        "TLS"
    } else {
        "NTLS"
    });
    proof {
        assert(user@ =~= ss_userinfo_chars(id@));
        assert(s@ =~= ss_link_chars(id@, host@, path@, tls));
    }
    s
}

/// The VMess client profile, as compact JSON with its keys in sorted
/// order; the host and path are embedded verbatim.
pub open spec fn vmess_json_chars(id: Seq<u8>, host: Seq<char>, path: Seq<char>, tls: bool) -> Seq<
    char,
> {
    "{\"add\":\""@ + host + "\",\"aid\":\"0\",\"alpn\":\"\",\"host\":\""@ + host + "\",\"id\":\""@
        + uuid_chars(id) + "\",\"net\":\"ws\",\"path\":\"/"@ + path + "\",\"port\":\""@ + (if tls {
        "443"@
    } else {
        "80"@
    }) + "\",\"ps\":\"[XSM]-VMESS-"@ + (if tls {
        "TLS"@
    } else {
        "NTLS"@
    }) + "\",\"scy\":\"zero\",\"sni\":\""@ + host + "\",\"tls\":\""@ + (if tls {
        "tls"@
    } else {
        ""@
    }) + "\",\"type\":\"none\",\"v\":\"2\"}"@
}

/// Builds the VMess client profile JSON.
pub fn vmess_json(id: &[u8; 16], host: &str, path: &str, tls: bool) -> (r: String)
    ensures
        r@ == vmess_json_chars(id@, host@, path@, tls),
{
    let mut s = String::from_str("{\"add\":\"");
    s.append(host);
    s.append("\",\"aid\":\"0\",\"alpn\":\"\",\"host\":\"");
    s.append(host);
    s.append("\",\"id\":\"");
    push_uuid_chars(&mut s, id);
    s.append("\",\"net\":\"ws\",\"path\":\"/");
    s.append(path);
    s.append("\",\"port\":\"");
    s.append(if tls {
        "443"
    } else {
        "80"
    });
    s.append("\",\"ps\":\"[XSM]-VMESS-");
    s.append(if tls {
        "TLS"
    } else {
        "NTLS"
    });
    s.append("\",\"scy\":\"zero\",\"sni\":\"");
    s.append(host);
    s.append("\",\"tls\":\"");
    s.append(if tls {
        "tls"
    } else {
        ""
    });
    s.append("\",\"type\":\"none\",\"v\":\"2\"}");
    proof {
        assert(s@ =~= vmess_json_chars(id@, host@, path@, tls));
    }
    s
}

/// The VMess client link: the profile JSON, URL-safe base64 encoded.
pub open spec fn vmess_link_chars(id: Seq<u8>, host: Seq<char>, path: Seq<char>, tls: bool) -> Seq<
    char,
> {
    "vmess://"@ + b64_url_chars(vmess_json_chars(id, host, path, tls))
}

/// Builds the VMess client link.
pub fn vmess_link(id: &[u8; 16], host: &str, path: &str, tls: bool) -> (r: String)
    ensures
        r@ == vmess_link_chars(id@, host@, path@, tls),
{
    let json = vmess_json(id, host, path, tls);
    let encoded = b64_url_safe(json.as_str());
    let mut s = String::from_str("vmess://");
    s.append(encoded.as_str());
    proof {
        assert(s@ =~= vmess_link_chars(id@, host@, path@, tls));
    }
    s
}

} // verus!
