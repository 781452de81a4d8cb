//! The egress resolver. A route segment of the form `address-port` — any
//! bytes, then a hyphen, then decimal digits at the very end — selects an
//! egress override; the split is at the last hyphen, and a port that does
//! not fit sixteen bits leaves the default in place. Resolution itself is
//! a pure choice: the override when one is configured, else the parsed
//! destination.

use vstd::prelude::*;
use vstd::slice::{slice_subrange, slice_to_vec};
use crate::addr::{DialTarget, Endpoint, EndpointView, host_text, host_text_seq};
use crate::config::Config;

verus! {

/// An ASCII decimal digit.
pub open spec fn is_digit(b: u8) -> bool {
    48 <= b <= 57
}

/// Position `j` splits a route token: a hyphen with at least one byte
/// before it, only digits after it (at least one), and no line break in
/// the address part.
pub open spec fn route_split_at(s: Seq<u8>, j: int) -> bool {
    &&& 1 <= j
    &&& j + 1 < s.len()
    &&& s[j] == 45
    &&& forall|k: int| j < k < s.len() ==> is_digit(#[trigger] s[k])
    &&& forall|k: int| 0 <= k < j ==> #[trigger] s[k] != 10
}

/// A route token names an override: some position splits it. Only the
/// last hyphen can, since no hyphen is a digit.
pub open spec fn route_token_ok(s: Seq<u8>) -> bool {
    exists|j: int| route_split_at(s, j)
}

/// The value of a string of decimal digits.
pub open spec fn digits_val(s: Seq<u8>) -> int
    decreases s.len(),
{
    if s.len() == 0 {
        0
    } else {
        digits_val(s.drop_last()) * 10 + (s.last() - 48)
    }
}

/// The override a route token decodes to: the bytes before the last
/// hyphen and the digit value after it, provided the value fits a port.
pub open spec fn spec_route_override(s: Seq<u8>) -> Option<(Seq<u8>, u16)> {
    if route_token_ok(s) {
        let j = choose|j: int| route_split_at(s, j);
        let v = digits_val(s.subrange(j + 1, s.len() as int));
        if v <= 65535 {
            Some((s.subrange(0, j), v as u16))
        } else {
            None
        }
    } else {
        None
    }
}

/// At most one position splits a token: everything after a split is a
/// digit, and a hyphen is not a digit.
pub proof fn lemma_route_split_unique(s: Seq<u8>, j1: int, j2: int)
    requires
        route_split_at(s, j1),
        route_split_at(s, j2),
    ensures
        j1 == j2,
{
    if j1 < j2 {
        assert(is_digit(s[j2]));
    }
    if j2 < j1 {
        assert(is_digit(s[j1]));
    }
}

/// The value of a digit string is never negative.
pub proof fn lemma_digits_val_nonneg(s: Seq<u8>)
    requires
        forall|k: int| 0 <= k < s.len() ==> is_digit(#[trigger] s[k]),
    ensures
        digits_val(s) >= 0,
    decreases s.len(),
{
    if s.len() > 0 {
        lemma_digits_val_nonneg(s.drop_last());
    }
}

/// A prefix of a digit string never has a larger value than the whole.
pub proof fn lemma_digits_prefix_le(s: Seq<u8>, m: int)
    requires
        forall|k: int| 0 <= k < s.len() ==> is_digit(#[trigger] s[k]),
        0 <= m <= s.len(),
    ensures
        digits_val(s.take(m)) <= digits_val(s),
    decreases s.len(),
{
    if m == s.len() {
        assert(s.take(m) =~= s);
    } else {
        let t = s.drop_last();
        assert(t.take(m) =~= s.take(m));
        lemma_digits_prefix_le(t, m);
        lemma_digits_val_nonneg(t);
    }
}

/// Counts the decimal digits at the end of `s`.
fn trailing_digits(s: &[u8]) -> (d: usize)
    ensures
        d <= s@.len(),
        forall|k: int| s@.len() - d <= k < s@.len() ==> is_digit(#[trigger] s@[k]),
        d < s@.len() ==> !is_digit(s@[s@.len() - d - 1]),
{
    let n = s.len();
    let mut d: usize = 0;
    while d < n
        invariant
            d <= n,
            n == s@.len(),
            forall|k: int| n - d <= k < n ==> is_digit(#[trigger] s@[k]),
        decreases n - d,
    {
        let c = s[n - 1 - d];
        if !(48 <= c && c <= 57) {
            return d;
        }
        d = d + 1;
    }
    d
}

/// Decodes a route token into an egress override, or nothing when the
/// token does not match the grammar or its port overflows.
pub fn route_override(s: &[u8]) -> (r: Option<DialTarget>)
    ensures
        match spec_route_override(s@) {
            Some(o) => r matches Some(t) && t@ == o,
            None => r is None,
        },
{
    let n = s.len();
    let d = trailing_digits(s);
    if d == 0 {
        proof {
            if route_token_ok(s@) {
                let j2 = choose|j2: int| route_split_at(s@, j2);
                assert(is_digit(s@[n - 1]));
            }
        }
        return None;
    }
    if d >= n {
        proof {
            if route_token_ok(s@) {
                let j2 = choose|j2: int| route_split_at(s@, j2);
                assert(is_digit(s@[j2]));
            }
        }
        return None;
    }
    let j = n - d - 1;
    proof {
        if route_token_ok(s@) {
            let j2 = choose|j2: int| route_split_at(s@, j2);
            if j2 < j as int {
                assert(is_digit(s@[j as int]));
            }
            if j2 > j as int {
                assert(is_digit(s@[j2]));
            }
            assert(j2 == j as int);
        }
    }
    let c = s[j];
    if c != 45 {
        return None;
    }
    if j < 1 {
        return None;
    }
    let mut k: usize = 0;
    while k < j
        invariant
            k <= j,
            j < n,
            n == s@.len(),
            forall|t: int| 0 <= t < k ==> #[trigger] s@[t] != 10,
        decreases j - k,
    {
        if s[k] == 10 {
            proof {
                if route_token_ok(s@) {
                    let j2 = choose|j2: int| route_split_at(s@, j2);
                    if j2 < j as int {
                        assert(is_digit(s@[j as int]));
                    }
                    if j2 > j as int {
                        assert(is_digit(s@[j2]));
                    }
                    assert(s@[k as int] != 10);
                }
            }
            return None;
        }
        k = k + 1;
    }
    proof {
        assert(route_split_at(s@, j as int));
    }
    let ghost digits = s@.subrange(j as int + 1, n as int);
    let mut acc: u32 = 0;
    let mut p: usize = j + 1;
    while p < n
        invariant
            j + 1 <= p <= n,
            n == s@.len(),
            j + 1 < n,
            route_split_at(s@, j as int),
            digits == s@.subrange(j as int + 1, n as int),
            acc as int == digits_val(s@.subrange(j as int + 1, p as int)),
            acc <= 65535,
        decreases n - p,
    {
        let dig = s[p];
        assert(is_digit(s@[p as int]));
        acc = acc * 10 + ((dig - 48) as u32);
        proof {
            let pre = s@.subrange(j as int + 1, p as int + 1);
            assert(pre.drop_last() =~= s@.subrange(j as int + 1, p as int));
            assert(pre.last() == s@[p as int]);
        }
        if acc > 65535 {
            proof {
                let pre = s@.subrange(j as int + 1, p as int + 1);
                assert(digits.take(p as int + 1 - (j as int + 1)) =~= pre);
                assert(forall|t: int| #![trigger digits[t]]
                    0 <= t < digits.len() ==> is_digit(digits[t]) && digits[t] == s@[j as int + 1
                        + t]);
                lemma_digits_prefix_le(digits, p as int + 1 - (j as int + 1));
                let j2 = choose|j2: int| route_split_at(s@, j2);
                lemma_route_split_unique(s@, j as int, j2);
            }
            return None;
        }
        p = p + 1;
    }
    proof {
        assert(s@.subrange(j as int + 1, n as int) == digits);
        let j2 = choose|j2: int| route_split_at(s@, j2);
        lemma_route_split_unique(s@, j as int, j2);
    }
    let addr = slice_to_vec(slice_subrange(s, 0, j));
    Some(DialTarget { addr, port: acc as u16 })
}

/// The egress override a request starts with: the route token's value
/// when it decodes, else the visible host on port 80.
pub open spec fn spec_request_proxy(host: Seq<u8>, route: Option<Seq<u8>>) -> Option<
    (Seq<u8>, u16),
> {
    match route {
        Some(s) => match spec_route_override(s) {
            Some(o) => Some(o),
            None => Some((host, 80)),
        },
        None => Some((host, 80)),
    }
}

/// Builds the configuration for one inbound request: the identifier, the
/// visible host, and the override the route supplies — defaulting to the
/// host itself on port 80 when the route names none.
pub fn config_for_request(uuid: [u8; 16], host: Vec<u8>, route: Option<&[u8]>) -> (c: Config)
    ensures
        c@.uuid == uuid@,
        c@.host == host@,
        route matches Some(s) ==> c@.proxy == spec_request_proxy(host@, Some(s@)),
        route is None ==> c@.proxy == spec_request_proxy(host@, None),
{
    let fallback_addr = slice_to_vec(host.as_slice());
    let fallback = DialTarget { addr: fallback_addr, port: 80 };
    let proxy = match route {
        Some(s) => match route_override(s) {
            Some(t) => Some(t),
            None => Some(fallback),
        },
        None => Some(fallback),
    };
    Config { uuid, host, proxy }
}

/// The dial target of a tunnel: the configured override when one is set,
/// else the destination the client asked for, in text form.
pub open spec fn spec_resolve(dest: EndpointView, proxy: Option<(Seq<u8>, u16)>) -> (Seq<u8>, u16) {
    match proxy {
        Some(o) => o,
        None => (host_text_seq(dest.host), dest.port),
    }
}

/// Resolves the egress endpoint for one tunnel.
pub fn resolve_egress(dest: &Endpoint, cfg: &Config) -> (t: DialTarget)
    ensures
        t@ == spec_resolve(dest@, cfg@.proxy),
{
    match &cfg.proxy {
        Some(o) => DialTarget { addr: slice_to_vec(o.addr.as_slice()), port: o.port },
        None => DialTarget { addr: host_text(&dest.host), port: dest.port },
    }
}

/// With an override configured, the dial target is the override,
/// whatever destination the header carried; with none, it is the parsed
/// destination itself.
pub proof fn lemma_resolve_override(dest: EndpointView, o: (Seq<u8>, u16))
    ensures
        spec_resolve(dest, Some(o)) == o,
        spec_resolve(dest, None) == (host_text_seq(dest.host), dest.port),
{
}

/// Resolution is pure: the same destination and the same configured
/// override always yield the same dial target, however often it is asked.
pub proof fn lemma_resolve_deterministic(
    d1: EndpointView,
    d2: EndpointView,
    p1: Option<(Seq<u8>, u16)>,
    p2: Option<(Seq<u8>, u16)>,
)
    requires
        d1 == d2,
        p1 == p2,
    ensures
        spec_resolve(d1, p1) == spec_resolve(d2, p2),
{
}

} // verus!
