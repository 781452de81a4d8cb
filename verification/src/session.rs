//! The session handshake: the pipeline from the first bytes of a
//! connection to a ready tunnel. Detect the protocol, parse its header,
//! hold the credential against the configured identity, resolve the dial
//! target. Any failure closes the connection with no response written, so
//! a scanner learns nothing from the way a session dies.

use vstd::prelude::*;
use crate::addr::{DialTarget, Endpoint, EndpointView, endpoint_wf};
use crate::auth::{spec_credential_ok, validate_credential};
use crate::config::{Config, ConfigView};
use crate::detect::{Protocol, detect, spec_detect};
use crate::err::TunnelError;
use crate::header::{lemma_parse_wf, parse_header, spec_parse};
use crate::resolve::{resolve_egress, spec_resolve};

verus! {

/// Everything one tunnel knows, fixed at handshake time and owned by the
/// session alone: the detected protocol, the parsed destination, the
/// resolved dial target, the credential observed, the response header
/// owed to the client, and the leftover payload that must reach the
/// egress stream first.
pub struct ConnectionContext {
    pub tag: Protocol,
    pub dest: Endpoint,
    pub target: DialTarget,
    pub credential: Vec<u8>,
    pub response: Vec<u8>,
    pub leftover: Vec<u8>,
}

/// The mathematical model of a ready tunnel.
pub struct ContextView {
    pub tag: Protocol,
    pub dest: EndpointView,
    pub target: (Seq<u8>, u16),
    pub credential: Seq<u8>,
    pub response: Seq<u8>,
    pub leftover: Seq<u8>,
}

impl View for ConnectionContext {
    type V = ContextView;

    open spec fn view(&self) -> ContextView {
        ContextView {
            tag: self.tag,
            dest: self.dest@,
            target: self.target@,
            credential: self.credential@,
            response: self.response@,
            leftover: self.leftover@,
        }
    }
}

/// The whole handshake: classification, parsing, authentication and
/// resolution, each failure surfacing as its own error and nothing else.
pub open spec fn spec_handshake(cfg: ConfigView, b: Seq<u8>) -> Result<
    ContextView,
    TunnelError,
> {
    match spec_detect(b) {
        None => Err(TunnelError::DetectionFailed),
        Some(tag) => match spec_parse(tag, b) {
            Err(e) => Err(e),
            Ok(m) => if !spec_credential_ok(tag, m.credential, cfg) {
                Err(TunnelError::AuthenticationFailed)
            } else {
                Ok(
                    ContextView {
                        tag,
                        dest: EndpointView { host: m.host, port: m.port },
                        target: spec_resolve(EndpointView { host: m.host, port: m.port }, cfg.proxy),
                        credential: m.credential,
                        response: m.response,
                        leftover: b.skip(m.consumed),
                    },
                )
            },
        },
    }
}

/// Every successful handshake yields a well-formed destination — in
/// particular a port between 1 and 65535 — and dials exactly the
/// resolved target: the configured override when there is one, else the
/// destination itself.
pub proof fn lemma_handshake_wf(cfg: ConfigView, b: Seq<u8>)
    ensures
        spec_handshake(cfg, b) matches Ok(c) ==> endpoint_wf(c.dest) && c.target == spec_resolve(
            c.dest,
            cfg.proxy,
        ),
{
    if spec_handshake(cfg, b) is Ok {
        let tag = spec_detect(b)->Some_0;
        lemma_parse_wf(tag, b);
    }
}

/// Runs the handshake on the first bytes a client sent.
pub fn handshake(cfg: &Config, first: &[u8]) -> (r: Result<ConnectionContext, TunnelError>)
    ensures
        match spec_handshake(cfg@, first@) {
            Ok(c) => r matches Ok(ctx) && ctx@ == c,
            Err(e) => r matches Err(e2) && e2 == e,
        },
{
    let tag = match detect(first) {
        Ok(t) => t,
        Err(e) => {
            return Err(e);
        },
    };
    let p = match parse_header(tag, first) {
        Ok(p) => p,
        Err(e) => {
            return Err(e);
        },
    };
    match validate_credential(tag, p.credential.as_slice(), cfg) {
        Ok(u) => u,
        Err(e) => {
            return Err(e);
        },
    };
    let target = resolve_egress(&p.dest, cfg);
    Ok(
        ConnectionContext {
            tag,
            dest: p.dest,
            target,
            credential: p.credential,
            response: p.response,
            leftover: p.leftover,
        },
    )
}

} // verus!
