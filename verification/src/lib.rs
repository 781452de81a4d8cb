//! A tunnel endpoint engine. It inspects the first bytes a client sends,
//! classifies them into one of four proxy wire protocols (VLESS, Trojan,
//! VMess, Shadowsocks), parses the protocol header, authenticates the
//! client, resolves the outbound dial target — the parsed destination or
//! a configured egress override — and decides, event by event, what a
//! bidirectional relay between the client channel and the egress stream
//! writes, closes and counts. It also renders the client-side links that
//! carry a configuration to its users.
//!
//! The engine itself performs no I/O: the surrounding host hands it
//! buffers and events and carries out the writes and closes it asks for.

pub mod addr;
pub mod auth;
pub mod config;
pub mod detect;
pub mod err;
pub mod header;
pub mod ident;
pub mod laws;
pub mod links;
pub mod relay;
pub mod resolve;
pub mod session;
