//! The per-connection configuration: the trusted identity, the externally
//! visible host name, and the optional egress override. It is immutable
//! for the lifetime of a connection and shared by nothing else.

use vstd::prelude::*;
use crate::addr::DialTarget;

verus! {

/// The configuration handed to the engine at connection start.
#[derive(Clone, Debug)]
pub struct Config {
    /// The opaque 128-bit identifier clients must prove they hold.
    pub uuid: [u8; 16],
    /// The externally visible host name.
    pub host: Vec<u8>,
    /// The egress override: when set, every tunnel dials this target
    /// instead of the destination the client asked for.
    pub proxy: Option<DialTarget>,
}

/// The mathematical model of a configuration.
pub struct ConfigView {
    pub uuid: Seq<u8>,
    pub host: Seq<u8>,
    pub proxy: Option<(Seq<u8>, u16)>,
}

impl View for Config {
    type V = ConfigView;

    open spec fn view(&self) -> ConfigView {
        ConfigView {
            uuid: self.uuid@,
            host: self.host@,
            proxy: match self.proxy {
                Some(t) => Some((t.addr@, t.port)),
                None => None,
            },
        }
    }
}

} // verus!
