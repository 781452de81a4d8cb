//! The error taxonomy of the tunnel engine. Every failure is local to one
//! connection: the caller logs the value and closes the connection, and no
//! retry is ever attempted within the same connection.

use vstd::prelude::*;

verus! {

/// Why a tunnel session ended in failure.
#[derive(Clone, Copy, PartialEq, Eq, Structural, Debug)]
pub enum TunnelError {
    /// The first bytes matched none of the supported protocols.
    DetectionFailed,
    /// The header was malformed or incomplete: a length field implied a
    /// read past the end of the buffer, a fixed marker byte was wrong, or
    /// a field held a value no valid header can carry.
    TruncatedHeader,
    /// The header carried a command other than TCP connect.
    UnsupportedCommand,
    /// The credential in the header did not match the configured identity.
    AuthenticationFailed,
    /// The outbound dial to the egress endpoint failed.
    EgressConnectFailed,
    /// Reading or writing during the relay phase failed.
    RelayIoError,
}

} // verus!
