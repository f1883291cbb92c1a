//! Test-harness supervisor core: ephemeral port allocation, supervised child
//! processes with race-based shutdown, ephemeral trust material for mutually
//! authenticated QUIC sessions, and the both-or-none session negotiation used
//! to stand up transport pairs inside a single test.

use vstd::prelude::*;

pub mod negotiate;
pub mod ports;
pub mod supervise;
pub mod text;
pub mod trust;

verus! {

/// Every failure the harness reports, one variant per failing setup step.
/// All failures are terminal: nothing in the harness retries.
#[derive(Clone, Copy, Debug, PartialEq, Eq, Structural)]
pub enum Error {
    /// Opening the ephemeral listening socket failed.
    Bind,
    /// Reading back a bound socket's concrete local address failed.
    QueryAddress,
    /// Spawning the child process failed.
    Spawn,
    /// The shutdown channel closed before it was fired and before the child
    /// exited on its own.
    ShutdownChannelClosed,
    /// The forced kill of the child failed.
    KillFailed,
    /// Waiting for the child's exit status failed.
    WaitFailed,
    /// Generating a self-signed certificate failed.
    CertGen,
    /// Installing the server certificate as a trust anchor failed.
    TrustAnchor,
    /// Assembling the TLS client configuration failed.
    ClientConfigBuild,
    /// Converting the TLS client configuration for the transport failed.
    ConfigConversion,
    /// Assembling the transport server configuration failed.
    ServerConfigBuild,
    /// Creating a transport endpoint failed.
    EndpointCreate,
    /// The client's connection attempt failed before the handshake.
    ClientConnect,
    /// The server saw no acceptable inbound connection.
    ServerAccept,
    /// The client side of the handshake failed.
    ClientHandshake,
    /// The server side of the handshake failed.
    ServerHandshake,
    /// The session-establishment URL could not be parsed.
    UrlParse,
}

} // verus!

