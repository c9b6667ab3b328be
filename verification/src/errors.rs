//! Error taxonomy of the connectivity core.
//!
//! Bootstrap failures are fatal to startup; everything after bootstrap is
//! recovered locally by discarding the connection or message at fault.

use vstd::prelude::*;

verus! {

/// Failure of a transport-level dial, listen, or connection upgrade.
#[derive(Clone, Copy, Debug, PartialEq, Eq, Structural)]
pub enum TransportError {
    /// The authenticated encryption handshake with the remote failed.
    HandshakeFailed,
    /// The remote address could not be reached.
    Unreachable,
    /// The dial did not complete within its bounded timeout.
    Timeout,
}

/// Failure while bootstrapping through, or holding a reservation on, a relay.
#[derive(Clone, Copy, Debug, PartialEq, Eq, Structural)]
pub enum RelayError {
    /// The relay rejected the reservation request.
    ReservationRejected,
    /// The relay refused to open a circuit to the target peer.
    CircuitRefused,
}

/// A failure during initial bootstrap, fatal to startup: the core cannot
/// usefully run without a relay path.
#[derive(Clone, Copy, Debug, PartialEq, Eq, Structural)]
pub enum BootstrapError {
    /// The dial to the relay itself failed.
    Transport(TransportError),
    /// The relay refused us: reservation rejected or circuit refused.
    Relay(RelayError),
}

/// Failure of an attempt to upgrade a relayed connection to a direct one.
#[derive(Clone, Copy, Debug, PartialEq, Eq, Structural)]
pub enum HolePunchError {
    /// Neither side offered a usable direct-dial candidate.
    NoCandidates,
    /// The synchronized simultaneous open could not be coordinated.
    SyncFailed,
    /// The fixed attempt ceiling was reached without a direct connection.
    RetriesExhausted,
}

/// Failure in the publish-subscribe layer.
#[derive(Clone, Copy, Debug, PartialEq, Eq, Structural)]
pub enum GossipError {
    /// A publish was requested while no peer connection existed.
    NoPeers,
    /// A received message carried a signature that does not verify.
    InvalidSignature,
    /// A received message was structurally malformed.
    MalformedMessage,
}

} // verus!
