//! The failures a session can report.

use vstd::prelude::*;

verus! {

/// Why a step of a session failed.
///
/// The state machines never look inside a failure; they only route it to a
/// terminal state. The variants exist so that each component can say what
/// went wrong and the operator can be told.
#[derive(Clone, Copy, Debug, PartialEq, Eq, Structural)]
pub enum FlingError {
    /// No usable Bluetooth adapter.
    AdapterUnavailable,
    /// No matching advertiser showed up before the scan deadline.
    DiscoveryTimeout,
    /// Connecting to, or pairing with, the peer failed.
    ConnectionFailed,
    /// The secret could not be read, or a sealed payload did not authenticate.
    AuthenticationFailed,
    /// The peer lacks the expected service or characteristic.
    ProtocolMismatch,
    /// The ephemeral network could not be created.
    NetworkFormationFailed,
    /// The ephemeral network could not be joined.
    NetworkJoinFailed,
    /// Nobody joined the ephemeral network in time.
    PeerJoinTimeout,
    /// Reading or writing the payload failed.
    TransferIOError,
}

} // verus!
