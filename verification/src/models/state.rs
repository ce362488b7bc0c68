//! Connection lifecycle states shown to the user.
use vstd::prelude::*;

verus! {

/// Lifecycle state of the VPN connection.
#[derive(Debug, Clone, Copy, PartialEq, Eq, Structural)]
pub enum ConnectionState {
    Disconnected,
    StartingAether,
    WaitingForAether,
    TestingAether,
    ScanningAether,
    StartingRouter,
    TestingRouting,
    Connected,
    Reconnecting,
    Disconnecting,
    Error,
}

impl Default for ConnectionState {
    /// A fresh application starts disconnected.
    fn default() -> (r: Self)
        ensures
            r == ConnectionState::Disconnected,
    {
        ConnectionState::Disconnected
    }
}

} // verus!
