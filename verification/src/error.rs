//! Ways a session can fail.

use vstd::prelude::*;

verus! {

/// Why a session ended, or why it runs degraded.
#[derive(Clone, Copy, Debug, PartialEq, Eq, Structural)]
pub enum SessionError {
    /// No Bluetooth radio is present.
    AdapterUnavailable,
    /// The scan ran out of time without a matching advertisement.
    DeviceNotFound,
    /// The link to the dock could not be established.
    ConnectionFailed,
    /// The dock lacks the service or one of its two characteristics.
    ServiceDiscoveryError,
    /// A write failed during the initialization sequence.
    HandshakeFailed,
    /// A command write failed in steady state; read as a disconnection.
    WriteFailure,
    /// Notifications could not be enabled; the session goes on without
    /// input source feedback.
    NotificationSetupFailure,
}

impl SessionError {
    /// Every error ends the session but a failed notification setup.
    pub open spec fn fatal(self) -> bool {
        self != SessionError::NotificationSetupFailure
    }

    /// Whether the error ends the session.
    pub fn is_fatal(&self) -> (fatal: bool)
        ensures
            fatal == self.fatal(),
    {
        match self {
            SessionError::NotificationSetupFailure => false,
            _ => true,
        }
    }
}

} // verus!
