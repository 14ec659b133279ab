//! Error taxonomy for session queries.
//!
//! Every failure of an operating-system collaborator is surfaced to the
//! caller as one of these values, carrying the platform error code where one
//! is available.

use vstd::prelude::*;

verus! {

/// Which text field of a client-info record failed to decode.
#[derive(Debug, Clone, Copy, PartialEq, Eq, Structural)]
pub enum TextField {
    /// The connected user's name.
    UserName,
    /// The connected client machine's NetBIOS name.
    ClientName,
}

/// A failure reported by one of the session-query operations.
#[derive(Debug, Clone, Copy, PartialEq, Eq, Structural)]
pub enum SessionError {
    /// A session state code outside the closed range of known states.
    /// Carries the offending code.
    InvalidStateCode(i32),
    /// Opening a handle to the session server failed.
    /// Carries the platform error code.
    ServerOpenFailed(u32),
    /// Enumerating the sessions of an open server failed.
    /// Carries the platform error code.
    SessionEnumerationFailed(u32),
    /// Querying client metadata for one session failed.
    /// Carries the session id and the platform error code.
    ClientInfoQueryFailed(u32, u32),
    /// A client-info text field was not valid wide text.
    /// Carries the field and the session id.
    TextDecodeFailed(TextField, u32),
    /// Querying the local computer name failed.
    /// Carries the platform error code.
    HostNameQueryFailed(u32),
    /// The buffer returned by the computer-name query was not valid wide text.
    HostNameDecodeFailed,
}

} // verus!
