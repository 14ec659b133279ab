//! The closed set of session connection states and the classification of the
//! raw integer codes that the operating system reports.

use vstd::prelude::*;

use crate::error::SessionError;

verus! {

/// The connection state of one remote-desktop session, as reported by the
/// host operating system. These are labels of an externally managed
/// condition; there is no transition logic in this crate.
#[derive(Debug, Clone, Copy, PartialEq, Eq, Structural)]
pub enum RemoteDesktopSessionState {
    /// A user is signed in and actively connected.
    Active,
    /// The session is connected to the client.
    Connected,
    /// The session is in the process of connecting to the client.
    ConnectQuery,
    /// The session is shadowing another session.
    Shadow,
    /// The session is active but the client is disconnected.
    Disconnected,
    /// The session is waiting for a client to connect.
    Idle,
    /// The session is listening for a connection.
    Listen,
    /// The session is being reset.
    Reset,
    /// The session is down due to an error.
    Down,
    /// The session is initializing.
    Init,
}

/// The documented mapping from a raw state code to its state, total on the
/// codes zero through nine.
pub open spec fn state_of(code: int) -> RemoteDesktopSessionState
    recommends
        0 <= code <= 9,
{
    if code == 0 {
        RemoteDesktopSessionState::Active
    } else if code == 1 {
        RemoteDesktopSessionState::Connected
    } else if code == 2 {
        RemoteDesktopSessionState::ConnectQuery
    } else if code == 3 {
        RemoteDesktopSessionState::Shadow
    } else if code == 4 {
        RemoteDesktopSessionState::Disconnected
    } else if code == 5 {
        RemoteDesktopSessionState::Idle
    } else if code == 6 {
        RemoteDesktopSessionState::Listen
    } else if code == 7 {
        RemoteDesktopSessionState::Reset
    } else if code == 8 {
        RemoteDesktopSessionState::Down
    } else {
        RemoteDesktopSessionState::Init
    }
}

impl RemoteDesktopSessionState {
    /// The variant for a raw state code already known to be in range.
    pub fn get_variant(id: i32) -> (r: Self)
        requires
            0 <= id <= 9,
        ensures
            r == state_of(id as int),
    {
        match id {
            0 => Self::Active,
            1 => Self::Connected,
            2 => Self::ConnectQuery,
            3 => Self::Shadow,
            4 => Self::Disconnected,
            5 => Self::Idle,
            6 => Self::Listen,
            7 => Self::Reset,
            8 => Self::Down,
            _ => Self::Init,
        }
    }

    /// Classify a raw state code. Codes zero through nine each map to their
    /// unique documented variant; any other code is rejected, never mapped
    /// to a default variant.
    pub fn classify(code: i32) -> (r: Result<Self, SessionError>)
        ensures
            0 <= code <= 9 ==> r == Ok::<Self, SessionError>(state_of(code as int)),
            !(0 <= code <= 9) ==> r == Err::<Self, SessionError>(
                SessionError::InvalidStateCode(code),
            ),
    {
        if 0 <= code && code <= 9 {
            Ok(Self::get_variant(code))
        } else {
            Err(SessionError::InvalidStateCode(code))
        }
    }
}

/// Distinct in-range codes classify to distinct states: no two of the ten
/// documented codes share a variant.
pub proof fn lemma_state_codes_distinct(i: int, j: int)
    requires
        0 <= i <= 9,
        0 <= j <= 9,
        i != j,
    ensures
        state_of(i) != state_of(j),
{
}

} // verus!
