//! The standalone query for the local machine's network name.

use vstd::prelude::*;

use crate::error::SessionError;
use crate::text::decode_wide;
use crate::text::decoded_wide;

verus! {

/// The local machine's network name, from the outcome of the
/// get-computer-name collaborator: either the wide buffer the collaborator
/// filled, or its failure code. The buffer is decoded as zero-terminated
/// wide text; a failure code is surfaced unchanged.
pub fn get_host_name(outcome: Result<Vec<u16>, u32>) -> (r: Result<String, SessionError>)
    ensures
        match outcome {
            Result::Err(code) => r == Err::<String, SessionError>(
                SessionError::HostNameQueryFailed(code),
            ),
            Result::Ok(buf) => match decoded_wide(buf@) {
                Some(cs) => r is Ok && r.unwrap()@ == cs,
                None => r == Err::<String, SessionError>(SessionError::HostNameDecodeFailed),
            },
        },
{
    match outcome {
        Err(code) => Err(SessionError::HostNameQueryFailed(code)),
        Ok(buf) => match decode_wide(&buf) {
            Some(name) => Ok(name),
            None => Err(SessionError::HostNameDecodeFailed),
        },
    }
}

} // verus!
