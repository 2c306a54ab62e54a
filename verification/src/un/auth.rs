//! The outcome of asking macOS for permission to display alerts and play
//! sounds.

use vstd::prelude::*;

use super::Error;

verus! {

/// What a permission request returns once the bundle check passed, given
/// what the completion handler delivered: `Some(granted)` when it fired,
/// `None` when the answer channel closed without an answer.
pub fn request_auth_result(answer: Option<bool>) -> (r: Result<bool, Error>)
    ensures
        r == match answer {
            Some(granted) => Ok(granted),
            None => Err(Error::NotificationRejected),
        },
{
    match answer {
        Some(granted) => Ok(granted),
        None => Err(Error::NotificationRejected),
    }
}

} // verus!
