//! Translation of native status codes into typed results.

use vstd::prelude::*;

verus! {

/// An error surfaced by the audio-settings adapter.
///
/// The taxonomy is exactly two kinds: a native status error carrying the raw
/// non-zero code verbatim, so callers can distinguish error kinds themselves,
/// and a single synthetic error raised locally when a requested microphone
/// preference has no matching device.
#[derive(Debug, Clone, Copy, PartialEq, Eq)]
pub enum SdkError {
    /// A native call returned this non-zero status code.
    Native(u32),
    /// A requested microphone preference matched no enumerated device.
    UnexpectedError,
}

/// The outcome of one adapter operation.
pub type SdkResult<T> = Result<T, SdkError>;

/// Translate the status code a native call returned, pairing success with
/// `value`: code zero is success, any other code is an error carrying that
/// exact code.
pub fn status_to_result<T>(status: u32, value: T) -> (r: SdkResult<T>)
    ensures
        status == 0 ==> r == Ok::<T, SdkError>(value),
        status != 0 ==> r == Err::<T, SdkError>(SdkError::Native(status)),
{
    if status == 0 {
        Ok(value)
    } else {
        Err(SdkError::Native(status))
    }
}

} // verus!
