//! The ways in which an invocation fails.

use vstd::prelude::*;

verus! {

/// Why an invocation failed. No failure is recovered from: each one ends the
/// invocation.
#[derive(Clone, Copy, Debug, PartialEq, Eq, Structural, Hash)]
pub enum HandlerError {
    /// The incoming event or the downstream answer is not a document of the
    /// expected shape.
    Decode,
    /// The counter store rejected the update or could not be reached.
    Store,
    /// The downstream call failed or brought no payload.
    Invoke,
}

impl HandlerError {
    /// A short text for the failure.
    pub fn message(&self) -> (text: String)
        ensures
            text@ == (match *self {
                HandlerError::Decode => "malformed event or response"@,
                HandlerError::Store => "counter update failed"@,
                HandlerError::Invoke => "downstream invocation failed"@,
            }),
    {
        match self {
            HandlerError::Decode => "malformed event or response".to_owned(),
            HandlerError::Store => "counter update failed".to_owned(),
            HandlerError::Invoke => "downstream invocation failed".to_owned(),
        }
    }
}

} // verus!
