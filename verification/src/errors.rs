//! Error taxonomy of the command surface. Every failure is reported to the
//! caller as a value of `PlayerError`; none is fatal to the process.

use vstd::prelude::*;

verus! {

/// The ways a command can fail.
///
/// - `EmptyQueue`: a skip command found no tracks to navigate.
/// - `TrackNotFound`: the catalog does not know the requested identifier.
/// - `InvalidPosition`: a seek was issued while no track is current.
/// - `InvalidVolume`: a volume outside `0..=100` was rejected.
/// - `Unavailable`: a dependent subsystem did not answer within its budget.
#[derive(Clone, Copy, Debug, PartialEq, Eq, Structural)]
pub enum PlayerError {
    EmptyQueue,
    TrackNotFound,
    InvalidPosition,
    InvalidVolume,
    Unavailable,
}

impl PlayerError {
    /// The human-readable message that accompanies the error on the wire.
    pub fn message(&self) -> (r: String)
        ensures
            *self == PlayerError::EmptyQueue ==> r@ == "the queue has no tracks"@,
            *self == PlayerError::TrackNotFound ==> r@ == "no track with that identifier"@,
            *self == PlayerError::InvalidPosition ==> r@ == "no current track to seek in"@,
            *self == PlayerError::InvalidVolume ==> r@ == "volume must lie in 0..=100"@,
            *self == PlayerError::Unavailable ==> r@ == "a dependent subsystem did not respond"@,
    {
        match self {
            PlayerError::EmptyQueue => String::from_str("the queue has no tracks"),
            PlayerError::TrackNotFound => String::from_str("no track with that identifier"),
            PlayerError::InvalidPosition => String::from_str("no current track to seek in"),
            PlayerError::InvalidVolume => String::from_str("volume must lie in 0..=100"),
            PlayerError::Unavailable => String::from_str("a dependent subsystem did not respond"),
        }
    }
}

} // verus!
