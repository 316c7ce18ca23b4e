//! The one configuration value the player reads at startup. The settings
//! store itself is an external collaborator; it hands over what it found,
//! and this module decides whether startup may proceed.

use vstd::prelude::*;
use crate::errors::PlayerError;

verus! {

/// Validates the `scanOnStartup` setting as read from the settings store:
/// `None` stands for a missing entry or one that is not a boolean. A
/// missing or malformed entry is a distinct startup error — no safe default
/// can be derived for it — reported as `Unavailable`, since the settings
/// store failed to supply what the core depends on.
pub fn startup_scan_setting(raw: Option<bool>) -> (r: Result<bool, PlayerError>)
    ensures
        raw matches Some(b) ==> r == Ok::<bool, PlayerError>(b),
        raw is None ==> r == Err::<bool, PlayerError>(PlayerError::Unavailable),
{
    match raw {
        Some(b) => Ok(b),
        None => Err(PlayerError::Unavailable),
    }
}

} // verus!
