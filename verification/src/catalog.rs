//! Translation of the external catalog's answers. The core depends on, but
//! does not implement, a lookup from a track identifier to detailed
//! metadata; the embedding shell performs that lookup (bounded by a
//! timeout) and hands the outcome here, so that every outcome maps to a
//! defined command result and a slow or failing catalog can never corrupt
//! the player state.

use vstd::prelude::*;
use crate::errors::PlayerError;
use crate::player_state::DetailedTrackInfoRust;

verus! {

/// The outcome of one catalog lookup, as reported by the collaborator that
/// performed it: the metadata, a definite miss, or no answer within the
/// time budget.
pub enum CatalogReply {
    Found(DetailedTrackInfoRust),
    Missing,
    TimedOut,
}

/// Resolves a catalog reply into the result of `get_track_details`: the
/// metadata as found, `TrackNotFound` on a definite miss, and `Unavailable`
/// when the catalog gave no answer in time.
pub fn get_track_details(reply: CatalogReply) -> (r: Result<DetailedTrackInfoRust, PlayerError>)
    ensures
        reply matches CatalogReply::Found(info) ==> r == Ok::<DetailedTrackInfoRust, PlayerError>(
            info,
        ),
        reply is Missing ==> r == Err::<DetailedTrackInfoRust, PlayerError>(
            PlayerError::TrackNotFound,
        ),
        reply is TimedOut ==> r == Err::<DetailedTrackInfoRust, PlayerError>(
            PlayerError::Unavailable,
        ),
{
    match reply {
        CatalogReply::Found(info) => Ok(info),
        CatalogReply::Missing => Err(PlayerError::TrackNotFound),
        CatalogReply::TimedOut => Err(PlayerError::Unavailable),
    }
}

} // verus!
