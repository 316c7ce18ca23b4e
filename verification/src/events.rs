//! Notifications owed to observers. The command surface records, for every
//! successful mutation, exactly one notification in an outbox; the shell
//! around the library drains the outbox and broadcasts each entry on its
//! channel. Delivery is push-based, at-most-once and best-effort: nothing
//! here replays missed events.

use vstd::prelude::*;
use crate::player_state::{PlayerStateRust, StateV};

verus! {

/// Channel on which full transport snapshots are broadcast.
pub const PLAYER_STATE_UPDATE_EVENT: &'static str = "player_state_update_event";

/// Channel on which queue projections are broadcast.
pub const QUEUE_STATE_UPDATE_EVENT: &'static str = "queue_state_update_event";

/// Channel on which lightweight position updates are broadcast.
pub const PLAYER_TIME_UPDATE_EVENT: &'static str = "player_time_update_event";

/// Payload of a position update: the playback position in whole seconds.
#[derive(Debug, Clone, Copy)]
pub struct PlayerTimeUpdatePayload {
    pub current_time_seconds: u32,
}

/// Ghost view of a notification.
#[verifier::ext_equal]
pub ghost enum EventV {
    StateChanged(StateV),
    TimeChanged(u32),
}

/// One notification recorded by the command surface: either the full
/// transport snapshot after a mutation, or — for seeks — just the new
/// position.
#[derive(Debug)]
pub enum PlayerEvent {
    StateChanged(PlayerStateRust),
    TimeChanged(PlayerTimeUpdatePayload),
}

impl View for PlayerEvent {
    type V = EventV;

    open spec fn view(&self) -> EventV {
        match self {
            PlayerEvent::StateChanged(s) => EventV::StateChanged(s@),
            PlayerEvent::TimeChanged(p) => EventV::TimeChanged(p.current_time_seconds),
        }
    }
}

impl PlayerEvent {
    /// The channel a notification of this kind is broadcast on.
    pub fn channel(&self) -> (r: &'static str)
        ensures
            self is StateChanged ==> r@ == PLAYER_STATE_UPDATE_EVENT@,
            self is TimeChanged ==> r@ == PLAYER_TIME_UPDATE_EVENT@,
    {
        match self {
            PlayerEvent::StateChanged(_) => PLAYER_STATE_UPDATE_EVENT,
            PlayerEvent::TimeChanged(_) => PLAYER_TIME_UPDATE_EVENT,
        }
    }
}

} // verus!
