//! The laws of the command surface, each proved once and for all over the
//! engine's ghost model. The exec commands tie themselves to the spec
//! transitions in their `ensures`; these proofs state what the transitions
//! guarantee across calls.

use vstd::prelude::*;
use crate::commands::{
    EngineV, current_track_of, duration_of, engine_wf, order_is_permutation, snapshot_of,
    spec_cycle_repeat_mode, spec_seek, spec_set_volume, spec_skip_next, spec_skip_previous,
    spec_toggle_mute, spec_toggle_play_pause, spec_toggle_shuffle,
};
use crate::events::EventV;
use crate::player_state::RepeatMode;

verus! {

/// Law: as long as a track is current, each `toggle_play_pause` flips
/// `is_playing`; while none is current, every such call leaves the flag
/// false and the transport unchanged. Applied to each element of a
/// sequence of calls in turn, this gives the behaviour of the whole
/// sequence, since the cursor and queue are untouched either way.
pub proof fn lemma_toggle_play_pause(v: EngineV)
    requires
        engine_wf(v),
    ensures
        engine_wf(spec_toggle_play_pause(v)),
        v.current is Some ==> spec_toggle_play_pause(v).is_playing == !v.is_playing,
        v.current is None ==> spec_toggle_play_pause(v).is_playing == false,
        spec_toggle_play_pause(v).current == v.current,
        spec_toggle_play_pause(v).tracks == v.tracks,
        spec_toggle_play_pause(v).order == v.order,
        spec_toggle_play_pause(v).position_seconds == v.position_seconds,
        spec_toggle_play_pause(v).volume == v.volume,
        spec_toggle_play_pause(v).is_muted == v.is_muted,
        spec_toggle_play_pause(v).is_shuffle_active == v.is_shuffle_active,
        spec_toggle_play_pause(v).repeat_mode == v.repeat_mode,
{
}

/// The number of play/pause toggles applied to `v`, each through
/// `spec_toggle_play_pause`.
pub open spec fn toggle_n(v: EngineV, k: nat) -> EngineV
    decreases k,
{
    if k == 0 {
        v
    } else {
        spec_toggle_play_pause(toggle_n(v, (k - 1) as nat))
    }
}

/// Law, over whole sequences of calls: while no track is current,
/// `is_playing` is false after any number of toggles; while one is, the
/// flag after `k` toggles is the starting flag flipped `k` times.
pub proof fn lemma_toggle_play_pause_sequence(v: EngineV, k: nat)
    requires
        engine_wf(v),
    ensures
        engine_wf(toggle_n(v, k)),
        toggle_n(v, k).current == v.current,
        v.current is None ==> toggle_n(v, k).is_playing == false,
        v.current is Some ==> toggle_n(v, k).is_playing == (if k % 2 == 0 {
            v.is_playing
        } else {
            !v.is_playing
        }),
    decreases k,
{
    if k > 0 {
        lemma_toggle_play_pause_sequence(v, (k - 1) as nat);
    }
}

/// Law: a seek within `[0, duration]` sets the position to exactly the
/// requested value; a seek past the duration clamps to the duration — the
/// clamping policy, applied uniformly. Nothing but the position and the
/// outbox changes, and the one notification recorded carries the new
/// position.
pub proof fn lemma_seek_policy(v: EngineV, p: u32)
    requires
        engine_wf(v),
        v.current is Some,
    ensures
        engine_wf(spec_seek(v, p)),
        p <= duration_of(current_track_of(v)) ==> spec_seek(v, p).position_seconds == p,
        p > duration_of(current_track_of(v)) ==> spec_seek(v, p).position_seconds == duration_of(
            current_track_of(v),
        ),
        spec_seek(v, p).current == v.current,
        spec_seek(v, p).tracks == v.tracks,
        spec_seek(v, p).order == v.order,
        spec_seek(v, p).is_playing == v.is_playing,
        spec_seek(v, p).outbox =~= v.outbox.push(
            EventV::TimeChanged(spec_seek(v, p).position_seconds),
        ),
{
}

/// Law: a volume within `0..=100` is adopted exactly, and nothing else of
/// the transport moves — in particular the mute flag. (A volume above 100
/// never reaches the transition: `set_volume` rejects it with
/// `InvalidVolume` and leaves the whole state unchanged, as its own
/// contract states.)
pub proof fn lemma_set_volume(v: EngineV, volume: u8)
    requires
        engine_wf(v),
        volume <= 100,
    ensures
        engine_wf(spec_set_volume(v, volume)),
        spec_set_volume(v, volume).volume == volume,
        spec_set_volume(v, volume).is_muted == v.is_muted,
        spec_set_volume(v, volume).is_playing == v.is_playing,
        spec_set_volume(v, volume).current == v.current,
        spec_set_volume(v, volume).position_seconds == v.position_seconds,
{
}

/// The number of forward skips applied to `v`, each through
/// `spec_skip_next`.
pub open spec fn skip_n(v: EngineV, k: nat) -> EngineV
    decreases k,
{
    if k == 0 {
        v
    } else {
        spec_skip_next(skip_n(v, (k - 1) as nat))
    }
}

/// Where the cursor stands after `k` forward skips from `c` in a queue of
/// `n` rows under repeat `All`, for `k` at most `n`.
pub open spec fn wrap_index(c: int, k: int, n: int) -> int {
    if c + k < n {
        c + k
    } else {
        c + k - n
    }
}

/// Under repeat `All`, each forward skip advances the cursor by one,
/// wrapping at the queue end; queue, order, repeat mode and playing flag
/// are untouched.
pub proof fn lemma_skip_next_steps(v: EngineV, k: nat)
    requires
        engine_wf(v),
        v.repeat_mode == RepeatMode::All,
        v.current is Some,
        k <= v.tracks.len(),
    ensures
        engine_wf(skip_n(v, k)),
        skip_n(v, k).tracks == v.tracks,
        skip_n(v, k).order == v.order,
        skip_n(v, k).repeat_mode == v.repeat_mode,
        skip_n(v, k).is_playing == v.is_playing,
        skip_n(v, k).is_shuffle_active == v.is_shuffle_active,
        skip_n(v, k).volume == v.volume,
        skip_n(v, k).is_muted == v.is_muted,
        skip_n(v, k).current == Some(
            wrap_index(v.current->Some_0, k as int, v.tracks.len() as int),
        ),
        k > 0 ==> skip_n(v, k).position_seconds == 0,
        k == 0 ==> skip_n(v, k).position_seconds == v.position_seconds,
    decreases k,
{
    if k > 0 {
        lemma_skip_next_steps(v, (k - 1) as nat);
    }
}

/// Law: with repeat `All`, calling `skip_next` exactly as many times as the
/// queue has rows brings the cursor back to where it started, over the
/// unchanged queue and playback order — the skip cycle is the queue length.
pub proof fn lemma_skip_next_cycle(v: EngineV)
    requires
        engine_wf(v),
        v.repeat_mode == RepeatMode::All,
        v.current is Some,
    ensures
        skip_n(v, v.tracks.len()).current == v.current,
        skip_n(v, v.tracks.len()).tracks == v.tracks,
        skip_n(v, v.tracks.len()).order == v.order,
        current_track_of(skip_n(v, v.tracks.len())) == current_track_of(v),
{
    lemma_skip_next_steps(v, v.tracks.len());
}

/// Law: from a state with shuffle off, toggling shuffle twice restores the
/// original playback order, cursor and queue — the shuffle round trip. The
/// first toggle installs a permutation that fixes the current track's
/// position; the second restores insertion order, which is what a
/// shuffle-off state holds.
pub proof fn lemma_shuffle_round_trip(v: EngineV)
    requires
        engine_wf(v),
        !v.is_shuffle_active,
    ensures
        engine_wf(spec_toggle_shuffle(v)),
        spec_toggle_shuffle(spec_toggle_shuffle(v)).order =~= v.order,
        spec_toggle_shuffle(spec_toggle_shuffle(v)).current == v.current,
        spec_toggle_shuffle(spec_toggle_shuffle(v)).tracks == v.tracks,
        spec_toggle_shuffle(spec_toggle_shuffle(v)).is_shuffle_active == v.is_shuffle_active,
        current_track_of(spec_toggle_shuffle(v)) == current_track_of(v),
{
    let n = v.tracks.len() as int;
    let w1 = spec_toggle_shuffle(v);
    assert(order_is_permutation(w1.order, n));
    match v.current {
        Some(c) => {
            assert(v.order[c] == c);
            assert(w1.order[c] == c);
            assert(current_track_of(w1) == current_track_of(v));
        },
        None => {},
    }
    assert(engine_wf(w1));
    let w2 = spec_toggle_shuffle(w1);
    assert(w2.order =~= v.order);
}

/// Law: every successful mutating command records exactly one notification
/// in the outbox, and its payload is exactly the state the command leaves
/// behind — for seeks, the new position; for every other command, the full
/// snapshot. A subscriber that drains the outbox therefore observes one
/// state-changed notification per mutation, matching the command's
/// synchronous result.
pub proof fn lemma_one_notification_per_mutation(v: EngineV, p: u32, volume: u8)
    requires
        engine_wf(v),
    ensures
        spec_toggle_play_pause(v).outbox =~= v.outbox.push(
            EventV::StateChanged(snapshot_of(spec_toggle_play_pause(v))),
        ),
        v.tracks.len() > 0 ==> spec_skip_next(v).outbox =~= v.outbox.push(
            EventV::StateChanged(snapshot_of(spec_skip_next(v))),
        ),
        v.tracks.len() > 0 ==> spec_skip_previous(v).outbox =~= v.outbox.push(
            EventV::StateChanged(snapshot_of(spec_skip_previous(v))),
        ),
        spec_toggle_shuffle(v).outbox =~= v.outbox.push(
            EventV::StateChanged(snapshot_of(spec_toggle_shuffle(v))),
        ),
        spec_cycle_repeat_mode(v).outbox =~= v.outbox.push(
            EventV::StateChanged(snapshot_of(spec_cycle_repeat_mode(v))),
        ),
        volume <= 100 ==> spec_set_volume(v, volume).outbox =~= v.outbox.push(
            EventV::StateChanged(snapshot_of(spec_set_volume(v, volume))),
        ),
        spec_toggle_mute(v).outbox =~= v.outbox.push(
            EventV::StateChanged(snapshot_of(spec_toggle_mute(v))),
        ),
        v.current is Some ==> spec_seek(v, p).outbox =~= v.outbox.push(
            EventV::TimeChanged(spec_seek(v, p).position_seconds),
        ),
{
}

} // verus!
