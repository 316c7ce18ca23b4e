//! The command surface: the sole mutation and read path into the player's
//! transport state and queue. Every command validates its input before any
//! mutation, so a rejected command leaves the state untouched; every
//! successful mutating command records exactly one notification in the
//! outbox, whose payload matches the state the command leaves behind.
//!
//! Boundary policies, fixed here and applied uniformly:
//! - a seek past the end of the current track clamps to the track's duration
//!   rather than failing; a seek with no current track fails;
//! - a volume outside `0..=100` is rejected and the prior volume kept;
//! - an explicit skip treats repeat `One` like `Off`: it advances, and stops
//!   at the queue end (`One` governs replay at the end of a track, which is
//!   the audio engine's concern, not the skip commands');
//! - a skip with no current track selects the first row in playback order;
//! - a track whose duration is unknown admits no position other than zero.

use vstd::prelude::*;
use crate::errors::PlayerError;
use crate::events::{EventV, PlayerEvent, PlayerTimeUpdatePayload};
use crate::player_state::{
    PlayerBarTrackInfoRust, PlayerStateRust, QueueStateRust, QueueSummaryRust, QueueTrackRust,
    RepeatMode, StateV, TrackV, QueueStateV, QueueSummaryV, QueueTrackV, clone_opt_string,
};
use crate::text::{
    format_duration, queued_text, selected_text, spec_duration_text, spec_queued_text,
    spec_selected_text,
};

verus! {

/// Ghost view of the whole engine: the transport fields, the queue in
/// insertion order, the playback order as a permutation of queue indices,
/// the current playback position within that order, and the outbox of
/// notifications not yet delivered.
#[verifier::ext_equal]
pub ghost struct EngineV {
    pub is_playing: bool,
    pub is_shuffle_active: bool,
    pub repeat_mode: RepeatMode,
    pub volume: u8,
    pub is_muted: bool,
    pub position_seconds: u32,
    pub tracks: Seq<TrackV>,
    pub order: Seq<int>,
    pub current: Option<int>,
    pub outbox: Seq<EventV>,
}

/// The track summary under the playback cursor, if any.
pub open spec fn current_track_of(v: EngineV) -> Option<TrackV> {
    match v.current {
        Some(c) => Some(v.tracks[v.order[c]]),
        None => None,
    }
}

/// The seekable length of a track summary: its duration where known, and
/// zero where the duration is unknown or no track is given.
pub open spec fn duration_of(t: Option<TrackV>) -> u32 {
    match t {
        Some(tv) => match tv.duration_seconds {
            Some(d) => d,
            None => 0,
        },
        None => 0,
    }
}

/// `order` rearranges exactly the indices `0..n`.
pub open spec fn order_is_permutation(order: Seq<int>, n: int) -> bool {
    &&& order.len() == n
    &&& forall|i: int| 0 <= i < n ==> 0 <= #[trigger] order[i] < n
    &&& forall|i: int, j: int| 0 <= i < j < n ==> order[i] != order[j]
}

/// Well-formedness of the engine, established by `new` and preserved by
/// every command:
/// - the volume lies in `0..=100`;
/// - the playback order is a permutation of the queue's indices, and equals
///   the insertion order whenever shuffle is off;
/// - the playback cursor, if present, is in range; if absent, the player is
///   paused at position zero;
/// - the position never exceeds the current track's seekable length.
pub open spec fn engine_wf(v: EngineV) -> bool {
    &&& v.volume <= 100
    &&& v.tracks.len() <= u32::MAX as nat
    &&& order_is_permutation(v.order, v.tracks.len() as int)
    &&& match v.current {
        Some(c) => 0 <= c < v.tracks.len(),
        None => !v.is_playing && v.position_seconds == 0,
    }
    &&& v.position_seconds <= duration_of(current_track_of(v))
    &&& (!v.is_shuffle_active ==> forall|i: int|
        0 <= i < v.order.len() ==> #[trigger] v.order[i] == i)
}

/// The transport snapshot derived from the engine.
pub open spec fn snapshot_of(v: EngineV) -> StateV {
    StateV {
        is_playing: v.is_playing,
        is_shuffle_active: v.is_shuffle_active,
        repeat_mode: v.repeat_mode,
        current_track: current_track_of(v),
        volume: v.volume,
        is_muted: v.is_muted,
        current_time_seconds: v.position_seconds,
    }
}

/// `v` with a state-changed notification for its own snapshot appended.
pub open spec fn with_state_event(v: EngineV) -> EngineV {
    EngineV { outbox: v.outbox.push(EventV::StateChanged(snapshot_of(v))), ..v }
}

/// Effect of `toggle_play_pause`: flips the playing flag if a track is
/// current, leaves the transport unchanged otherwise, and in either case
/// records one state-changed notification.
pub open spec fn spec_toggle_play_pause(v: EngineV) -> EngineV {
    let core = if v.current is Some {
        EngineV { is_playing: !v.is_playing, ..v }
    } else {
        v
    };
    with_state_event(core)
}

/// Effect of `skip_next` on a non-empty queue.
pub open spec fn spec_skip_next(v: EngineV) -> EngineV {
    let core = match v.current {
        None => EngineV { current: Some(0int), position_seconds: 0u32, ..v },
        Some(c) => if c + 1 < v.tracks.len() {
            EngineV { current: Some(c + 1), position_seconds: 0u32, ..v }
        } else if v.repeat_mode == RepeatMode::All {
            EngineV { current: Some(0int), position_seconds: 0u32, ..v }
        } else {
            EngineV { is_playing: false, position_seconds: 0u32, ..v }
        },
    };
    with_state_event(core)
}

/// Effect of `skip_previous` on a non-empty queue: moves to the prior row,
/// or restarts the current row from zero when already at the first; never
/// wraps.
pub open spec fn spec_skip_previous(v: EngineV) -> EngineV {
    let core = match v.current {
        None => EngineV { current: Some(0int), position_seconds: 0u32, ..v },
        Some(c) => if c == 0 {
            EngineV { position_seconds: 0u32, ..v }
        } else {
            EngineV { current: Some(c - 1), position_seconds: 0u32, ..v }
        },
    };
    with_state_event(core)
}

/// The insertion order itself: the identity arrangement of `0..n`.
pub open spec fn identity_order(n: int) -> Seq<int> {
    Seq::new(n as nat, |i: int| i)
}

/// The playback order chosen when shuffle is turned on with no current
/// track: the queue reversed.
pub open spec fn reversed_order(n: int) -> Seq<int> {
    Seq::new(n as nat, |i: int| n - 1 - i)
}

/// The playback order chosen when shuffle is turned on with the cursor at
/// `c`: the queue reversed, except that `c` (and therefore its mirror image)
/// keeps its place, so the current track's position is fixed.
pub open spec fn shuffled_order(n: int, c: int) -> Seq<int> {
    Seq::new(n as nat, |i: int| if i == c || i == n - 1 - c { i } else { n - 1 - i })
}

/// Effect of `toggle_shuffle`. Turning shuffle on replaces the playback
/// order by a permutation that fixes the current track's position; turning
/// it off restores insertion order and moves the cursor so that the current
/// track is unchanged.
pub open spec fn spec_toggle_shuffle(v: EngineV) -> EngineV {
    let n = v.tracks.len() as int;
    let core = if v.is_shuffle_active {
        let cur = match v.current {
            Some(c) => Some(v.order[c]),
            None => None::<int>,
        };
        EngineV { is_shuffle_active: false, order: identity_order(n), current: cur, ..v }
    } else {
        let ord = match v.current {
            Some(c) => shuffled_order(n, c),
            None => reversed_order(n),
        };
        EngineV { is_shuffle_active: true, order: ord, ..v }
    };
    with_state_event(core)
}

/// The successor of a repeat mode in the cycle Off -> All -> One -> Off.
pub open spec fn next_repeat_mode(m: RepeatMode) -> RepeatMode {
    match m {
        RepeatMode::Off => RepeatMode::All,
        RepeatMode::All => RepeatMode::One,
        RepeatMode::One => RepeatMode::Off,
    }
}

/// Effect of `cycle_repeat_mode`.
pub open spec fn spec_cycle_repeat_mode(v: EngineV) -> EngineV {
    with_state_event(EngineV { repeat_mode: next_repeat_mode(v.repeat_mode), ..v })
}

/// Effect of `seek` when a track is current: the position becomes the
/// requested one, clamped to the track's seekable length, and one
/// time-changed notification carries the new position.
pub open spec fn spec_seek(v: EngineV, p: u32) -> EngineV {
    let d = duration_of(current_track_of(v));
    let np = if p <= d { p } else { d };
    EngineV { position_seconds: np, outbox: v.outbox.push(EventV::TimeChanged(np)), ..v }
}

/// Effect of `set_volume` for a volume within `0..=100`.
pub open spec fn spec_set_volume(v: EngineV, volume: u8) -> EngineV {
    with_state_event(EngineV { volume: volume, ..v })
}

/// Effect of `toggle_mute`: flips the mute flag and leaves the volume as it
/// is.
pub open spec fn spec_toggle_mute(v: EngineV) -> EngineV {
    with_state_event(EngineV { is_muted: !v.is_muted, ..v })
}

/// Effect of `enqueue`: the track is appended at the end of both the
/// insertion order and the playback order; transport fields, cursor and
/// outbox are untouched.
pub open spec fn spec_enqueue(v: EngineV, t: TrackV) -> EngineV {
    EngineV { tracks: v.tracks.push(t), order: v.order.push(v.tracks.len() as int), ..v }
}

/// The queue projection derived from the engine: one display row per queue
/// entry, in playback order, plus the summary line.
pub open spec fn queue_view_of(v: EngineV) -> QueueStateV {
    QueueStateV {
        tracks: Seq::new(v.tracks.len(), |i: int| row_of(v, i)),
        summary: Some(QueueSummaryV {
            selected_text: match v.current {
                Some(c) => Some(spec_selected_text(c + 1, v.tracks.len() as int)),
                None => None,
            },
            queued_text: Some(spec_queued_text(v.tracks.len() as int)),
        }),
    }
}

/// The display text for an optional field: its contents, or empty.
pub open spec fn display_of(o: Option<Seq<char>>) -> Seq<char> {
    match o {
        Some(s) => s,
        None => Seq::empty(),
    }
}

/// The display row for position `i` of the playback order.
pub open spec fn row_of(v: EngineV, i: int) -> QueueTrackV {
    let t = v.tracks[v.order[i]];
    QueueTrackV {
        id: t.id,
        title: display_of(t.title),
        artist: display_of(t.artist),
        album_art_url: t.album_art_url,
        duration: spec_duration_text(duration_of(Some(t)) as int),
        is_playing: Some(v.current == Some(i) && v.is_playing),
    }
}

/// The player core: transport state, queue, playback order and notification
/// outbox, mutated exclusively through the command surface. The embedding
/// shell serializes concurrent command invocations around a value of this
/// type and delivers the outbox to subscribers after each command.
pub struct PlayerEngine {
    is_playing: bool,
    is_shuffle_active: bool,
    repeat_mode: RepeatMode,
    volume: u8,
    is_muted: bool,
    position_seconds: u32,
    tracks: Vec<PlayerBarTrackInfoRust>,
    order: Vec<usize>,
    current: Option<usize>,
    outbox: Vec<PlayerEvent>,
}

impl View for PlayerEngine {
    type V = EngineV;

    closed spec fn view(&self) -> EngineV {
        EngineV {
            is_playing: self.is_playing,
            is_shuffle_active: self.is_shuffle_active,
            repeat_mode: self.repeat_mode,
            volume: self.volume,
            is_muted: self.is_muted,
            position_seconds: self.position_seconds,
            tracks: Seq::new(self.tracks@.len(), |i: int| self.tracks@[i]@),
            order: Seq::new(self.order@.len(), |i: int| self.order@[i] as int),
            current: match self.current {
                Some(c) => Some(c as int),
                None => None,
            },
            outbox: Seq::new(self.outbox@.len(), |i: int| self.outbox@[i]@),
        }
    }
}

impl PlayerEngine {
    /// The state at application start: empty queue, nothing current,
    /// stopped, shuffle and mute off, repeat off, full volume.
    pub fn new() -> (r: PlayerEngine)
        ensures
            engine_wf(r@),
            r@.tracks.len() == 0,
            r@.current is None,
            r@.outbox.len() == 0,
            snapshot_of(r@) == (StateV {
                is_playing: false,
                is_shuffle_active: false,
                repeat_mode: RepeatMode::Off,
                current_track: None::<TrackV>,
                volume: 100u8,
                is_muted: false,
                current_time_seconds: 0u32,
            }),
    {
        PlayerEngine {
            is_playing: false,
            is_shuffle_active: false,
            repeat_mode: RepeatMode::Off,
            volume: 100,
            is_muted: false,
            position_seconds: 0,
            tracks: Vec::new(),
            order: Vec::new(),
            current: None,
            outbox: Vec::new(),
        }
    }

    /// The transport snapshot: a pure read, never fails.
    pub fn get_player_state(&self) -> (r: PlayerStateRust)
        requires
            engine_wf(self@),
        ensures
            r@ == snapshot_of(self@),
    {
        let current_track: Option<PlayerBarTrackInfoRust> = match self.current {
            Some(c) => {
                let ti = self.order[c];
                Some(self.tracks[ti].clone())
            },
            None => None,
        };
        let r = PlayerStateRust {
            is_playing: self.is_playing,
            is_shuffle_active: self.is_shuffle_active,
            repeat_mode: self.repeat_mode,
            current_track,
            volume: self.volume,
            is_muted: self.is_muted,
            current_time_seconds: self.position_seconds,
        };
        proof {
            assert(r@ =~~= snapshot_of(self@));
        }
        r
    }

    /// Appends the state-changed notification owed after a mutation.
    fn push_state_event(&mut self)
        requires
            engine_wf(old(self)@),
        ensures
            final(self)@ =~~= with_state_event(old(self)@),
    {
        let snap = self.get_player_state();
        self.outbox.push(PlayerEvent::StateChanged(snap));
        proof {
            assert(self@.outbox =~~= old(self)@.outbox.push(
                EventV::StateChanged(snapshot_of(old(self)@)),
            ));
            assert(self@ =~~= with_state_event(old(self)@));
        }
    }

    /// Flips play/pause if a track is current; a successful no-op otherwise.
    /// Either way the caller is owed one state-changed notification.
    pub fn toggle_play_pause(&mut self)
        requires
            engine_wf(old(self)@),
        ensures
            engine_wf(final(self)@),
            final(self)@ =~~= spec_toggle_play_pause(old(self)@),
    {
        if self.current.is_some() {
            self.is_playing = !self.is_playing;
        }
        self.push_state_event();
    }

    /// Advances the playback cursor by one in playback order, wrapping to
    /// the start under repeat `All` and stopping (clearing the playing flag)
    /// at the queue end otherwise. Resets the position to zero. Fails with
    /// `EmptyQueue`, leaving everything unchanged, when the queue is empty.
    pub fn skip_next(&mut self) -> (r: Result<(), PlayerError>)
        requires
            engine_wf(old(self)@),
        ensures
            engine_wf(final(self)@),
            old(self)@.tracks.len() == 0 ==> r == Err::<(), PlayerError>(PlayerError::EmptyQueue)
                && final(self)@ == old(self)@,
            old(self)@.tracks.len() > 0 ==> r == Ok::<(), PlayerError>(())
                && final(self)@ =~~= spec_skip_next(old(self)@),
    {
        if self.tracks.len() == 0 {
            return Err(PlayerError::EmptyQueue);
        }
        match self.current {
            None => {
                self.current = Some(0);
            },
            Some(c) => {
                if c + 1 < self.tracks.len() {
                    self.current = Some(c + 1);
                } else if self.repeat_mode == RepeatMode::All {
                    self.current = Some(0);
                } else {
                    self.is_playing = false;
                }
            },
        }
        self.position_seconds = 0;
        self.push_state_event();
        Ok(())
    }

    /// Moves the playback cursor to the prior row, or restarts the current
    /// row from zero when already at the first row; never wraps. Fails with
    /// `EmptyQueue`, leaving everything unchanged, when the queue is empty.
    pub fn skip_previous(&mut self) -> (r: Result<(), PlayerError>)
        requires
            engine_wf(old(self)@),
        ensures
            engine_wf(final(self)@),
            old(self)@.tracks.len() == 0 ==> r == Err::<(), PlayerError>(PlayerError::EmptyQueue)
                && final(self)@ == old(self)@,
            old(self)@.tracks.len() > 0 ==> r == Ok::<(), PlayerError>(())
                && final(self)@ =~~= spec_skip_previous(old(self)@),
    {
        if self.tracks.len() == 0 {
            return Err(PlayerError::EmptyQueue);
        }
        match self.current {
            None => {
                self.current = Some(0);
            },
            Some(c) => {
                if c > 0 {
                    self.current = Some(c - 1);
                }
            },
        }
        self.position_seconds = 0;
        self.push_state_event();
        Ok(())
    }

    /// Advances the repeat mode in the cycle Off -> All -> One -> Off.
    /// Never fails.
    pub fn cycle_repeat_mode(&mut self)
        requires
            engine_wf(old(self)@),
        ensures
            engine_wf(final(self)@),
            final(self)@ =~~= spec_cycle_repeat_mode(old(self)@),
    {
        self.repeat_mode = match self.repeat_mode {
            RepeatMode::Off => RepeatMode::All,
            RepeatMode::All => RepeatMode::One,
            RepeatMode::One => RepeatMode::Off,
        };
        self.push_state_event();
    }

    /// Seeks within the current track; the position is clamped to the
    /// track's seekable length. Fails with `InvalidPosition`, leaving
    /// everything unchanged, when no track is current. On success the
    /// caller is owed one time-changed notification carrying the new
    /// position.
    pub fn seek(&mut self, position_seconds: u32) -> (r: Result<(), PlayerError>)
        requires
            engine_wf(old(self)@),
        ensures
            engine_wf(final(self)@),
            old(self)@.current is None ==> r == Err::<(), PlayerError>(
                PlayerError::InvalidPosition,
            ) && final(self)@ == old(self)@,
            old(self)@.current is Some ==> r == Ok::<(), PlayerError>(())
                && final(self)@ =~~= spec_seek(old(self)@, position_seconds),
    {
        match self.current {
            None => Err(PlayerError::InvalidPosition),
            Some(c) => {
                let ti = self.order[c];
                let d = match self.tracks[ti].duration_seconds {
                    Some(d) => d,
                    None => 0,
                };
                self.position_seconds = if position_seconds <= d {
                    position_seconds
                } else {
                    d
                };
                self.outbox.push(PlayerEvent::TimeChanged(PlayerTimeUpdatePayload {
                    current_time_seconds: self.position_seconds,
                }));
                proof {
                    assert(self@ =~~= spec_seek(old(self)@, position_seconds));
                }
                Ok(())
            },
        }
    }

    /// Sets the volume. A volume above 100 is rejected with `InvalidVolume`
    /// and the prior volume kept; the mute flag is never touched.
    pub fn set_volume(&mut self, volume: u8) -> (r: Result<(), PlayerError>)
        requires
            engine_wf(old(self)@),
        ensures
            engine_wf(final(self)@),
            volume > 100 ==> r == Err::<(), PlayerError>(PlayerError::InvalidVolume)
                && final(self)@ == old(self)@,
            volume <= 100 ==> r == Ok::<(), PlayerError>(())
                && final(self)@ =~~= spec_set_volume(old(self)@, volume),
    {
        if volume > 100 {
            return Err(PlayerError::InvalidVolume);
        }
        self.volume = volume;
        self.push_state_event();
        Ok(())
    }

    /// Flips the mute flag without altering the volume. Never fails.
    pub fn toggle_mute(&mut self)
        requires
            engine_wf(old(self)@),
        ensures
            engine_wf(final(self)@),
            final(self)@ =~~= spec_toggle_mute(old(self)@),
    {
        self.is_muted = !self.is_muted;
        self.push_state_event();
    }

    /// Flips shuffle. Turning it on installs a playback order that fixes
    /// the current track's position; turning it off restores insertion
    /// order, keeping the current track current. Never fails.
    pub fn toggle_shuffle(&mut self)
        requires
            engine_wf(old(self)@),
        ensures
            engine_wf(final(self)@),
            final(self)@ =~~= spec_toggle_shuffle(old(self)@),
    {
        let n = self.tracks.len();
        if self.is_shuffle_active {
            let new_current = match self.current {
                Some(c) => Some(self.order[c]),
                None => None,
            };
            let mut ord: Vec<usize> = Vec::new();
            for i in 0..n
                invariant
                    ord@.len() == i,
                    forall|j: int| 0 <= j < i ==> #[trigger] ord@[j] == j,
            {
                ord.push(i);
            }
            self.order = ord;
            self.current = new_current;
            self.is_shuffle_active = false;
            proof {
                assert(self@.order =~= identity_order(old(self)@.tracks.len() as int));
            }
        } else {
            let mut ord: Vec<usize> = Vec::new();
            match self.current {
                Some(c) => {
                    for i in 0..n
                        invariant
                            c < n,
                            n == self.tracks.len(),
                            ord@.len() == i,
                            forall|j: int| 0 <= j < i ==> #[trigger] ord@[j] as int
                                == shuffled_order(n as int, c as int)[j],
                    {
                        if i == c || i == n - 1 - c {
                            ord.push(i);
                        } else {
                            ord.push(n - 1 - i);
                        }
                    }
                    proof {
                        assert(Seq::new(ord@.len(), |i: int| ord@[i] as int) =~= shuffled_order(
                            n as int,
                            c as int,
                        ));
                    }
                },
                None => {
                    for i in 0..n
                        invariant
                            n == self.tracks.len(),
                            ord@.len() == i,
                            forall|j: int| 0 <= j < i ==> #[trigger] ord@[j] as int
                                == reversed_order(n as int)[j],
                    {
                        ord.push(n - 1 - i);
                    }
                    proof {
                        assert(Seq::new(ord@.len(), |i: int| ord@[i] as int) =~= reversed_order(
                            n as int,
                        ));
                    }
                },
            }
            self.order = ord;
            self.is_shuffle_active = true;
        }
        proof {
            let w = if old(self)@.is_shuffle_active {
                EngineV {
                    is_shuffle_active: false,
                    order: identity_order(old(self)@.tracks.len() as int),
                    current: match old(self)@.current {
                        Some(c) => Some(old(self)@.order[c]),
                        None => None::<int>,
                    },
                    ..old(self)@
                }
            } else {
                EngineV {
                    is_shuffle_active: true,
                    order: match old(self)@.current {
                        Some(c) => shuffled_order(old(self)@.tracks.len() as int, c),
                        None => reversed_order(old(self)@.tracks.len() as int),
                    },
                    ..old(self)@
                }
            };
            assert(self@ =~~= w);
            assert(engine_wf(self@));
        }
        self.push_state_event();
    }

    /// Appends a track summary at the end of the queue, in both insertion
    /// and playback order. The transport fields, the cursor and the outbox
    /// are untouched; loading the queue is the embedding shell's setup step,
    /// not a command, so no notification is recorded.
    pub fn enqueue(&mut self, track: PlayerBarTrackInfoRust)
        requires
            engine_wf(old(self)@),
            old(self)@.tracks.len() < u32::MAX as nat,
        ensures
            engine_wf(final(self)@),
            final(self)@ =~~= spec_enqueue(old(self)@, track@),
    {
        let n = self.tracks.len();
        self.tracks.push(track);
        self.order.push(n);
        proof {
            let v = old(self)@;
            let w = self@;
            assert(w.tracks =~= v.tracks.push(track@));
            assert(w.order =~= v.order.push(v.tracks.len() as int));
            let m = w.tracks.len() as int;
            assert forall|i: int| 0 <= i < m implies 0 <= #[trigger] w.order[i] < m by {
                if i < m - 1 {
                    assert(w.order[i] == v.order[i]);
                }
            }
            assert forall|i: int, j: int| 0 <= i < j < m implies w.order[i] != w.order[j] by {
                if j < m - 1 {
                    assert(w.order[i] == v.order[i] && w.order[j] == v.order[j]);
                } else {
                    assert(w.order[j] == m - 1);
                    assert(w.order[i] == v.order[i] && v.order[i] < m - 1);
                }
            }
            assert(current_track_of(w) == current_track_of(v));
            assert(engine_wf(w));
        }
    }

    /// The queue projection: the rows in playback order with display texts,
    /// plus the summary line. A pure read, never fails.
    pub fn get_queue_state(&self) -> (r: QueueStateRust)
        requires
            engine_wf(self@),
        ensures
            r@ =~~= queue_view_of(self@),
    {
        let n = self.tracks.len();
        let mut rows: Vec<QueueTrackRust> = Vec::new();
        for i in 0..n
            invariant
                engine_wf(self@),
                n == self.tracks.len(),
                rows@.len() == i,
                forall|j: int| 0 <= j < i ==> #[trigger] rows@[j]@ == row_of(self@, j),
        {
            let ti = self.order[i];
            let t = &self.tracks[ti];
            let is_current = match self.current {
                Some(c) => c == i,
                None => false,
            };
            let d = match t.duration_seconds {
                Some(d) => d,
                None => 0,
            };
            let row = QueueTrackRust {
                id: t.id.clone(),
                title: match &t.title {
                    Some(s) => s.clone(),
                    None => String::new(),
                },
                artist: match &t.artist {
                    Some(s) => s.clone(),
                    None => String::new(),
                },
                album_art_url: clone_opt_string(&t.album_art_url),
                duration: format_duration(d),
                is_playing: Some(is_current && self.is_playing),
            };
            proof {
                assert(row@ =~~= row_of(self@, i as int));
            }
            rows.push(row);
        }
        let count: u32 = n as u32;
        let summary = QueueSummaryRust {
            selected_text: match self.current {
                Some(c) => Some(selected_text((c as u32) + 1, count)),
                None => None,
            },
            queued_text: Some(queued_text(count)),
        };
        let r = QueueStateRust { tracks: rows, summary: Some(summary) };
        proof {
            assert(r@ =~~= queue_view_of(self@));
        }
        r
    }

    /// Drains the outbox: hands back, in commit order, every notification
    /// recorded since the last drain. The embedding shell broadcasts each
    /// one on its channel after the command's lock is released.
    pub fn take_events(&mut self) -> (r: Vec<PlayerEvent>)
        requires
            engine_wf(old(self)@),
        ensures
            engine_wf(final(self)@),
            Seq::new(r@.len(), |i: int| r@[i]@) =~~= old(self)@.outbox,
            final(self)@ =~~= (EngineV { outbox: Seq::<EventV>::empty(), ..old(self)@ }),
    {
        let mut out: Vec<PlayerEvent> = Vec::new();
        core::mem::swap(&mut self.outbox, &mut out);
        proof {
            assert(Seq::new(out@.len(), |i: int| out@[i]@) =~~= old(self)@.outbox);
        }
        out
    }
}

} // verus!

