//! Data shapes of the player core: track summaries, the transport snapshot,
//! the queue projection for display, detailed catalog metadata, and the
//! payload shapes that commands receive. Each shape has a ghost view over
//! `Seq<char>` so that contracts can speak of its contents exactly.

use vstd::prelude::*;

verus! {

/// What the player does when the end of a track or of the queue is reached.
///
/// `Off` stops at the queue end, `All` wraps to the start, `One` replays the
/// current track indefinitely.
#[derive(Clone, Copy, Debug, PartialEq, Eq, Structural)]
pub enum RepeatMode {
    Off,
    All,
    One,
}

/// Ghost view of a track summary.
#[verifier::ext_equal]
pub ghost struct TrackV {
    pub id: Seq<char>,
    pub title: Option<Seq<char>>,
    pub artist: Option<Seq<char>>,
    pub album_art_url: Option<Seq<char>>,
    pub duration_seconds: Option<u32>,
}

/// The denormalized subset of track fields kept by the core for display
/// without a catalog round-trip: identifier, title, artist, artwork
/// reference and duration in seconds.
#[derive(Debug, Default)]
pub struct PlayerBarTrackInfoRust {
    pub id: String,
    pub title: Option<String>,
    pub artist: Option<String>,
    pub album_art_url: Option<String>,
    pub duration_seconds: Option<u32>,
}

impl View for PlayerBarTrackInfoRust {
    type V = TrackV;

    open spec fn view(&self) -> TrackV {
        TrackV {
            id: self.id@,
            title: self.title.deep_view(),
            artist: self.artist.deep_view(),
            album_art_url: self.album_art_url.deep_view(),
            duration_seconds: self.duration_seconds,
        }
    }
}

/// Clones an optional string, keeping its characters.
pub fn clone_opt_string(o: &Option<String>) -> (r: Option<String>)
    ensures
        r.deep_view() == o.deep_view(),
{
    match o {
        Some(s) => Some(s.clone()),
        None => None,
    }
}

impl Clone for PlayerBarTrackInfoRust {
    fn clone(&self) -> (r: Self)
        ensures
            r@ == self@,
    {
        PlayerBarTrackInfoRust {
            id: self.id.clone(),
            title: clone_opt_string(&self.title),
            artist: clone_opt_string(&self.artist),
            album_art_url: clone_opt_string(&self.album_art_url),
            duration_seconds: self.duration_seconds,
        }
    }
}

/// Ghost view of the transport snapshot.
#[verifier::ext_equal]
pub ghost struct StateV {
    pub is_playing: bool,
    pub is_shuffle_active: bool,
    pub repeat_mode: RepeatMode,
    pub current_track: Option<TrackV>,
    pub volume: u8,
    pub is_muted: bool,
    pub current_time_seconds: u32,
}

/// The transport snapshot handed to callers and carried by state-changed
/// notifications: playing flag, shuffle flag, repeat mode, current track
/// summary, volume in `0..=100`, mute flag and position in seconds.
#[derive(Debug)]
pub struct PlayerStateRust {
    pub is_playing: bool,
    pub is_shuffle_active: bool,
    pub repeat_mode: RepeatMode,
    pub current_track: Option<PlayerBarTrackInfoRust>,
    pub volume: u8,
    pub is_muted: bool,
    pub current_time_seconds: u32,
}

impl View for PlayerStateRust {
    type V = StateV;

    open spec fn view(&self) -> StateV {
        StateV {
            is_playing: self.is_playing,
            is_shuffle_active: self.is_shuffle_active,
            repeat_mode: self.repeat_mode,
            current_track: match self.current_track {
                Some(t) => Some(t@),
                None => None,
            },
            volume: self.volume,
            is_muted: self.is_muted,
            current_time_seconds: self.current_time_seconds,
        }
    }
}

impl Clone for PlayerStateRust {
    fn clone(&self) -> (r: Self)
        ensures
            r@ == self@,
    {
        PlayerStateRust {
            is_playing: self.is_playing,
            is_shuffle_active: self.is_shuffle_active,
            repeat_mode: self.repeat_mode,
            current_track: match &self.current_track {
                Some(t) => Some(t.clone()),
                None => None,
            },
            volume: self.volume,
            is_muted: self.is_muted,
            current_time_seconds: self.current_time_seconds,
        }
    }
}

impl Default for PlayerStateRust {
    /// The state at application start: stopped, nothing current, shuffle and
    /// mute off, repeat off, full volume, position zero.
    fn default() -> (r: Self)
        ensures
            r@ == (StateV {
                is_playing: false,
                is_shuffle_active: false,
                repeat_mode: RepeatMode::Off,
                current_track: None::<TrackV>,
                volume: 100u8,
                is_muted: false,
                current_time_seconds: 0u32,
            }),
    {
        PlayerStateRust {
            is_playing: false,
            is_shuffle_active: false,
            repeat_mode: RepeatMode::Off,
            current_track: None,
            volume: 100,
            is_muted: false,
            current_time_seconds: 0,
        }
    }
}

/// Ghost view of one row of the queue display projection.
#[verifier::ext_equal]
pub ghost struct QueueTrackV {
    pub id: Seq<char>,
    pub title: Seq<char>,
    pub artist: Seq<char>,
    pub album_art_url: Option<Seq<char>>,
    pub duration: Seq<char>,
    pub is_playing: Option<bool>,
}

/// One row of the queue as shown to the user: identifier, display title and
/// artist, artwork reference, the duration formatted `M:SS`, and whether this
/// row is the one currently playing.
#[derive(Debug, Clone)]
pub struct QueueTrackRust {
    pub id: String,
    pub title: String,
    pub artist: String,
    pub album_art_url: Option<String>,
    pub duration: String,
    pub is_playing: Option<bool>,
}

impl View for QueueTrackRust {
    type V = QueueTrackV;

    open spec fn view(&self) -> QueueTrackV {
        QueueTrackV {
            id: self.id@,
            title: self.title@,
            artist: self.artist@,
            album_art_url: self.album_art_url.deep_view(),
            duration: self.duration@,
            is_playing: self.is_playing,
        }
    }
}

/// Ghost view of the queue summary line.
#[verifier::ext_equal]
pub ghost struct QueueSummaryV {
    pub selected_text: Option<Seq<char>>,
    pub queued_text: Option<Seq<char>>,
}

/// The textual projection of the queue for display: which row is selected
/// ("track X of Y selected") and how many rows are queued ("N queued").
/// Derived from the queue on every read, never stored as a source of truth.
#[derive(Debug, Clone, Default)]
pub struct QueueSummaryRust {
    pub selected_text: Option<String>,
    pub queued_text: Option<String>,
}

impl View for QueueSummaryRust {
    type V = QueueSummaryV;

    open spec fn view(&self) -> QueueSummaryV {
        QueueSummaryV {
            selected_text: self.selected_text.deep_view(),
            queued_text: self.queued_text.deep_view(),
        }
    }
}

/// Ghost view of the queue display state.
#[verifier::ext_equal]
pub ghost struct QueueStateV {
    pub tracks: Seq<QueueTrackV>,
    pub summary: Option<QueueSummaryV>,
}

/// The queue as handed to callers: the rows in playback order together with
/// the summary line.
#[derive(Debug, Clone, Default)]
pub struct QueueStateRust {
    pub tracks: Vec<QueueTrackRust>,
    pub summary: Option<QueueSummaryRust>,
}

impl View for QueueStateRust {
    type V = QueueStateV;

    open spec fn view(&self) -> QueueStateV {
        QueueStateV {
            tracks: Seq::new(self.tracks@.len(), |i: int| self.tracks@[i]@),
            summary: match self.summary {
                Some(s) => Some(s@),
                None => None,
            },
        }
    }
}

/// Detailed catalog metadata for one track, resolved by the external catalog
/// on demand.
#[derive(Debug, Clone, Default)]
pub struct DetailedTrackInfoRust {
    pub title: String,
    pub artist: String,
    pub album: String,
    pub year: Option<String>,
    pub genre: Option<String>,
    pub format_details: Option<String>,
    pub large_album_art_url: Option<String>,
}

/// Argument shape of the volume command.
#[derive(Debug, Clone, Copy)]
pub struct VolumePayload {
    pub volume: u8,
}

/// Argument shape of the track-details command.
#[derive(Debug)]
pub struct TrackIdPayload {
    pub track_id: String,
}

} // verus!
