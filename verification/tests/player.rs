use pureya::catalog::{get_track_details, CatalogReply};
use pureya::commands::PlayerEngine;
use pureya::errors::PlayerError;
use pureya::events::{PlayerEvent, PLAYER_STATE_UPDATE_EVENT, PLAYER_TIME_UPDATE_EVENT};
use pureya::player_state::{
    DetailedTrackInfoRust, PlayerBarTrackInfoRust, PlayerStateRust, RepeatMode, TrackIdPayload,
    VolumePayload,
};

fn track(id: &str, title: &str, duration: u32) -> PlayerBarTrackInfoRust {
    PlayerBarTrackInfoRust {
        id: String::from(id),
        title: Some(String::from(title)),
        artist: Some(String::from("artist")),
        album_art_url: None,
        duration_seconds: Some(duration),
    }
}

fn current_id(e: &PlayerEngine) -> Option<String> {
    e.get_player_state().current_track.map(|t| t.id)
}

#[test]
fn new_engine_matches_default_snapshot() {
    let e = PlayerEngine::new();
    let s = e.get_player_state();
    let d = PlayerStateRust::default();
    assert!(!s.is_playing);
    assert!(!s.is_shuffle_active);
    assert_eq!(s.repeat_mode, RepeatMode::Off);
    assert!(s.current_track.is_none());
    assert_eq!(s.volume, 100);
    assert!(!s.is_muted);
    assert_eq!(s.current_time_seconds, 0);
    assert_eq!(d.volume, 100);
    assert_eq!(d.repeat_mode, RepeatMode::Off);
}

#[test]
fn toggle_play_pause_stays_false_without_track() {
    let mut e = PlayerEngine::new();
    for _ in 0..5 {
        e.toggle_play_pause();
        assert!(!e.get_player_state().is_playing);
    }
}

#[test]
fn toggle_play_pause_flips_with_track() {
    let mut e = PlayerEngine::new();
    e.enqueue(track("a", "A", 180));
    assert_eq!(e.skip_next(), Ok(()));
    let mut expected = false;
    for _ in 0..4 {
        e.toggle_play_pause();
        expected = !expected;
        assert_eq!(e.get_player_state().is_playing, expected);
    }
}

#[test]
fn seek_in_range_is_exact() {
    let mut e = PlayerEngine::new();
    e.enqueue(track("a", "A", 180));
    assert_eq!(e.skip_next(), Ok(()));
    assert_eq!(e.seek(0), Ok(()));
    assert_eq!(e.get_player_state().current_time_seconds, 0);
    assert_eq!(e.seek(90), Ok(()));
    assert_eq!(e.get_player_state().current_time_seconds, 90);
    assert_eq!(e.seek(180), Ok(()));
    assert_eq!(e.get_player_state().current_time_seconds, 180);
}

#[test]
fn seek_past_duration_clamps() {
    let mut e = PlayerEngine::new();
    e.enqueue(track("a", "A", 180));
    assert_eq!(e.skip_next(), Ok(()));
    assert_eq!(e.seek(181), Ok(()));
    assert_eq!(e.get_player_state().current_time_seconds, 180);
    assert_eq!(e.seek(u32::MAX), Ok(()));
    assert_eq!(e.get_player_state().current_time_seconds, 180);
}

#[test]
fn seek_without_track_is_invalid_position() {
    let mut e = PlayerEngine::new();
    assert_eq!(e.seek(10), Err(PlayerError::InvalidPosition));
    assert_eq!(e.get_player_state().current_time_seconds, 0);
}

#[test]
fn set_volume_in_range_is_exact() {
    let mut e = PlayerEngine::new();
    let p = VolumePayload { volume: 0 };
    assert_eq!(e.set_volume(p.volume), Ok(()));
    assert_eq!(e.get_player_state().volume, 0);
    assert_eq!(e.set_volume(100), Ok(()));
    assert_eq!(e.get_player_state().volume, 100);
    assert_eq!(e.set_volume(37), Ok(()));
    assert_eq!(e.get_player_state().volume, 37);
}

#[test]
fn set_volume_out_of_range_is_rejected() {
    let mut e = PlayerEngine::new();
    assert_eq!(e.set_volume(42), Ok(()));
    assert_eq!(e.set_volume(101), Err(PlayerError::InvalidVolume));
    assert_eq!(e.get_player_state().volume, 42);
    assert_eq!(e.set_volume(255), Err(PlayerError::InvalidVolume));
    assert_eq!(e.get_player_state().volume, 42);
}

#[test]
fn skip_next_cycles_with_repeat_all() {
    let mut e = PlayerEngine::new();
    e.enqueue(track("a", "A", 100));
    e.enqueue(track("b", "B", 200));
    e.enqueue(track("c", "C", 300));
    assert_eq!(e.skip_next(), Ok(()));
    assert_eq!(current_id(&e), Some(String::from("a")));
    e.cycle_repeat_mode();
    assert_eq!(e.get_player_state().repeat_mode, RepeatMode::All);
    for _ in 0..3 {
        assert_eq!(e.skip_next(), Ok(()));
    }
    assert_eq!(current_id(&e), Some(String::from("a")));
}

#[test]
fn skip_next_on_empty_queue_changes_nothing() {
    let mut e = PlayerEngine::new();
    let before = e.get_player_state();
    assert_eq!(e.skip_next(), Err(PlayerError::EmptyQueue));
    let after = e.get_player_state();
    assert_eq!(before.is_playing, after.is_playing);
    assert_eq!(before.volume, after.volume);
    assert_eq!(before.current_time_seconds, after.current_time_seconds);
    assert!(after.current_track.is_none());
    assert_eq!(e.take_events().len(), 0);
}

#[test]
fn skip_previous_on_empty_queue_fails() {
    let mut e = PlayerEngine::new();
    assert_eq!(e.skip_previous(), Err(PlayerError::EmptyQueue));
}

#[test]
fn skip_previous_restarts_at_first_row() {
    let mut e = PlayerEngine::new();
    e.enqueue(track("a", "A", 100));
    e.enqueue(track("b", "B", 200));
    assert_eq!(e.skip_next(), Ok(()));
    assert_eq!(e.seek(50), Ok(()));
    assert_eq!(e.skip_previous(), Ok(()));
    assert_eq!(current_id(&e), Some(String::from("a")));
    assert_eq!(e.get_player_state().current_time_seconds, 0);
}

#[test]
fn skip_previous_moves_back_one_row() {
    let mut e = PlayerEngine::new();
    e.enqueue(track("a", "A", 100));
    e.enqueue(track("b", "B", 200));
    assert_eq!(e.skip_next(), Ok(()));
    assert_eq!(e.skip_next(), Ok(()));
    assert_eq!(current_id(&e), Some(String::from("b")));
    assert_eq!(e.skip_previous(), Ok(()));
    assert_eq!(current_id(&e), Some(String::from("a")));
}

#[test]
fn skip_next_at_end_with_repeat_off_stops() {
    let mut e = PlayerEngine::new();
    e.enqueue(track("a", "A", 100));
    e.enqueue(track("b", "B", 200));
    assert_eq!(e.skip_next(), Ok(()));
    e.toggle_play_pause();
    assert!(e.get_player_state().is_playing);
    assert_eq!(e.skip_next(), Ok(()));
    assert_eq!(e.skip_next(), Ok(()));
    let s = e.get_player_state();
    assert!(!s.is_playing);
    assert_eq!(s.current_track.unwrap().id, "b");
    assert_eq!(s.current_time_seconds, 0);
}

#[test]
fn two_track_scenario_skip_then_clamped_seek() {
    let mut e = PlayerEngine::new();
    e.enqueue(track("a", "A", 180));
    e.enqueue(track("b", "B", 200));
    assert_eq!(e.skip_next(), Ok(()));
    e.toggle_play_pause();
    assert!(e.get_player_state().is_playing);
    assert_eq!(e.skip_next(), Ok(()));
    let s = e.get_player_state();
    assert_eq!(s.current_track.unwrap().id, "b");
    assert_eq!(s.current_time_seconds, 0);
    assert!(s.is_playing);
    assert_eq!(e.seek(250), Ok(()));
    assert_eq!(e.get_player_state().current_time_seconds, 200);
}

#[test]
fn toggle_shuffle_round_trip_restores_order() {
    let mut e = PlayerEngine::new();
    e.enqueue(track("a", "A", 100));
    e.enqueue(track("b", "B", 200));
    e.enqueue(track("c", "C", 300));
    e.enqueue(track("d", "D", 400));
    assert_eq!(e.skip_next(), Ok(()));
    assert_eq!(e.skip_next(), Ok(()));
    let before: Vec<String> = e.get_queue_state().tracks.iter().map(|t| t.id.clone()).collect();
    assert_eq!(before, vec!["a", "b", "c", "d"]);
    e.toggle_shuffle();
    assert!(e.get_player_state().is_shuffle_active);
    assert_eq!(current_id(&e), Some(String::from("b")));
    e.toggle_shuffle();
    assert!(!e.get_player_state().is_shuffle_active);
    let after: Vec<String> = e.get_queue_state().tracks.iter().map(|t| t.id.clone()).collect();
    assert_eq!(before, after);
    assert_eq!(current_id(&e), Some(String::from("b")));
}

#[test]
fn toggle_shuffle_keeps_current_track_position() {
    let mut e = PlayerEngine::new();
    e.enqueue(track("a", "A", 100));
    e.enqueue(track("b", "B", 200));
    e.enqueue(track("c", "C", 300));
    assert_eq!(e.skip_next(), Ok(()));
    assert_eq!(e.skip_next(), Ok(()));
    let pos_before = e
        .get_queue_state()
        .tracks
        .iter()
        .position(|t| t.id == "b")
        .unwrap();
    e.toggle_shuffle();
    let rows = e.get_queue_state().tracks;
    let pos_after = rows.iter().position(|t| t.id == "b").unwrap();
    assert_eq!(pos_before, pos_after);
    assert_eq!(current_id(&e), Some(String::from("b")));
}

#[test]
fn cycle_repeat_mode_goes_off_all_one_off() {
    let mut e = PlayerEngine::new();
    assert_eq!(e.get_player_state().repeat_mode, RepeatMode::Off);
    e.cycle_repeat_mode();
    assert_eq!(e.get_player_state().repeat_mode, RepeatMode::All);
    e.cycle_repeat_mode();
    assert_eq!(e.get_player_state().repeat_mode, RepeatMode::One);
    e.cycle_repeat_mode();
    assert_eq!(e.get_player_state().repeat_mode, RepeatMode::Off);
}

#[test]
fn toggle_mute_leaves_volume_alone() {
    let mut e = PlayerEngine::new();
    assert_eq!(e.set_volume(55), Ok(()));
    e.toggle_mute();
    let s = e.get_player_state();
    assert!(s.is_muted);
    assert_eq!(s.volume, 55);
    e.toggle_mute();
    let s = e.get_player_state();
    assert!(!s.is_muted);
    assert_eq!(s.volume, 55);
}

#[test]
fn each_mutation_records_one_matching_notification() {
    let mut e = PlayerEngine::new();
    e.enqueue(track("a", "A", 180));
    assert_eq!(e.skip_next(), Ok(()));
    e.take_events();
    assert_eq!(e.set_volume(30), Ok(()));
    let events = e.take_events();
    assert_eq!(events.len(), 1);
    match &events[0] {
        PlayerEvent::StateChanged(payload) => {
            assert_eq!(payload.volume, 30);
            let s = e.get_player_state();
            assert_eq!(payload.volume, s.volume);
            assert_eq!(payload.is_playing, s.is_playing);
            assert_eq!(
                payload.current_track.as_ref().unwrap().id,
                s.current_track.as_ref().unwrap().id
            );
        }
        PlayerEvent::TimeChanged(_) => panic!("expected a state-changed notification"),
    }
    assert_eq!(events[0].channel(), PLAYER_STATE_UPDATE_EVENT);
}

#[test]
fn seek_records_one_time_notification() {
    let mut e = PlayerEngine::new();
    e.enqueue(track("a", "A", 180));
    assert_eq!(e.skip_next(), Ok(()));
    e.take_events();
    assert_eq!(e.seek(42), Ok(()));
    let events = e.take_events();
    assert_eq!(events.len(), 1);
    match &events[0] {
        PlayerEvent::TimeChanged(p) => assert_eq!(p.current_time_seconds, 42),
        PlayerEvent::StateChanged(_) => panic!("expected a time-changed notification"),
    }
    assert_eq!(events[0].channel(), PLAYER_TIME_UPDATE_EVENT);
}

#[test]
fn rejected_commands_record_no_notification() {
    let mut e = PlayerEngine::new();
    assert_eq!(e.skip_next(), Err(PlayerError::EmptyQueue));
    assert_eq!(e.seek(5), Err(PlayerError::InvalidPosition));
    assert_eq!(e.set_volume(200), Err(PlayerError::InvalidVolume));
    assert_eq!(e.take_events().len(), 0);
}

#[test]
fn queue_state_reports_rows_and_summary() {
    let mut e = PlayerEngine::new();
    e.enqueue(track("a", "Alpha", 180));
    e.enqueue(track("b", "Beta", 200));
    assert_eq!(e.skip_next(), Ok(()));
    e.toggle_play_pause();
    let q = e.get_queue_state();
    assert_eq!(q.tracks.len(), 2);
    assert_eq!(q.tracks[0].id, "a");
    assert_eq!(q.tracks[0].title, "Alpha");
    assert_eq!(q.tracks[0].artist, "artist");
    assert_eq!(q.tracks[0].duration, "3:00");
    assert_eq!(q.tracks[0].is_playing, Some(true));
    assert_eq!(q.tracks[1].duration, "3:20");
    assert_eq!(q.tracks[1].is_playing, Some(false));
    let summary = q.summary.unwrap();
    assert_eq!(summary.queued_text.as_deref(), Some("2 queued"));
    assert_eq!(summary.selected_text.as_deref(), Some("track 1 of 2 selected"));
}

#[test]
fn queue_state_of_empty_queue() {
    let e = PlayerEngine::new();
    let q = e.get_queue_state();
    assert!(q.tracks.is_empty());
    let summary = q.summary.unwrap();
    assert_eq!(summary.queued_text.as_deref(), Some("0 queued"));
    assert_eq!(summary.selected_text, None);
}

#[test]
fn missing_title_and_duration_render_as_defaults() {
    let mut e = PlayerEngine::new();
    e.enqueue(PlayerBarTrackInfoRust {
        id: String::from("x"),
        title: None,
        artist: None,
        album_art_url: None,
        duration_seconds: None,
    });
    let q = e.get_queue_state();
    assert_eq!(q.tracks[0].title, "");
    assert_eq!(q.tracks[0].artist, "");
    assert_eq!(q.tracks[0].duration, "0:00");
    assert_eq!(e.skip_next(), Ok(()));
    assert_eq!(e.seek(30), Ok(()));
    assert_eq!(e.get_player_state().current_time_seconds, 0);
}

#[test]
fn get_track_details_maps_each_reply() {
    let payload = TrackIdPayload { track_id: String::from("a") };
    assert_eq!(payload.track_id, "a");
    let info = DetailedTrackInfoRust {
        title: String::from("Alpha"),
        artist: String::from("artist"),
        album: String::from("album"),
        year: Some(String::from("1999")),
        genre: None,
        format_details: None,
        large_album_art_url: None,
    };
    let got = get_track_details(CatalogReply::Found(info)).unwrap();
    assert_eq!(got.title, "Alpha");
    assert_eq!(got.year.as_deref(), Some("1999"));
    assert_eq!(
        get_track_details(CatalogReply::Missing).unwrap_err(),
        PlayerError::TrackNotFound
    );
    assert_eq!(
        get_track_details(CatalogReply::TimedOut).unwrap_err(),
        PlayerError::Unavailable
    );
}

#[test]
fn error_messages_are_fixed() {
    assert_eq!(PlayerError::EmptyQueue.message(), "the queue has no tracks");
    assert_eq!(PlayerError::TrackNotFound.message(), "no track with that identifier");
    assert_eq!(PlayerError::InvalidPosition.message(), "no current track to seek in");
    assert_eq!(PlayerError::InvalidVolume.message(), "volume must lie in 0..=100");
    assert_eq!(PlayerError::Unavailable.message(), "a dependent subsystem did not respond");
}

#[test]
fn startup_setting_requires_a_boolean() {
    assert_eq!(pureya::config::startup_scan_setting(Some(true)), Ok(true));
    assert_eq!(pureya::config::startup_scan_setting(Some(false)), Ok(false));
    assert_eq!(
        pureya::config::startup_scan_setting(None),
        Err(PlayerError::Unavailable)
    );
}
