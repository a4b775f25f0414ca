use vibes::dispatch::Command;
use vibes::dispatch::CommandOutcome;
use vibes::dispatch::DeviceEntry;
use vibes::dispatch::pick_device;
use vibes::events::UserAction;
use vibes::state::ActiveScreen;
use vibes::state::AppState;
use vibes::state::TrackEntry;
use vibes::state::VibesMood;

fn entry(uri: Option<&str>, name: &str) -> TrackEntry {
    TrackEntry {
        uri: uri.map(|u| u.to_string()),
        name: name.to_string(),
    }
}

#[test]
fn test_quit_sets_flag() {
    let mut state = AppState::default();
    let cmd = state.handle_action(UserAction::Quit);
    assert!(state.should_quit);
    assert!(cmd.is_none());
}

#[test]
fn test_toggle_play_is_optimistic() {
    let mut state = AppState::default();
    let cmd = state.handle_action(UserAction::TogglePlay);
    assert!(state.current_track.is_playing);
    assert_eq!(state.notification.as_ref().unwrap().message, "Resumed");
    assert!(matches!(cmd, Some(Command::TogglePlayback { was_playing: false })));
    let cmd2 = state.handle_action(UserAction::TogglePlay);
    assert!(!state.current_track.is_playing);
    assert_eq!(state.notification.as_ref().unwrap().message, "Paused");
    assert!(matches!(cmd2, Some(Command::TogglePlayback { was_playing: true })));
}

#[test]
fn test_next_track_blanks_title() {
    let mut state = AppState::default();
    state.current_track.name = "Song".to_string();
    state.current_track.artists = vec!["Artist".to_string()];
    state.current_track.duration_ms = 100_000;
    state.current_track.progress_ms = 50_000;
    let cmd = state.handle_action(UserAction::NextTrack);
    assert_eq!(state.current_track.name, "Loading next track...");
    assert!(state.current_track.artists.is_empty());
    assert_eq!(state.current_track.progress_ms, 0);
    assert_eq!(state.notification.as_ref().unwrap().message, "Next track ▶▶");
    assert!(matches!(cmd, Some(Command::SkipNext)));
}

#[test]
fn test_volume_down_thirty_times_settles_at_zero() {
    let mut state = AppState::default();
    assert_eq!(state.volume, 50);
    for _ in 0..30 {
        state.handle_action(UserAction::VolumeDown);
    }
    assert_eq!(state.volume, 0);
}

#[test]
fn test_volume_up_clamps_at_hundred() {
    let mut state = AppState::default();
    state.volume = 98;
    let cmd = state.handle_action(UserAction::VolumeUp);
    assert_eq!(state.volume, 100);
    assert_eq!(state.notification.as_ref().unwrap().message, "Volume: 100%");
    assert!(matches!(cmd, Some(Command::SetVolume { percent: 100 })));
}

#[test]
fn test_seek_forward_clamps_to_duration() {
    let mut state = AppState::default();
    state.current_track.duration_ms = 15_000;
    state.current_track.progress_ms = 8_000;
    let cmd = state.handle_action(UserAction::SeekForward);
    assert_eq!(state.current_track.progress_ms, 15_000);
    assert!(matches!(cmd, Some(Command::SeekTo { position_ms: 15_000 })));
}

#[test]
fn test_seek_backward_saturates_at_zero() {
    let mut state = AppState::default();
    state.current_track.duration_ms = 100_000;
    state.current_track.progress_ms = 5_000;
    let cmd = state.handle_action(UserAction::SeekBackward);
    assert_eq!(state.current_track.progress_ms, 0);
    assert!(matches!(cmd, Some(Command::SeekTo { position_ms: 0 })));
}

#[test]
fn test_search_submit_empty_query_fires_nothing() {
    let mut state = AppState::default();
    state.search.is_searching = true;
    let cmd = state.handle_action(UserAction::SearchSubmit);
    assert!(cmd.is_none());
    assert!(!state.search.is_searching);
}

#[test]
fn test_select_on_empty_search_fires_nothing() {
    let mut state = AppState::default();
    let cmd = state.handle_action(UserAction::Select);
    assert!(cmd.is_none());
}

#[test]
fn test_search_typing_and_submit() {
    let mut state = AppState::default();
    state.handle_action(UserAction::SearchInput('a'));
    state.handle_action(UserAction::SearchInput('b'));
    state.handle_action(UserAction::SearchInput('c'));
    state.handle_action(UserAction::SearchBackspace);
    assert_eq!(state.search.query, "ab");
    let cmd = state.handle_action(UserAction::SearchSubmit);
    assert!(state.search.is_searching);
    match cmd {
        Some(Command::RunSearch { query }) => assert_eq!(query, "ab"),
        other => panic!("expected a search command, got {other:?}"),
    }
}

#[test]
fn test_select_plays_run_from_cursor() {
    let mut state = AppState::default();
    state.search.tracks = vec![
        entry(Some("uri:one"), "One"),
        entry(None, "Unplayable"),
        entry(Some("uri:three"), "Three"),
    ];
    state.search.selected_track = 1;
    let cmd = state.handle_action(UserAction::Select);
    match cmd {
        Some(Command::PlayFrom { uris, title }) => {
            assert_eq!(uris, vec!["uri:three".to_string()]);
            assert_eq!(title, "Unplayable");
        },
        other => panic!("expected a play command, got {other:?}"),
    }
}

#[test]
fn test_select_run_is_capped_at_fifty() {
    let mut state = AppState::default();
    let tracks: Vec<TrackEntry> =
        (0..60).map(|i| entry(Some(&format!("uri:{i}")), &format!("t{i}"))).collect();
    state.search.tracks = tracks;
    let cmd = state.handle_action(UserAction::Select);
    match cmd {
        Some(Command::PlayFrom { uris, .. }) => {
            assert_eq!(uris.len(), 50);
            assert_eq!(uris[0], "uri:0");
            assert_eq!(uris[49], "uri:49");
        },
        other => panic!("expected a play command, got {other:?}"),
    }
}

#[test]
fn test_navigation_ignores_empty_list() {
    let mut state = AppState::default();
    state.handle_action(UserAction::NavigateDown);
    assert_eq!(state.search.selected_track, 0);
    state.handle_action(UserAction::NavigateUp);
    assert_eq!(state.search.selected_track, 0);
}

#[test]
fn test_navigation_moves_and_stops_at_ends() {
    let mut state = AppState::default();
    state.search.tracks = vec![entry(Some("u1"), "a"), entry(Some("u2"), "b")];
    state.handle_action(UserAction::NavigateDown);
    assert_eq!(state.search.selected_track, 1);
    state.handle_action(UserAction::NavigateDown);
    assert_eq!(state.search.selected_track, 1);
    state.handle_action(UserAction::NavigateUp);
    assert_eq!(state.search.selected_track, 0);
    state.handle_action(UserAction::NavigateUp);
    assert_eq!(state.search.selected_track, 0);
}

#[test]
fn test_switch_screen_loads_empty_library_once() {
    let mut state = AppState::default();
    let cmd = state.handle_action(UserAction::SwitchScreen(2));
    assert_eq!(state.active_screen, ActiveScreen::Library);
    assert!(state.library.is_loading);
    assert!(matches!(cmd, Some(Command::LoadLibrary)));
    state.apply_outcome(CommandOutcome::LibraryLoaded {
        result: Ok(vec![entry(Some("u"), "Song")]),
    });
    assert!(!state.library.is_loading);
    let cmd2 = state.handle_action(UserAction::SwitchScreen(2));
    assert!(cmd2.is_none());
}

#[test]
fn test_playlist_select_enters_track_view() {
    let mut state = AppState::default();
    state.active_screen = ActiveScreen::Playlists;
    state.playlists.playlists = vec![vibes::state::PlaylistEntry {
        id: "pl1".to_string(),
        name: "Mix".to_string(),
    }];
    let cmd = state.handle_action(UserAction::Select);
    assert!(state.playlists.viewing_tracks);
    assert_eq!(state.playlists.selected_track, 0);
    assert!(state.playlists.is_loading);
    match cmd {
        Some(Command::LoadPlaylistTracks { id }) => assert_eq!(id, "pl1"),
        other => panic!("expected a playlist-tracks load, got {other:?}"),
    }
    state.handle_action(UserAction::NavigateLeft);
    assert!(!state.playlists.viewing_tracks);
}

#[test]
fn test_vibes_select_requests_mood_lookup() {
    let mut state = AppState::default();
    state.active_screen = ActiveScreen::Vibes;
    state.handle_action(UserAction::NavigateDown);
    assert_eq!(state.vibes.selected_mood, 1);
    let cmd = state.handle_action(UserAction::Select);
    assert!(state.vibes.is_loading);
    assert!(matches!(cmd, Some(Command::LoadVibes { mood: VibesMood::Hype })));
}

#[test]
fn test_like_uses_current_track_only() {
    let mut state = AppState::default();
    assert!(state.handle_action(UserAction::LikeTrack).is_none());
    state.current_track.id = Some("track9".to_string());
    let cmd = state.handle_action(UserAction::LikeTrack);
    assert!(!state.current_track.is_liked);
    match cmd {
        Some(Command::SaveTrack { id }) => assert_eq!(id, "track9"),
        other => panic!("expected a save command, got {other:?}"),
    }
    state.apply_outcome(CommandOutcome::LikeFinished { liked: true, ok: true });
    assert!(state.current_track.is_liked);
    assert_eq!(state.notification.as_ref().unwrap().message, "❤ Added to Liked Songs");
    let cmd2 = state.handle_action(UserAction::LikeTrack);
    assert!(matches!(cmd2, Some(Command::RemoveTrack { .. })));
}

#[test]
fn test_like_failure_changes_nothing() {
    let mut state = AppState::default();
    state.current_track.id = Some("track9".to_string());
    state.handle_action(UserAction::LikeTrack);
    state.apply_outcome(CommandOutcome::LikeFinished { liked: true, ok: false });
    assert!(!state.current_track.is_liked);
    assert!(state.notification.is_none());
}

#[test]
fn test_add_to_queue_needs_playable_entry() {
    let mut state = AppState::default();
    state.search.tracks = vec![entry(None, "nope")];
    assert!(state.handle_action(UserAction::AddToQueue).is_none());
    state.search.tracks = vec![entry(Some("uri:q"), "yes")];
    let cmd = state.handle_action(UserAction::AddToQueue);
    match cmd {
        Some(Command::QueueTrack { uri }) => assert_eq!(uri, "uri:q"),
        other => panic!("expected a queue command, got {other:?}"),
    }
}

#[test]
fn test_search_outcome_replaces_results() {
    let mut state = AppState::default();
    state.search.selected_track = 0;
    state.apply_outcome(CommandOutcome::SearchFinished {
        result: Ok(vec![entry(Some("u1"), "a"), entry(Some("u2"), "b")]),
    });
    assert_eq!(state.search.tracks.len(), 2);
    assert_eq!(state.search.selected_track, 0);
    assert!(!state.search.is_searching);
    assert_eq!(state.notification.as_ref().unwrap().message, "Found 2 tracks");
}

#[test]
fn test_search_outcome_error_notifies() {
    let mut state = AppState::default();
    state.search.is_searching = true;
    state.apply_outcome(CommandOutcome::SearchFinished {
        result: Err("boom".to_string()),
    });
    assert!(!state.search.is_searching);
    let n = state.notification.as_ref().unwrap();
    assert!(n.is_error);
    assert_eq!(n.message, "Search failed: boom");
}

#[test]
fn test_vibes_outcome_error_notifies() {
    let mut state = AppState::default();
    state.vibes.is_loading = true;
    state.apply_outcome(CommandOutcome::VibesLoaded {
        result: Err("offline".to_string()),
    });
    assert!(!state.vibes.is_loading);
    let n = state.notification.as_ref().unwrap();
    assert!(n.is_error);
    assert_eq!(n.message, "Vibes error: offline");
}

#[test]
fn test_play_outcome_notifies_title_or_error() {
    let mut state = AppState::default();
    state.apply_outcome(CommandOutcome::PlayFinished {
        title: "Song".to_string(),
        error: None,
    });
    assert_eq!(state.notification.as_ref().unwrap().message, "Playing: Song");
    state.apply_outcome(CommandOutcome::PlayFinished {
        title: "Song".to_string(),
        error: Some("no device".to_string()),
    });
    let n = state.notification.as_ref().unwrap();
    assert!(n.is_error);
    assert_eq!(n.message, "no device");
}

#[test]
fn test_queue_add_outcome_messages() {
    let mut state = AppState::default();
    state.apply_outcome(CommandOutcome::QueueAddFinished { error: None });
    assert_eq!(state.notification.as_ref().unwrap().message, "Added to queue ✓");
    state.apply_outcome(CommandOutcome::QueueAddFinished {
        error: Some("expired".to_string()),
    });
    assert!(state.notification.as_ref().unwrap().is_error);
}

#[test]
fn test_library_load_error_notifies() {
    let mut state = AppState::default();
    state.library.is_loading = true;
    state.apply_outcome(CommandOutcome::LibraryLoaded {
        result: Err("down".to_string()),
    });
    assert!(!state.library.is_loading);
    assert!(state.library.liked_songs.is_empty());
    let n = state.notification.as_ref().unwrap();
    assert!(n.is_error);
    assert_eq!(n.message, "Library load error: down");
}

#[test]
fn test_playlist_load_errors_notify() {
    let mut state = AppState::default();
    state.apply_outcome(CommandOutcome::PlaylistsLoaded {
        result: Err("a".to_string()),
    });
    assert_eq!(
        state.notification.as_ref().unwrap().message,
        "Playlists load error: a"
    );
    state.apply_outcome(CommandOutcome::PlaylistTracksLoaded {
        result: Err("b".to_string()),
    });
    assert_eq!(
        state.notification.as_ref().unwrap().message,
        "Playlist tracks load error: b"
    );
    state.apply_outcome(CommandOutcome::QueueLoaded {
        result: Err("c".to_string()),
    });
    let n = state.notification.as_ref().unwrap();
    assert!(n.is_error);
    assert_eq!(n.message, "Queue load error: c");
}

#[test]
fn test_loaded_list_refits_stale_cursor() {
    let mut state = AppState::default();
    state.queue.tracks = vec![entry(Some("a"), "a"), entry(Some("b"), "b"), entry(Some("c"), "c")];
    state.queue.selected = 2;
    state.apply_outcome(CommandOutcome::QueueLoaded {
        result: Ok(vec![entry(Some("a"), "a")]),
    });
    assert_eq!(state.queue.selected, 0);
    assert_eq!(state.queue.tracks.len(), 1);
}

#[test]
fn test_back_leaves_modes_in_order() {
    let mut state = AppState::default();
    state.search.is_searching = true;
    state.playlists.viewing_tracks = true;
    state.show_help = true;
    state.handle_action(UserAction::Back);
    assert!(!state.search.is_searching);
    assert!(state.playlists.viewing_tracks);
    state.handle_action(UserAction::Back);
    assert!(!state.playlists.viewing_tracks);
    assert!(state.show_help);
    state.handle_action(UserAction::Back);
    assert!(!state.show_help);
}

#[test]
fn test_toggle_eq_notifies_mode() {
    let mut state = AppState::default();
    state.handle_action(UserAction::ToggleEQ);
    assert!(state.eq_expanded);
    assert_eq!(state.notification.as_ref().unwrap().message, "EQ: Expanded");
    state.handle_action(UserAction::ToggleEQ);
    assert_eq!(state.notification.as_ref().unwrap().message, "EQ: Compact");
}

#[test]
fn test_pick_device_prefers_active() {
    let devs = vec![
        DeviceEntry { id: Some("one".to_string()), is_active: false },
        DeviceEntry { id: Some("two".to_string()), is_active: true },
    ];
    assert_eq!(pick_device(&devs), Some("two".to_string()));
    let inactive = vec![DeviceEntry { id: Some("one".to_string()), is_active: false }];
    assert_eq!(pick_device(&inactive), Some("one".to_string()));
    assert_eq!(pick_device(&Vec::new()), None);
}
