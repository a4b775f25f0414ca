use vibes::state::ActiveScreen;
use vibes::state::AppState;
use vibes::state::CurrentTrack;
use vibes::state::Notification;

#[test]
fn test_progress_formatted() {
    let track = CurrentTrack {
        duration_ms: 213_000, // 3:33
        progress_ms: 90_000,  // 1:30
        ..Default::default()
    };
    assert_eq!(track.progress_formatted(), "1:30 / 3:33");
}

#[test]
fn test_progress_formatted_zero() {
    let track = CurrentTrack::default();
    assert_eq!(track.progress_formatted(), "0:00 / 0:00");
}

#[test]
fn test_progress_permille_zero_duration() {
    let track = CurrentTrack {
        duration_ms: 0,
        progress_ms: 0,
        ..Default::default()
    };
    assert_eq!(track.progress_permille(), 0);
}

#[test]
fn test_progress_permille_half() {
    let track = CurrentTrack {
        duration_ms: 200_000,
        progress_ms: 100_000,
        ..Default::default()
    };
    assert_eq!(track.progress_permille(), 500);
}

#[test]
fn test_progress_permille_clamped() {
    let track = CurrentTrack {
        duration_ms: 100,
        progress_ms: 200, // beyond duration
        ..Default::default()
    };
    assert_eq!(track.progress_permille(), 1000);
}

#[test]
fn test_navigate_to_changes_screen() {
    let mut state = AppState::default();
    assert_eq!(state.active_screen, ActiveScreen::Search);
    state.navigate_to(ActiveScreen::Vibes);
    assert_eq!(state.active_screen, ActiveScreen::Vibes);
    assert_eq!(state.previous_screen, Some(ActiveScreen::Search));
}

#[test]
fn test_navigate_to_same_screen_noop() {
    let mut state = AppState::default();
    state.navigate_to(ActiveScreen::Search);
    assert!(state.previous_screen.is_none());
}

#[test]
fn test_notification_tick_decrements() {
    let mut state = AppState::default();
    state.set_notification(Notification::info("hello"));
    assert!(state.notification.is_some());
    // remaining_ticks=30: takes 30 ticks to reach 0, then 1 more tick to clear
    for _ in 0..31 {
        state.tick_notification();
    }
    assert!(state.notification.is_none());
}

#[test]
fn test_notification_present_for_countdown() {
    let mut state = AppState::default();
    state.set_notification(Notification::info("hold"));
    for _ in 0..30 {
        state.tick_notification();
        assert!(state.notification.is_some());
    }
    state.tick_notification();
    assert!(state.notification.is_none());
}

#[test]
fn test_notification_error_flag() {
    let n = Notification::error("oops");
    assert!(n.is_error);
    assert_eq!(n.message, "oops");
}

#[test]
fn test_eq_bars_all_positive() {
    let mut state = AppState::default();
    state.current_track.is_playing = true;
    for _ in 0..50 {
        state.update_eq_bars();
    }
    for &bar in state.eq_bars.iter() {
        assert!(bar >= 1 && bar <= 12, "bar value {bar} out of range [1, 12]");
    }
}

#[test]
fn test_eq_bars_fall_when_paused() {
    let mut state = AppState::default();
    state.current_track.is_playing = false;
    // Set all bars to max
    state.eq_bars = vec![12; 24];
    for _ in 0..12 {
        state.update_eq_bars();
    }
    for &bar in state.eq_bars.iter() {
        assert!(bar <= 12);
    }
}

#[test]
fn test_eq_bars_decay_reaches_rest() {
    let mut state = AppState::default();
    state.current_track.is_playing = false;
    state.eq_bars = vec![12; 24];
    for _ in 0..20 {
        state.update_eq_bars();
    }
    for &bar in state.eq_bars.iter() {
        assert_eq!(bar, 1);
    }
}

#[test]
fn test_display_title_short() {
    let mut state = AppState::default();
    state.current_track.name = "Short".to_string();
    let title = state.get_display_title(40);
    assert_eq!(title, "Short");
}

#[test]
fn test_display_title_truncates_long() {
    let mut state = AppState::default();
    state.current_track.name = "A".repeat(60);
    let title = state.get_display_title(20);
    assert_eq!(title.len(), 20);
}

#[test]
fn test_display_title_rotates() {
    let mut state = AppState::default();
    state.current_track.name = "ABCDEF".to_string();
    state.ticker_offset = 2;
    // padded with three spaces: "ABCDEF   ", rotated by 2: "CDEF   AB"
    assert_eq!(state.get_display_title(4), "CDEF");
}

#[test]
fn test_snapshot_overwrites_volume() {
    let mut state = AppState::default();
    state.volume = 40;
    let snapshot = CurrentTrack {
        device_volume: Some(73),
        ..Default::default()
    };
    state.apply_snapshot(snapshot);
    assert_eq!(state.volume, 73);
}

#[test]
fn test_snapshot_keeps_volume_when_unreported() {
    let mut state = AppState::default();
    state.volume = 40;
    let snapshot = CurrentTrack::default();
    state.apply_snapshot(snapshot);
    assert_eq!(state.volume, 40);
}

#[test]
fn test_snapshot_clamps_progress() {
    let mut state = AppState::default();
    let snapshot = CurrentTrack {
        duration_ms: 1_000,
        progress_ms: 5_000,
        ..Default::default()
    };
    state.apply_snapshot(snapshot);
    assert_eq!(state.current_track.progress_ms, 1_000);
}

#[test]
fn test_fast_tick_advances_progress_while_playing() {
    let mut state = AppState::default();
    state.current_track.duration_ms = 1_000;
    state.current_track.progress_ms = 950;
    state.current_track.is_playing = true;
    state.on_fast_tick();
    assert_eq!(state.current_track.progress_ms, 1_000);
    state.current_track.progress_ms = 100;
    state.on_fast_tick();
    assert_eq!(state.current_track.progress_ms, 180);
}

#[test]
fn test_fast_tick_leaves_progress_when_paused() {
    let mut state = AppState::default();
    state.current_track.duration_ms = 1_000;
    state.current_track.progress_ms = 100;
    state.current_track.is_playing = false;
    state.on_fast_tick();
    assert_eq!(state.current_track.progress_ms, 100);
}

#[test]
fn test_mood_labels() {
    assert_eq!(vibes::state::VibesMood::Chill.label(), "🌊 Chill");
    assert_eq!(vibes::state::VibesMood::Dark.query(), "genre:metal dark heavy intense");
}
