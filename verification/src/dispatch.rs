//! The action dispatcher: one user action plus the current session state
//! yields a synchronous, optimistic state change and at most one command
//! for the background runner; one finished command's outcome is merged
//! back in by [`AppState::apply_outcome`].

use vstd::prelude::*;

use crate::events::UserAction;
use crate::state::ActiveScreen;
use crate::state::AppState;
use crate::state::CurrentTrack;
use crate::state::LibraryState;
use crate::state::Notification;
use crate::state::PlaylistEntry;
use crate::state::PlaylistsState;
use crate::state::QueueState;
use crate::state::SearchState;
use crate::state::TrackEntry;
use crate::state::VibesMood;
use crate::state::VibesState;
use crate::state::MOOD_COUNT;
use crate::text;

verus! {

/// How much the volume moves per key press.
pub const VOLUME_STEP: u8 = 5;

/// How far one seek key press moves, in milliseconds.
pub const SEEK_STEP_MS: u32 = 10_000;

/// How many playable items, starting at the selection, are handed to one
/// play command so the rest of the visible list plays on as context.
pub const PLAY_RUN_LIMIT: usize = 50;

/// One asynchronous request to the remote service, produced by the
/// dispatcher and performed outside the loop.
#[derive(Debug, Clone)]
pub enum Command {
    TogglePlayback { was_playing: bool },
    SkipNext,
    SkipPrevious,
    SetVolume { percent: u8 },
    SeekTo { position_ms: u32 },
    PlayFrom { uris: Vec<String>, title: String },
    SaveTrack { id: String },
    RemoveTrack { id: String },
    QueueTrack { uri: String },
    RunSearch { query: String },
    LoadLibrary,
    LoadPlaylists,
    LoadPlaylistTracks { id: String },
    LoadQueue,
    LoadVibes { mood: VibesMood },
}

/// The report handed back once a command the user is waiting on has
/// finished; fire-and-forget commands report nothing.
#[derive(Debug)]
pub enum CommandOutcome {
    PlayFinished { title: String, error: Option<String> },
    LikeFinished { liked: bool, ok: bool },
    QueueAddFinished { error: Option<String> },
    SearchFinished { result: Result<Vec<TrackEntry>, String> },
    LibraryLoaded { result: Result<Vec<TrackEntry>, String> },
    PlaylistsLoaded { result: Result<Vec<PlaylistEntry>, String> },
    PlaylistTracksLoaded { result: Result<Vec<TrackEntry>, String> },
    QueueLoaded { result: Result<Vec<TrackEntry>, String> },
    VibesLoaded { result: Result<Vec<TrackEntry>, String> },
}

/// A selection cursor moved one step up, stopping at the top.
pub open spec fn dec_sel(sel: usize) -> usize {
    if sel > 0 {
        (sel - 1) as usize
    } else {
        sel
    }
}

/// A selection cursor moved one step down, stopping at the end of the
/// list; on an empty list it does not move at all.
pub open spec fn inc_sel(sel: usize, len: nat) -> usize {
    if len > 0 && sel < len - 1 {
        (sel + 1) as usize
    } else {
        sel
    }
}

/// A cursor re-fitted to a replaced list: clamped inside the new list, or
/// zero when the list is empty.
pub open spec fn refit_sel(sel: usize, len: nat) -> usize {
    if len == 0 {
        0
    } else if sel < len {
        sel
    } else {
        (len - 1) as usize
    }
}

/// Clamp a cursor for a freshly stored list.
fn refit_cursor(sel: usize, len: usize) -> (r: usize)
    ensures
        r == refit_sel(sel, len as nat),
{
    if len == 0 {
        0
    } else if sel < len {
        sel
    } else {
        len - 1
    }
}

/// The mood at a given cursor position.
pub open spec fn spec_mood_at(idx: usize) -> VibesMood {
    if idx == 0 { VibesMood::Chill }
    else if idx == 1 { VibesMood::Hype }
    else if idx == 2 { VibesMood::Focus }
    else if idx == 3 { VibesMood::Happy }
    else { VibesMood::Dark }
}

/// Pick the mood under the mood cursor.
pub fn mood_at(idx: usize) -> (r: VibesMood)
    ensures
        r == spec_mood_at(idx),
{
    match idx {
        0 => VibesMood::Chill,
        1 => VibesMood::Hype,
        2 => VibesMood::Focus,
        3 => VibesMood::Happy,
        _ => VibesMood::Dark,
    }
}

/// The run of remote identifiers a play command carries: walking the list
/// from the front, every playable entry's identifier, up to the budget.
pub open spec fn playable_uris(tracks: Seq<TrackEntry>, max: nat) -> Seq<Seq<char>>
    decreases tracks.len(),
{
    if tracks.len() == 0 || max == 0 {
        Seq::empty()
    } else {
        match tracks[0].uri {
            Some(u) => seq![u@] + playable_uris(tracks.drop_first(), (max - 1) as nat),
            None => playable_uris(tracks.drop_first(), max),
        }
    }
}

/// Collect the identifiers of up to `max` playable entries, starting at
/// the given position, in list order.
pub fn collect_uris(tracks: &Vec<TrackEntry>, start: usize, max: usize) -> (r: Vec<String>)
    requires
        start <= tracks@.len(),
    ensures
        r.deep_view() == playable_uris(tracks@.skip(start as int), max as nat),
        r@.len() <= max,
{
    let mut r: Vec<String> = Vec::new();
    let mut i = start;
    while i < tracks.len() && r.len() < max
        invariant
            start <= i <= tracks@.len(),
            r@.len() <= max,
            r.deep_view() + playable_uris(tracks@.skip(i as int), (max - r@.len()) as nat)
                == playable_uris(tracks@.skip(start as int), max as nat),
        decreases tracks@.len() - i,
    {
        let ghost pre_r = r.deep_view();
        let ghost rest = tracks@.skip(i as int);
        proof {
            assert(rest.len() > 0);
            assert(rest[0] == tracks@[i as int]);
            assert(rest.drop_first() =~= tracks@.skip(i as int + 1));
        }
        match &tracks[i].uri {
            Some(u) => {
                let owned = u.clone();
                r.push(owned);
                proof {
                    assert(r.deep_view() =~= pre_r.push(tracks@[i as int].uri.unwrap()@));
                    assert(pre_r.push(tracks@[i as int].uri.unwrap()@)
                        + playable_uris(tracks@.skip(i as int + 1), (max - r@.len()) as nat)
                        =~= pre_r + (seq![tracks@[i as int].uri.unwrap()@]
                            + playable_uris(tracks@.skip(i as int + 1), (max - r@.len()) as nat)));
                }
            },
            None => {
            },
        }
        i = i + 1;
    }
    proof {
        if i == tracks@.len() {
            assert(tracks@.skip(i as int) =~= Seq::<TrackEntry>::empty());
        }
        assert(r.deep_view() + Seq::<Seq<char>>::empty() =~= r.deep_view());
    }
    r
}

/// What one up-navigation does on one list.
pub open spec fn navigated_up(pre: AppState, post: AppState) -> bool {
    match pre.active_screen {
        ActiveScreen::Search => post == (AppState {
            search: SearchState { selected_track: dec_sel(pre.search.selected_track), ..pre.search },
            ..pre
        }),
        ActiveScreen::Library => post == (AppState {
            library: LibraryState { selected: dec_sel(pre.library.selected), ..pre.library },
            ..pre
        }),
        ActiveScreen::Playlists => if pre.playlists.viewing_tracks {
            post == (AppState {
                playlists: PlaylistsState {
                    selected_track: dec_sel(pre.playlists.selected_track),
                    ..pre.playlists
                },
                ..pre
            })
        } else {
            post == (AppState {
                playlists: PlaylistsState {
                    selected_playlist: dec_sel(pre.playlists.selected_playlist),
                    ..pre.playlists
                },
                ..pre
            })
        },
        ActiveScreen::Queue => post == (AppState {
            queue: QueueState { selected: dec_sel(pre.queue.selected), ..pre.queue },
            ..pre
        }),
        ActiveScreen::Vibes => if pre.vibes.selected_mood > 0
            && pre.vibes.recommendations@.len() > 0 {
            post == (AppState {
                vibes: VibesState {
                    selected_track: dec_sel(pre.vibes.selected_track),
                    ..pre.vibes
                },
                ..pre
            })
        } else if pre.vibes.selected_mood > 0 {
            post == (AppState {
                vibes: VibesState {
                    selected_mood: dec_sel(pre.vibes.selected_mood),
                    ..pre.vibes
                },
                ..pre
            })
        } else {
            post == pre
        },
    }
}

/// What one down-navigation does on one list.
pub open spec fn navigated_down(pre: AppState, post: AppState) -> bool {
    match pre.active_screen {
        ActiveScreen::Search => post == (AppState {
            search: SearchState {
                selected_track: inc_sel(pre.search.selected_track, pre.search.tracks@.len()),
                ..pre.search
            },
            ..pre
        }),
        ActiveScreen::Library => post == (AppState {
            library: LibraryState {
                selected: inc_sel(pre.library.selected, pre.library.liked_songs@.len()),
                ..pre.library
            },
            ..pre
        }),
        ActiveScreen::Playlists => if pre.playlists.viewing_tracks {
            post == (AppState {
                playlists: PlaylistsState {
                    selected_track: inc_sel(
                        pre.playlists.selected_track,
                        pre.playlists.playlist_tracks@.len(),
                    ),
                    ..pre.playlists
                },
                ..pre
            })
        } else {
            post == (AppState {
                playlists: PlaylistsState {
                    selected_playlist: inc_sel(
                        pre.playlists.selected_playlist,
                        pre.playlists.playlists@.len(),
                    ),
                    ..pre.playlists
                },
                ..pre
            })
        },
        ActiveScreen::Queue => post == (AppState {
            queue: QueueState {
                selected: inc_sel(pre.queue.selected, pre.queue.tracks@.len()),
                ..pre.queue
            },
            ..pre
        }),
        ActiveScreen::Vibes => if pre.vibes.recommendations@.len() > 0 {
            post == (AppState {
                vibes: VibesState {
                    selected_track: inc_sel(
                        pre.vibes.selected_track,
                        pre.vibes.recommendations@.len(),
                    ),
                    ..pre.vibes
                },
                ..pre
            })
        } else {
            post == (AppState {
                vibes: VibesState {
                    selected_mood: inc_sel(pre.vibes.selected_mood, MOOD_COUNT as nat),
                    ..pre.vibes
                },
                ..pre
            })
        },
    }
}

/// One playback device as the remote service lists it.
#[derive(Debug, Clone)]
pub struct DeviceEntry {
    pub id: Option<String>,
    pub is_active: bool,
}

/// The identifier a device entry offers, empty when the service lists
/// none.
pub open spec fn device_id_view(d: DeviceEntry) -> Seq<char> {
    match d.id {
        Some(s) => s@,
        None => Seq::empty(),
    }
}

/// The position of the first active device, or the list length when none
/// is active.
pub open spec fn active_pos(devs: Seq<DeviceEntry>) -> nat
    decreases devs.len(),
{
    if devs.len() == 0 {
        0
    } else if devs[0].is_active {
        0
    } else {
        (1 + active_pos(devs.drop_first())) as nat
    }
}

/// `active_pos` is exactly the first active index (or the length).
proof fn lemma_active_pos_at(devs: Seq<DeviceEntry>, i: int)
    requires
        0 <= i <= devs.len(),
        forall|j: int| 0 <= j < i ==> !devs[j].is_active,
        i == devs.len() || devs[i].is_active,
    ensures
        active_pos(devs) == i,
    decreases i,
{
    if i > 0 {
        assert forall|j: int| 0 <= j < i - 1 implies !devs.drop_first()[j].is_active by {
            assert(devs.drop_first()[j] == devs[j + 1]);
        }
        if i < devs.len() {
            assert(devs.drop_first()[i - 1] == devs[i]);
        }
        lemma_active_pos_at(devs.drop_first(), i - 1);
    }
}

/// The device a play command targets: the first active device, else the
/// first device at all, else none.
pub open spec fn spec_pick_device(devs: Seq<DeviceEntry>) -> Option<Seq<char>> {
    let i = active_pos(devs);
    if i < devs.len() {
        Some(device_id_view(devs[i as int]))
    } else if devs.len() > 0 {
        Some(device_id_view(devs[0]))
    } else {
        None
    }
}

/// Pick the device a play command targets from the remote device list:
/// the first active one, else the first listed, else none.
pub fn pick_device(devs: &Vec<DeviceEntry>) -> (r: Option<String>)
    ensures
        match spec_pick_device(devs@) {
            Some(id) => r matches Some(s) && s@ == id,
            None => r is None,
        },
{
    let mut i: usize = 0;
    while i < devs.len()
        invariant
            i <= devs@.len(),
            forall|j: int| 0 <= j < i ==> !devs@[j].is_active,
        decreases devs@.len() - i,
    {
        if devs[i].is_active {
            proof {
                lemma_active_pos_at(devs@, i as int);
            }
            return Some(device_id(&devs[i]));
        }
        i = i + 1;
    }
    proof {
        lemma_active_pos_at(devs@, devs@.len() as int);
    }
    if devs.len() > 0 {
        Some(device_id(&devs[0]))
    } else {
        None
    }
}

/// The identifier of one device entry, empty when the service lists
/// none.
fn device_id(d: &DeviceEntry) -> (r: String)
    ensures
        r@ == device_id_view(*d),
{
    match &d.id {
        Some(s) => s.clone(),
        None => String::new(),
    }
}

/// The screen after a navigation request: unchanged when the target is
/// already shown, otherwise the target, with the screen left behind
/// remembered.
pub open spec fn nav(pre: AppState, target: ActiveScreen) -> AppState {
    if pre.active_screen == target {
        pre
    } else {
        AppState { active_screen: target, previous_screen: Some(pre.active_screen), ..pre }
    }
}

/// The state shows an informational notification with this text, with the
/// full countdown ahead of it.
pub open spec fn shows_info(post: AppState, msg: Seq<char>) -> bool {
    post.notification matches Some(n)
        && n.message@ == msg
        && n.remaining_ticks == crate::state::INFO_TICKS
        && !n.is_error
}

/// The state shows an error notification with this text, with the full
/// countdown ahead of it.
pub open spec fn shows_error(post: AppState, msg: Seq<char>) -> bool {
    post.notification matches Some(n)
        && n.message@ == msg
        && n.remaining_ticks == crate::state::ERROR_TICKS
        && n.is_error
}

/// What a skip request does: immediate loading feedback on the title line
/// (name blanked to a placeholder, artists cleared, progress zeroed), a
/// notification, and the remote skip command.
pub open spec fn skipped(pre: AppState, post: AppState, r: Option<Command>, next: bool) -> bool {
    &&& post == (AppState {
        current_track: CurrentTrack {
            name: post.current_track.name,
            artists: post.current_track.artists,
            progress_ms: 0,
            ..pre.current_track
        },
        notification: post.notification,
        ..pre
    })
    &&& post.current_track.name@ == if next {
        "Loading next track..."@
    } else {
        "Loading previous track..."@
    }
    &&& post.current_track.artists@.len() == 0
    &&& shows_info(post, if next { "Next track ▶▶"@ } else { "Previous track ◀◀"@ })
    &&& r == Some(if next { Command::SkipNext } else { Command::SkipPrevious })
}

/// What one dispatched action does: the optimistic state change and the
/// command handed to the background runner, both exact, per action.
pub open spec fn dispatched(
    pre: AppState,
    action: UserAction,
    post: AppState,
    r: Option<Command>,
) -> bool {
    match action {
        UserAction::Quit => post == (AppState { should_quit: true, ..pre }) && r is None,
        UserAction::ToggleHelp => post == (AppState { show_help: !pre.show_help, ..pre })
            && r is None,
        UserAction::SwitchScreen(n) => {
            let pre2 = AppState { show_help: false, ..pre };
            if n == 1 {
                post == (AppState {
                    search: SearchState { is_searching: false, ..pre2.search },
                    ..nav(pre2, ActiveScreen::Search)
                }) && r is None
            } else if n == 2 {
                if pre.library.liked_songs@.len() == 0 {
                    post == (AppState {
                        library: LibraryState { is_loading: true, ..pre2.library },
                        ..nav(pre2, ActiveScreen::Library)
                    }) && r == Some(Command::LoadLibrary)
                } else {
                    post == nav(pre2, ActiveScreen::Library) && r is None
                }
            } else if n == 3 {
                if pre.playlists.playlists@.len() == 0 {
                    post == (AppState {
                        playlists: PlaylistsState { is_loading: true, ..pre2.playlists },
                        ..nav(pre2, ActiveScreen::Playlists)
                    }) && r == Some(Command::LoadPlaylists)
                } else {
                    post == nav(pre2, ActiveScreen::Playlists) && r is None
                }
            } else if n == 4 {
                if pre.queue.tracks@.len() == 0 {
                    post == (AppState {
                        queue: QueueState { is_loading: true, ..pre2.queue },
                        ..nav(pre2, ActiveScreen::Queue)
                    }) && r == Some(Command::LoadQueue)
                } else {
                    post == nav(pre2, ActiveScreen::Queue) && r is None
                }
            } else if n == 5 {
                post == nav(pre2, ActiveScreen::Vibes) && r is None
            } else {
                post == pre2 && r is None
            }
        },
        UserAction::OpenSearch => post == (AppState {
            search: SearchState { is_searching: true, ..pre.search },
            ..nav(pre, ActiveScreen::Search)
        }) && r is None,
        UserAction::Back => r is None && post == if pre.search.is_searching {
            AppState { search: SearchState { is_searching: false, ..pre.search }, ..pre }
        } else if pre.playlists.viewing_tracks {
            AppState {
                playlists: PlaylistsState { viewing_tracks: false, ..pre.playlists },
                ..pre
            }
        } else if pre.show_help {
            AppState { show_help: false, ..pre }
        } else {
            pre
        },
        UserAction::SearchInput(c) => {
            &&& r is None
            &&& post == (AppState {
                search: SearchState { query: post.search.query, ..pre.search },
                ..pre
            })
            &&& post.search.query@ == pre.search.query@.push(c)
        },
        UserAction::SearchBackspace => {
            &&& r is None
            &&& post == (AppState {
                search: SearchState { query: post.search.query, ..pre.search },
                ..pre
            })
            &&& post.search.query@ == if pre.search.query@.len() > 0 {
                pre.search.query@.drop_last()
            } else {
                pre.search.query@
            }
        },
        UserAction::SearchSubmit => if pre.search.query@.len() == 0 {
            post == (AppState {
                search: SearchState { is_searching: false, ..pre.search },
                ..pre
            }) && r is None
        } else {
            &&& post == (AppState {
                search: SearchState { is_searching: true, ..pre.search },
                ..pre
            })
            &&& r matches Some(Command::RunSearch { query }) && query@ == pre.search.query@
        },
        UserAction::NavigateUp => navigated_up(pre, post) && r is None,
        UserAction::NavigateDown => navigated_down(pre, post) && r is None,
        UserAction::NavigateLeft => r is None && post == if pre.active_screen
            == ActiveScreen::Playlists && pre.playlists.viewing_tracks {
            AppState {
                playlists: PlaylistsState { viewing_tracks: false, ..pre.playlists },
                ..pre
            }
        } else {
            pre
        },
        UserAction::NavigateRight => r is None && post == if pre.active_screen
            == ActiveScreen::Playlists && !pre.playlists.viewing_tracks {
            AppState {
                playlists: PlaylistsState { viewing_tracks: true, ..pre.playlists },
                ..pre
            }
        } else {
            pre
        },
        UserAction::Select => selected(pre, post, r),
        UserAction::TogglePlay => {
            &&& post == (AppState {
                current_track: CurrentTrack {
                    is_playing: !pre.current_track.is_playing,
                    ..pre.current_track
                },
                notification: post.notification,
                ..pre
            })
            &&& shows_info(post, if pre.current_track.is_playing { "Paused"@ } else { "Resumed"@ })
            &&& r matches Some(Command::TogglePlayback { was_playing })
                && was_playing == pre.current_track.is_playing
        },
        UserAction::NextTrack => skipped(pre, post, r, true),
        UserAction::PrevTrack => skipped(pre, post, r, false),
        UserAction::VolumeUp => {
            &&& post == (AppState { volume: post.volume, notification: post.notification, ..pre })
            &&& post.volume == vstd::math::min(pre.volume + VOLUME_STEP, 100)
            &&& shows_info(post, "Volume: "@ + text::spec_dec(post.volume as nat) + "%"@)
            &&& r matches Some(Command::SetVolume { percent }) && percent == post.volume
        },
        UserAction::VolumeDown => {
            &&& post == (AppState { volume: post.volume, notification: post.notification, ..pre })
            &&& post.volume == vstd::math::max(pre.volume - VOLUME_STEP, 0)
            &&& shows_info(post, "Volume: "@ + text::spec_dec(post.volume as nat) + "%"@)
            &&& r matches Some(Command::SetVolume { percent }) && percent == post.volume
        },
        UserAction::LikeTrack => post == pre && match pre.current_track.id {
            None => r is None,
            Some(id) => if pre.current_track.is_liked {
                r matches Some(Command::RemoveTrack { id: rid }) && rid@ == id@
            } else {
                r matches Some(Command::SaveTrack { id: rid }) && rid@ == id@
            },
        },
        UserAction::AddToQueue => post == pre && match queue_target(pre) {
            Some(u) => r matches Some(Command::QueueTrack { uri }) && uri@ == u,
            None => r is None,
        },
        UserAction::SeekForward => {
            &&& post == (AppState {
                current_track: CurrentTrack {
                    progress_ms: post.current_track.progress_ms,
                    ..pre.current_track
                },
                ..pre
            })
            &&& post.current_track.progress_ms == vstd::math::min(
                pre.current_track.progress_ms + SEEK_STEP_MS,
                pre.current_track.duration_ms as int,
            )
            &&& r matches Some(Command::SeekTo { position_ms })
                && position_ms == post.current_track.progress_ms
        },
        UserAction::SeekBackward => {
            &&& post == (AppState {
                current_track: CurrentTrack {
                    progress_ms: post.current_track.progress_ms,
                    ..pre.current_track
                },
                ..pre
            })
            &&& post.current_track.progress_ms == vstd::math::max(
                pre.current_track.progress_ms - SEEK_STEP_MS,
                0,
            )
            &&& r matches Some(Command::SeekTo { position_ms })
                && position_ms == post.current_track.progress_ms
        },
        UserAction::ToggleEQ => {
            &&& post == (AppState {
                eq_expanded: !pre.eq_expanded,
                notification: post.notification,
                ..pre
            })
            &&& shows_info(post, if pre.eq_expanded { "EQ: Compact"@ } else { "EQ: Expanded"@ })
            &&& r is None
        },
    }
}

/// A play command built from one list: present exactly when the selection
/// points at an entry and the run from it holds at least one playable
/// item, carrying that run and the selected entry's name.
pub open spec fn play_from_ok(tracks: Seq<TrackEntry>, sel: usize, r: Option<Command>) -> bool {
    if sel < tracks.len() && playable_uris(tracks.skip(sel as int), PLAY_RUN_LIMIT as nat).len()
        > 0 {
        r matches Some(Command::PlayFrom { uris, title })
            && uris.deep_view() == playable_uris(tracks.skip(sel as int), PLAY_RUN_LIMIT as nat)
            && title@ == tracks[sel as int].name@
    } else {
        r is None
    }
}

/// What selecting does on each screen.
pub open spec fn selected(pre: AppState, post: AppState, r: Option<Command>) -> bool {
    match pre.active_screen {
        ActiveScreen::Search => post == pre && play_from_ok(
            pre.search.tracks@,
            pre.search.selected_track,
            r,
        ),
        ActiveScreen::Library => post == pre && play_from_ok(
            pre.library.liked_songs@,
            pre.library.selected,
            r,
        ),
        ActiveScreen::Playlists => if pre.playlists.viewing_tracks {
            post == pre && play_from_ok(
                pre.playlists.playlist_tracks@,
                pre.playlists.selected_track,
                r,
            )
        } else if pre.playlists.selected_playlist < pre.playlists.playlists@.len() {
            &&& post == (AppState {
                playlists: PlaylistsState {
                    viewing_tracks: true,
                    selected_track: 0,
                    is_loading: true,
                    playlist_tracks: post.playlists.playlist_tracks,
                    ..pre.playlists
                },
                ..pre
            })
            &&& post.playlists.playlist_tracks@.len() == 0
            &&& r matches Some(Command::LoadPlaylistTracks { id })
                && id@ == pre.playlists.playlists@[pre.playlists.selected_playlist as int].id@
        } else {
            &&& post == (AppState {
                playlists: PlaylistsState {
                    viewing_tracks: true,
                    selected_track: 0,
                    ..pre.playlists
                },
                ..pre
            })
            &&& r is None
        },
        ActiveScreen::Queue => post == pre && r is None,
        ActiveScreen::Vibes => if pre.vibes.recommendations@.len() == 0 {
            &&& post == (AppState {
                vibes: VibesState { is_loading: true, selected_track: 0, ..pre.vibes },
                ..pre
            })
            &&& r matches Some(Command::LoadVibes { mood })
                && mood == spec_mood_at(pre.vibes.selected_mood)
        } else {
            post == pre && play_from_ok(
                pre.vibes.recommendations@,
                pre.vibes.selected_track,
                r,
            )
        },
    }
}

/// The remote identifier under a cursor, when the cursor points at a
/// playable entry.
pub open spec fn uri_at(tracks: Seq<TrackEntry>, sel: usize) -> Option<Seq<char>> {
    if sel < tracks.len() {
        match tracks[sel as int].uri {
            Some(u) => Some(u@),
            None => None,
        }
    } else {
        None
    }
}

/// The identifier an add-to-queue press targets: the selected entry of
/// the screens that list playable tracks directly.
pub open spec fn queue_target(pre: AppState) -> Option<Seq<char>> {
    match pre.active_screen {
        ActiveScreen::Search => uri_at(pre.search.tracks@, pre.search.selected_track),
        ActiveScreen::Library => uri_at(pre.library.liked_songs@, pre.library.selected),
        ActiveScreen::Vibes => uri_at(pre.vibes.recommendations@, pre.vibes.selected_track),
        _ => None,
    }
}

/// What merging one command outcome does, per outcome.  Every failure of
/// a command the user waited on — explicit data loads included — surfaces
/// as an error notification with the failure's message.
pub open spec fn outcome_applied(pre: AppState, outcome: CommandOutcome, post: AppState) -> bool {
    match outcome {
        CommandOutcome::PlayFinished { title, error } => match error {
            None => post == (AppState { notification: post.notification, ..pre })
                && shows_info(post, "Playing: "@ + title@),
            Some(e) => post == (AppState { notification: post.notification, ..pre })
                && shows_error(post, e@),
        },
        CommandOutcome::LikeFinished { liked, ok } => if ok {
            &&& post == (AppState {
                current_track: CurrentTrack { is_liked: liked, ..pre.current_track },
                notification: post.notification,
                ..pre
            })
            &&& shows_info(post, if liked {
                "❤ Added to Liked Songs"@
            } else {
                "Removed from Liked Songs"@
            })
        } else {
            post == pre
        },
        CommandOutcome::QueueAddFinished { error } => match error {
            None => post == (AppState { notification: post.notification, ..pre })
                && shows_info(post, "Added to queue ✓"@),
            Some(e) => post == (AppState { notification: post.notification, ..pre })
                && shows_error(post, e@),
        },
        CommandOutcome::SearchFinished { result } => match result {
            Ok(tracks) => {
                &&& post == (AppState {
                    search: SearchState {
                        tracks: tracks,
                        selected_track: 0,
                        is_searching: false,
                        ..pre.search
                    },
                    notification: post.notification,
                    ..pre
                })
                &&& shows_info(post, "Found "@ + text::spec_dec(tracks@.len()) + " tracks"@)
            },
            Err(e) => {
                &&& post == (AppState {
                    search: SearchState { is_searching: false, ..pre.search },
                    notification: post.notification,
                    ..pre
                })
                &&& shows_error(post, "Search failed: "@ + e@)
            },
        },
        CommandOutcome::LibraryLoaded { result } => match result {
            Ok(tracks) => post == (AppState {
                library: LibraryState {
                    liked_songs: tracks,
                    selected: refit_sel(pre.library.selected, tracks@.len()),
                    is_loading: false,
                },
                ..pre
            }),
            Err(e) => {
                &&& post == (AppState {
                    library: LibraryState { is_loading: false, ..pre.library },
                    notification: post.notification,
                    ..pre
                })
                &&& shows_error(post, "Library load error: "@ + e@)
            },
        },
        CommandOutcome::PlaylistsLoaded { result } => match result {
            Ok(playlists) => post == (AppState {
                playlists: PlaylistsState {
                    playlists: playlists,
                    selected_playlist: refit_sel(
                        pre.playlists.selected_playlist,
                        playlists@.len(),
                    ),
                    is_loading: false,
                    ..pre.playlists
                },
                ..pre
            }),
            Err(e) => {
                &&& post == (AppState {
                    playlists: PlaylistsState { is_loading: false, ..pre.playlists },
                    notification: post.notification,
                    ..pre
                })
                &&& shows_error(post, "Playlists load error: "@ + e@)
            },
        },
        CommandOutcome::PlaylistTracksLoaded { result } => match result {
            Ok(tracks) => post == (AppState {
                playlists: PlaylistsState {
                    playlist_tracks: tracks,
                    selected_track: refit_sel(pre.playlists.selected_track, tracks@.len()),
                    is_loading: false,
                    ..pre.playlists
                },
                ..pre
            }),
            Err(e) => {
                &&& post == (AppState {
                    playlists: PlaylistsState { is_loading: false, ..pre.playlists },
                    notification: post.notification,
                    ..pre
                })
                &&& shows_error(post, "Playlist tracks load error: "@ + e@)
            },
        },
        CommandOutcome::QueueLoaded { result } => match result {
            Ok(tracks) => post == (AppState {
                queue: QueueState {
                    tracks: tracks,
                    selected: refit_sel(pre.queue.selected, tracks@.len()),
                    is_loading: false,
                },
                ..pre
            }),
            Err(e) => {
                &&& post == (AppState {
                    queue: QueueState { is_loading: false, ..pre.queue },
                    notification: post.notification,
                    ..pre
                })
                &&& shows_error(post, "Queue load error: "@ + e@)
            },
        },
        CommandOutcome::VibesLoaded { result } => match result {
            Ok(tracks) => {
                &&& post == (AppState {
                    vibes: VibesState {
                        recommendations: tracks,
                        selected_track: refit_sel(pre.vibes.selected_track, tracks@.len()),
                        is_loading: false,
                        ..pre.vibes
                    },
                    notification: post.notification,
                    ..pre
                })
                &&& shows_info(
                    post,
                    "Generated "@ + text::spec_dec(tracks@.len()) + " recommendations"@,
                )
            },
            Err(e) => {
                &&& post == (AppState {
                    vibes: VibesState { is_loading: false, ..pre.vibes },
                    notification: post.notification,
                    ..pre
                })
                &&& shows_error(post, "Vibes error: "@ + e@)
            },
        },
    }
}

impl AppState {
    /// Build the play command for one list: the run of up to
    /// [`PLAY_RUN_LIMIT`] playable entries from the selection, and the
    /// selected entry's name for the later notification.
    fn build_play_from(tracks: &Vec<TrackEntry>, sel: usize) -> (r: Option<Command>)
        requires
            sel == 0 || sel < tracks@.len(),
        ensures
            play_from_ok(tracks@, sel, r),
    {
        if sel < tracks.len() {
            let uris = collect_uris(tracks, sel, PLAY_RUN_LIMIT);
            if uris.len() > 0 {
                proof {
                    assert(uris.deep_view().len() == uris@.len());
                }
                let title = tracks[sel].name.clone();
                Some(Command::PlayFrom { uris, title })
            } else {
                proof {
                    assert(uris.deep_view().len() == uris@.len());
                }
                None
            }
        } else {
            None
        }
    }

    /// Select the entry under the cursor: on a track list, play from it;
    /// on the playlist list, enter the playlist and load its tracks; on
    /// the vibes moods, look the mood's recommendations up.
    pub fn handle_select(&mut self) -> (r: Option<Command>)
        requires
            old(self).wf(),
        ensures
            selected(*old(self), *final(self), r),
            final(self).wf(),
    {
        match self.active_screen {
            ActiveScreen::Search => {
                Self::build_play_from(&self.search.tracks, self.search.selected_track)
            },
            ActiveScreen::Library => {
                Self::build_play_from(&self.library.liked_songs, self.library.selected)
            },
            ActiveScreen::Playlists => {
                if self.playlists.viewing_tracks {
                    Self::build_play_from(
                        &self.playlists.playlist_tracks,
                        self.playlists.selected_track,
                    )
                } else {
                    self.playlists.viewing_tracks = true;
                    self.playlists.selected_track = 0;
                    if self.playlists.selected_playlist < self.playlists.playlists.len() {
                        let id =
                            self.playlists.playlists[self.playlists.selected_playlist].id.clone();
                        self.playlists.is_loading = true;
                        self.playlists.playlist_tracks = Vec::new();
                        Some(Command::LoadPlaylistTracks { id })
                    } else {
                        None
                    }
                }
            },
            ActiveScreen::Queue => None,
            ActiveScreen::Vibes => {
                if self.vibes.recommendations.len() == 0 {
                    let mood = mood_at(self.vibes.selected_mood);
                    self.vibes.is_loading = true;
                    self.vibes.selected_track = 0;
                    Some(Command::LoadVibes { mood })
                } else {
                    Self::build_play_from(&self.vibes.recommendations, self.vibes.selected_track)
                }
            },
        }
    }

    /// Dispatch one user action: apply the optimistic, in-memory state
    /// change at once, and hand back at most one command for the
    /// background runner.  The dispatcher itself never waits on the
    /// remote service.
    #[verifier::rlimit(100)]
    pub fn handle_action(&mut self, action: UserAction) -> (r: Option<Command>)
        requires
            old(self).wf(),
        ensures
            dispatched(*old(self), action, *final(self), r),
            final(self).wf(),
    {
        match action {
            UserAction::Quit => {
                self.should_quit = true;
                None
            },
            UserAction::ToggleHelp => {
                self.show_help = !self.show_help;
                None
            },
            UserAction::SwitchScreen(n) => {
                self.show_help = false;
                match n {
                    1 => {
                        self.navigate_to(ActiveScreen::Search);
                        self.search.is_searching = false;
                        None
                    },
                    2 => {
                        self.navigate_to(ActiveScreen::Library);
                        if self.library.liked_songs.len() == 0 {
                            self.library.is_loading = true;
                            Some(Command::LoadLibrary)
                        } else {
                            None
                        }
                    },
                    3 => {
                        self.navigate_to(ActiveScreen::Playlists);
                        if self.playlists.playlists.len() == 0 {
                            self.playlists.is_loading = true;
                            Some(Command::LoadPlaylists)
                        } else {
                            None
                        }
                    },
                    4 => {
                        self.navigate_to(ActiveScreen::Queue);
                        if self.queue.tracks.len() == 0 {
                            self.queue.is_loading = true;
                            Some(Command::LoadQueue)
                        } else {
                            None
                        }
                    },
                    5 => {
                        self.navigate_to(ActiveScreen::Vibes);
                        None
                    },
                    _ => None,
                }
            },
            UserAction::OpenSearch => {
                self.navigate_to(ActiveScreen::Search);
                self.search.is_searching = true;
                None
            },
            UserAction::Back => {
                if self.search.is_searching {
                    self.search.is_searching = false;
                } else if self.playlists.viewing_tracks {
                    self.playlists.viewing_tracks = false;
                } else if self.show_help {
                    self.show_help = false;
                }
                None
            },
            UserAction::SearchInput(c) => {
                text::push_char(&mut self.search.query, c);
                None
            },
            UserAction::SearchBackspace => {
                text::pop_char(&mut self.search.query);
                None
            },
            UserAction::SearchSubmit => {
                if self.search.query.as_str().is_empty() {
                    self.search.is_searching = false;
                    None
                } else {
                    self.search.is_searching = true;
                    Some(Command::RunSearch { query: self.search.query.clone() })
                }
            },
            UserAction::NavigateUp => {
                self.navigate_up();
                None
            },
            UserAction::NavigateDown => {
                self.navigate_down();
                None
            },
            UserAction::NavigateLeft => {
                if self.active_screen == ActiveScreen::Playlists && self.playlists.viewing_tracks {
                    self.playlists.viewing_tracks = false;
                }
                None
            },
            UserAction::NavigateRight => {
                if self.active_screen == ActiveScreen::Playlists && !self.playlists.viewing_tracks {
                    self.playlists.viewing_tracks = true;
                }
                None
            },
            UserAction::Select => self.handle_select(),
            UserAction::TogglePlay => {
                let was_playing = self.current_track.is_playing;
                self.current_track.is_playing = !was_playing;
                let msg = if was_playing {
                    "Paused"
                } else {
                    "Resumed"
                };
                self.set_notification(Notification::info(msg));
                Some(Command::TogglePlayback { was_playing })
            },
            UserAction::NextTrack => {
                self.set_notification(Notification::info("Next track ▶▶"));
                self.current_track.name = String::from_str("Loading next track...");
                self.current_track.artists = Vec::new();
                self.current_track.progress_ms = 0;
                Some(Command::SkipNext)
            },
            UserAction::PrevTrack => {
                self.set_notification(Notification::info("Previous track ◀◀"));
                self.current_track.name = String::from_str("Loading previous track...");
                self.current_track.artists = Vec::new();
                self.current_track.progress_ms = 0;
                Some(Command::SkipPrevious)
            },
            UserAction::VolumeUp => {
                let new_vol = if self.volume <= 100 - VOLUME_STEP {
                    self.volume + VOLUME_STEP
                } else {
                    100
                };
                self.volume = new_vol;
                self.notify_volume(new_vol);
                Some(Command::SetVolume { percent: new_vol })
            },
            UserAction::VolumeDown => {
                let new_vol = if self.volume >= VOLUME_STEP {
                    self.volume - VOLUME_STEP
                } else {
                    0
                };
                self.volume = new_vol;
                self.notify_volume(new_vol);
                Some(Command::SetVolume { percent: new_vol })
            },
            UserAction::LikeTrack => {
                match &self.current_track.id {
                    Some(id) => {
                        if self.current_track.is_liked {
                            Some(Command::RemoveTrack { id: id.clone() })
                        } else {
                            Some(Command::SaveTrack { id: id.clone() })
                        }
                    },
                    None => None,
                }
            },
            UserAction::AddToQueue => self.handle_add_to_queue(),
            UserAction::SeekForward => {
                let progress = self.current_track.progress_ms;
                let duration = self.current_track.duration_ms;
                let new_pos = if duration - progress > SEEK_STEP_MS {
                    progress + SEEK_STEP_MS
                } else {
                    duration
                };
                self.current_track.progress_ms = new_pos;
                Some(Command::SeekTo { position_ms: new_pos })
            },
            UserAction::SeekBackward => {
                let progress = self.current_track.progress_ms;
                let new_pos = if progress >= SEEK_STEP_MS {
                    progress - SEEK_STEP_MS
                } else {
                    0
                };
                self.current_track.progress_ms = new_pos;
                Some(Command::SeekTo { position_ms: new_pos })
            },
            UserAction::ToggleEQ => {
                self.eq_expanded = !self.eq_expanded;
                let msg = if self.eq_expanded {
                    "EQ: Expanded"
                } else {
                    "EQ: Compact"
                };
                self.set_notification(Notification::info(msg));
                None
            },
        }
    }

    /// Show the volume notification for a freshly set volume.
    fn notify_volume(&mut self, new_vol: u8)
        ensures
            *final(self) == (AppState { notification: final(self).notification, ..*old(self) }),
            shows_info(*final(self), "Volume: "@ + text::spec_dec(new_vol as nat) + "%"@),
    {
        let mut msg = String::from_str("Volume: ");
        let digits = text::dec_str(new_vol as u64);
        msg.append(digits.as_str());
        msg.append("%");
        self.set_notification(Notification::info(msg.as_str()));
    }

    /// Queue the entry under the cursor, when it is playable.
    pub fn handle_add_to_queue(&self) -> (r: Option<Command>)
        ensures
            match queue_target(*self) {
                Some(u) => r matches Some(Command::QueueTrack { uri }) && uri@ == u,
                None => r is None,
            },
    {
        let target: Option<&TrackEntry> = match self.active_screen {
            ActiveScreen::Search => {
                if self.search.selected_track < self.search.tracks.len() {
                    Some(&self.search.tracks[self.search.selected_track])
                } else {
                    None
                }
            },
            ActiveScreen::Library => {
                if self.library.selected < self.library.liked_songs.len() {
                    Some(&self.library.liked_songs[self.library.selected])
                } else {
                    None
                }
            },
            ActiveScreen::Vibes => {
                if self.vibes.selected_track < self.vibes.recommendations.len() {
                    Some(&self.vibes.recommendations[self.vibes.selected_track])
                } else {
                    None
                }
            },
            _ => None,
        };
        match target {
            Some(entry) => match &entry.uri {
                Some(u) => Some(Command::QueueTrack { uri: u.clone() }),
                None => None,
            },
            None => None,
        }
    }

    /// Show the "found so many entries" notification for one loaded list.
    fn notify_count(&mut self, prefix: &str, count: usize, suffix: &str)
        ensures
            *final(self) == (AppState { notification: final(self).notification, ..*old(self) }),
            shows_info(*final(self), prefix@ + text::spec_dec(count as nat) + suffix@),
    {
        let mut msg = String::from_str(prefix);
        let digits = text::dec_str(count as u64);
        msg.append(digits.as_str());
        msg.append(suffix);
        self.set_notification(Notification::info(msg.as_str()));
    }

    /// Show an error notification with a fixed prefix before the remote
    /// failure's own text.
    fn notify_error_with(&mut self, prefix: &str, e: &str)
        ensures
            *final(self) == (AppState { notification: final(self).notification, ..*old(self) }),
            shows_error(*final(self), prefix@ + e@),
    {
        let mut msg = String::from_str(prefix);
        msg.append(e);
        self.set_notification(Notification::error(msg.as_str()));
    }

    /// Merge the outcome of one finished command back into the state.
    /// This is the only place where a waited-on command's result touches
    /// the session state.
    #[verifier::rlimit(100)]
    pub fn apply_outcome(&mut self, outcome: CommandOutcome)
        requires
            old(self).wf(),
        ensures
            outcome_applied(*old(self), outcome, *final(self)),
            final(self).wf(),
    {
        match outcome {
            CommandOutcome::PlayFinished { title, error } => match error {
                None => {
                    let mut msg = String::from_str("Playing: ");
                    msg.append(title.as_str());
                    self.set_notification(Notification::info(msg.as_str()));
                },
                Some(e) => {
                    self.set_notification(Notification::error(e.as_str()));
                },
            },
            CommandOutcome::LikeFinished { liked, ok } => {
                if ok {
                    self.current_track.is_liked = liked;
                    let msg = if liked {
                        "❤ Added to Liked Songs"
                    } else {
                        "Removed from Liked Songs"
                    };
                    self.set_notification(Notification::info(msg));
                }
            },
            CommandOutcome::QueueAddFinished { error } => match error {
                None => {
                    self.set_notification(Notification::info("Added to queue ✓"));
                },
                Some(e) => {
                    self.set_notification(Notification::error(e.as_str()));
                },
            },
            CommandOutcome::SearchFinished { result } => match result {
                Ok(tracks) => {
                    let count = tracks.len();
                    self.search.tracks = tracks;
                    self.search.selected_track = 0;
                    self.search.is_searching = false;
                    self.notify_count("Found ", count, " tracks");
                },
                Err(e) => {
                    self.search.is_searching = false;
                    self.notify_error_with("Search failed: ", e.as_str());
                },
            },
            CommandOutcome::LibraryLoaded { result } => match result {
                Ok(tracks) => {
                    self.library.selected = refit_cursor(self.library.selected, tracks.len());
                    self.library.liked_songs = tracks;
                    self.library.is_loading = false;
                },
                Err(e) => {
                    self.library.is_loading = false;
                    self.notify_error_with("Library load error: ", e.as_str());
                },
            },
            CommandOutcome::PlaylistsLoaded { result } => match result {
                Ok(playlists) => {
                    self.playlists.selected_playlist =
                        refit_cursor(self.playlists.selected_playlist, playlists.len());
                    self.playlists.playlists = playlists;
                    self.playlists.is_loading = false;
                },
                Err(e) => {
                    self.playlists.is_loading = false;
                    self.notify_error_with("Playlists load error: ", e.as_str());
                },
            },
            CommandOutcome::PlaylistTracksLoaded { result } => match result {
                Ok(tracks) => {
                    self.playlists.selected_track =
                        refit_cursor(self.playlists.selected_track, tracks.len());
                    self.playlists.playlist_tracks = tracks;
                    self.playlists.is_loading = false;
                },
                Err(e) => {
                    self.playlists.is_loading = false;
                    self.notify_error_with("Playlist tracks load error: ", e.as_str());
                },
            },
            CommandOutcome::QueueLoaded { result } => match result {
                Ok(tracks) => {
                    self.queue.selected = refit_cursor(self.queue.selected, tracks.len());
                    self.queue.tracks = tracks;
                    self.queue.is_loading = false;
                },
                Err(e) => {
                    self.queue.is_loading = false;
                    self.notify_error_with("Queue load error: ", e.as_str());
                },
            },
            CommandOutcome::VibesLoaded { result } => match result {
                Ok(tracks) => {
                    let count = tracks.len();
                    self.vibes.selected_track =
                        refit_cursor(self.vibes.selected_track, tracks.len());
                    self.vibes.recommendations = tracks;
                    self.vibes.is_loading = false;
                    self.notify_count("Generated ", count, " recommendations");
                },
                Err(e) => {
                    self.vibes.is_loading = false;
                    self.notify_error_with("Vibes error: ", e.as_str());
                },
            },
        }
    }

    /// Move the active screen's selection one step up; an empty list (and
    /// the top of a list) leaves the cursor untouched.
    pub fn navigate_up(&mut self)
        ensures
            navigated_up(*old(self), *final(self)),
            old(self).wf() ==> final(self).wf(),
    {
        match self.active_screen {
            ActiveScreen::Search => {
                if self.search.selected_track > 0 {
                    self.search.selected_track = self.search.selected_track - 1;
                }
            },
            ActiveScreen::Library => {
                if self.library.selected > 0 {
                    self.library.selected = self.library.selected - 1;
                }
            },
            ActiveScreen::Playlists => {
                if self.playlists.viewing_tracks {
                    if self.playlists.selected_track > 0 {
                        self.playlists.selected_track = self.playlists.selected_track - 1;
                    }
                } else if self.playlists.selected_playlist > 0 {
                    self.playlists.selected_playlist = self.playlists.selected_playlist - 1;
                }
            },
            ActiveScreen::Queue => {
                if self.queue.selected > 0 {
                    self.queue.selected = self.queue.selected - 1;
                }
            },
            ActiveScreen::Vibes => {
                if self.vibes.selected_mood > 0 && self.vibes.recommendations.len() > 0 {
                    if self.vibes.selected_track > 0 {
                        self.vibes.selected_track = self.vibes.selected_track - 1;
                    }
                } else if self.vibes.selected_mood > 0 {
                    self.vibes.selected_mood = self.vibes.selected_mood - 1;
                }
            },
        }
    }

    /// Move the active screen's selection one step down; an empty list
    /// (and the end of a list) leaves the cursor untouched.
    pub fn navigate_down(&mut self)
        ensures
            navigated_down(*old(self), *final(self)),
            old(self).wf() ==> final(self).wf(),
    {
        match self.active_screen {
            ActiveScreen::Search => {
                let max = self.search.tracks.len().saturating_sub(1);
                if self.search.selected_track < max {
                    self.search.selected_track = self.search.selected_track + 1;
                }
            },
            ActiveScreen::Library => {
                let max = self.library.liked_songs.len().saturating_sub(1);
                if self.library.selected < max {
                    self.library.selected = self.library.selected + 1;
                }
            },
            ActiveScreen::Playlists => {
                if self.playlists.viewing_tracks {
                    let max = self.playlists.playlist_tracks.len().saturating_sub(1);
                    if self.playlists.selected_track < max {
                        self.playlists.selected_track = self.playlists.selected_track + 1;
                    }
                } else {
                    let max = self.playlists.playlists.len().saturating_sub(1);
                    if self.playlists.selected_playlist < max {
                        self.playlists.selected_playlist = self.playlists.selected_playlist + 1;
                    }
                }
            },
            ActiveScreen::Queue => {
                let max = self.queue.tracks.len().saturating_sub(1);
                if self.queue.selected < max {
                    self.queue.selected = self.queue.selected + 1;
                }
            },
            ActiveScreen::Vibes => {
                if self.vibes.recommendations.len() > 0 {
                    let max = self.vibes.recommendations.len().saturating_sub(1);
                    if self.vibes.selected_track < max {
                        self.vibes.selected_track = self.vibes.selected_track + 1;
                    }
                } else {
                    if self.vibes.selected_mood < MOOD_COUNT - 1 {
                        self.vibes.selected_mood = self.vibes.selected_mood + 1;
                    }
                }
            },
        }
    }
}

} // verus!
