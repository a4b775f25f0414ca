//! The session state: one mutable aggregate holding the active screen,
//! per-screen sub-state, the now-playing snapshot, the transient
//! notification and the animation counters.

use vstd::prelude::*;

use crate::text;

verus! {

/// Milliseconds between two fast (animation) ticks.
pub const FAST_TICK_MS: u32 = 80;

/// How many ticks an informational notification stays up.
pub const INFO_TICKS: u8 = 30;

/// How many ticks an error notification stays up.
pub const ERROR_TICKS: u8 = 40;

/// Number of equalizer bars.
pub const EQ_BAR_COUNT: usize = 24;

/// Lowest height an equalizer bar may take.
pub const EQ_BAR_MIN: u8 = 1;

/// Highest height an equalizer bar may take.
pub const EQ_BAR_MAX: u8 = 12;

/// Number of moods offered on the vibes screen.
pub const MOOD_COUNT: usize = 5;

/// The five screens the session can show.
#[derive(Debug, Clone, Copy, PartialEq, Eq, Structural)]
pub enum ActiveScreen {
    Search,
    Library,
    Playlists,
    Queue,
    Vibes,
}

impl Default for ActiveScreen {
    fn default() -> (r: Self)
        ensures
            r == ActiveScreen::Search,
    {
        ActiveScreen::Search
    }
}

/// One playable list entry: the remote identifier (when the item is
/// playable at all) and the display name.
#[derive(Debug, Clone)]
pub struct TrackEntry {
    pub uri: Option<String>,
    pub name: String,
}

/// One playlist as listed for the user: remote id and display name.
#[derive(Debug, Clone)]
pub struct PlaylistEntry {
    pub id: String,
    pub name: String,
}

/// The now-playing snapshot.
#[derive(Debug, Clone)]
pub struct CurrentTrack {
    pub id: Option<String>,
    pub name: String,
    pub artists: Vec<String>,
    pub album: String,
    pub duration_ms: u32,
    pub progress_ms: u32,
    pub is_playing: bool,
    pub is_liked: bool,
    pub album_art_url: Option<String>,
    pub device_volume: Option<u8>,
}

impl Default for CurrentTrack {
    fn default() -> (r: Self)
        ensures
            r.id is None,
            r.name@ == Seq::<char>::empty(),
            r.artists@ == Seq::<String>::empty(),
            r.album@ == Seq::<char>::empty(),
            r.duration_ms == 0,
            r.progress_ms == 0,
            !r.is_playing,
            !r.is_liked,
            r.album_art_url is None,
            r.device_volume is None,
    {
        CurrentTrack {
            id: None,
            name: String::new(),
            artists: Vec::new(),
            album: String::new(),
            duration_ms: 0,
            progress_ms: 0,
            is_playing: false,
            is_liked: false,
            album_art_url: None,
            device_volume: None,
        }
    }
}

/// Playback progress as a fraction of the duration, in thousandths,
/// clamped to the unit interval and zero for a zero-length track.
pub open spec fn spec_progress_permille(t: CurrentTrack) -> int {
    if t.duration_ms == 0 {
        0
    } else if t.progress_ms * 1000 / (t.duration_ms as int) > 1000 {
        1000
    } else {
        t.progress_ms * 1000 / (t.duration_ms as int)
    }
}

impl CurrentTrack {
    /// Playback progress in thousandths of the duration, clamped to
    /// `[0, 1000]`; zero whenever the duration is zero.
    pub fn progress_permille(&self) -> (r: u32)
        ensures
            r == spec_progress_permille(*self),
            r <= 1000,
    {
        if self.duration_ms == 0 {
            0
        } else {
            let q = (self.progress_ms as u64) * 1000 / (self.duration_ms as u64);
            if q > 1000 {
                1000
            } else {
                q as u32
            }
        }
    }

    /// The progress clock shown under the title: `M:SS / M:SS`, seconds
    /// zero-padded, progress first and duration second.
    pub fn progress_formatted(&self) -> (r: String)
        ensures
            r@ == text::spec_clock((self.progress_ms / 1000) as nat) + " / "@
                + text::spec_clock((self.duration_ms / 1000) as nat),
    {
        let mut r = text::clock_str(self.progress_ms / 1000);
        r.append(" / ");
        let dur = text::clock_str(self.duration_ms / 1000);
        r.append(dur.as_str());
        r
    }
}

/// A transient message shown to the user; it counts down and disappears.
#[derive(Debug, Clone)]
pub struct Notification {
    pub message: String,
    pub remaining_ticks: u8,
    pub is_error: bool,
}

impl Notification {
    /// An informational notification with the standard countdown.
    pub fn info(msg: &str) -> (r: Self)
        ensures
            r.message@ == msg@,
            r.remaining_ticks == INFO_TICKS,
            !r.is_error,
    {
        Notification { message: msg.to_owned(), remaining_ticks: INFO_TICKS, is_error: false }
    }

    /// An error notification; it stays up a little longer.
    pub fn error(msg: &str) -> (r: Self)
        ensures
            r.message@ == msg@,
            r.remaining_ticks == ERROR_TICKS,
            r.is_error,
    {
        Notification { message: msg.to_owned(), remaining_ticks: ERROR_TICKS, is_error: true }
    }
}

/// Sub-state of the search screen.
#[derive(Debug, Clone)]
pub struct SearchState {
    pub query: String,
    pub tracks: Vec<TrackEntry>,
    pub selected_track: usize,
    pub is_searching: bool,
}

/// Sub-state of the library (liked songs) screen.
#[derive(Debug, Clone)]
pub struct LibraryState {
    pub liked_songs: Vec<TrackEntry>,
    pub selected: usize,
    pub is_loading: bool,
}

/// Sub-state of the playlists screen: a 2-level hierarchy of the playlist
/// list and, once one is entered, that playlist's tracks.
#[derive(Debug, Clone)]
pub struct PlaylistsState {
    pub playlists: Vec<PlaylistEntry>,
    pub selected_playlist: usize,
    pub playlist_tracks: Vec<TrackEntry>,
    pub selected_track: usize,
    pub viewing_tracks: bool,
    pub is_loading: bool,
}

/// Sub-state of the queue screen.
#[derive(Debug, Clone)]
pub struct QueueState {
    pub tracks: Vec<TrackEntry>,
    pub selected: usize,
    pub is_loading: bool,
}

/// The moods offered for recommendations.
#[derive(Debug, Clone, Copy, PartialEq, Eq, Structural)]
pub enum VibesMood {
    Chill,
    Hype,
    Focus,
    Happy,
    Dark,
}

impl VibesMood {
    /// The label a mood shows in the mood list.
    pub fn label(&self) -> (r: &'static str)
        ensures
            r@ == match *self {
                VibesMood::Chill => "🌊 Chill"@,
                VibesMood::Hype => "⚡ Hype"@,
                VibesMood::Focus => "🎯 Focus"@,
                VibesMood::Happy => "✨ Happy"@,
                VibesMood::Dark => "🌑 Dark"@,
            },
    {
        match self {
            VibesMood::Chill => "🌊 Chill",
            VibesMood::Hype => "⚡ Hype",
            VibesMood::Focus => "🎯 Focus",
            VibesMood::Happy => "✨ Happy",
            VibesMood::Dark => "🌑 Dark",
        }
    }

    /// The remote search query a mood stands for; the recommendation
    /// lookup is a keyword search with these mood-appropriate terms.
    pub fn query(&self) -> (r: &'static str)
        ensures
            r@ == match *self {
                VibesMood::Chill => "genre:chill lo-fi relaxing"@,
                VibesMood::Hype => "genre:edm hype energy bass"@,
                VibesMood::Focus => "genre:classical focus study ambient"@,
                VibesMood::Happy => "genre:pop happy upbeat feel good"@,
                VibesMood::Dark => "genre:metal dark heavy intense"@,
            },
    {
        match self {
            VibesMood::Chill => "genre:chill lo-fi relaxing",
            VibesMood::Hype => "genre:edm hype energy bass",
            VibesMood::Focus => "genre:classical focus study ambient",
            VibesMood::Happy => "genre:pop happy upbeat feel good",
            VibesMood::Dark => "genre:metal dark heavy intense",
        }
    }
}

/// Sub-state of the vibes screen: a mood cursor and, once a lookup ran,
/// the recommended tracks.
#[derive(Debug, Clone)]
pub struct VibesState {
    pub selected_mood: usize,
    pub recommendations: Vec<TrackEntry>,
    pub selected_track: usize,
    pub is_loading: bool,
}

/// The notification after one countdown tick: counting down while the
/// countdown is positive, gone once it was zero.
pub open spec fn spec_tick_note(o: Option<Notification>) -> Option<Notification> {
    match o {
        None => None,
        Some(n) => if n.remaining_ticks > 0 {
            Some(Notification { remaining_ticks: (n.remaining_ticks - 1) as u8, ..n })
        } else {
            None
        },
    }
}

/// A selection cursor is valid for a list: inside the list when the list
/// is non-empty, pinned to zero when it is empty.
pub open spec fn cursor_ok(sel: usize, len: nat) -> bool {
    if len == 0 {
        sel == 0
    } else {
        sel < len
    }
}

/// The whole session state.
pub struct AppState {
    pub active_screen: ActiveScreen,
    pub previous_screen: Option<ActiveScreen>,
    pub current_track: CurrentTrack,
    pub volume: u8,
    pub search: SearchState,
    pub library: LibraryState,
    pub playlists: PlaylistsState,
    pub queue: QueueState,
    pub vibes: VibesState,
    pub notification: Option<Notification>,
    pub show_help: bool,
    pub should_quit: bool,
    pub eq_bars: Vec<u8>,
    pub eq_tick: u64,
    pub eq_expanded: bool,
    pub ticker_offset: usize,
    pub ticker_tick: u64,
    pub is_authenticated: bool,
    pub auth_url: Option<String>,
    pub cached_device_id: Option<String>,
}

impl AppState {
    /// Well-formedness: every selection cursor is valid for its list, the
    /// equalizer bars stay in their band, the volume is a percentage, and
    /// playback progress never exceeds the track duration.
    pub open spec fn wf(&self) -> bool {
        &&& cursor_ok(self.search.selected_track, self.search.tracks@.len())
        &&& cursor_ok(self.library.selected, self.library.liked_songs@.len())
        &&& cursor_ok(self.playlists.selected_playlist, self.playlists.playlists@.len())
        &&& cursor_ok(self.playlists.selected_track, self.playlists.playlist_tracks@.len())
        &&& cursor_ok(self.queue.selected, self.queue.tracks@.len())
        &&& cursor_ok(self.vibes.selected_track, self.vibes.recommendations@.len())
        &&& self.vibes.selected_mood < MOOD_COUNT
        &&& self.eq_bars@.len() == EQ_BAR_COUNT
        &&& (forall|i: int| 0 <= i < self.eq_bars@.len() ==>
            EQ_BAR_MIN <= #[trigger] self.eq_bars@[i] <= EQ_BAR_MAX)
        &&& self.volume <= 100
        &&& self.current_track.progress_ms <= self.current_track.duration_ms
    }
}

impl Default for AppState {
    /// The startup state: search screen active, no history, everything
    /// empty, volume at 50, and a fixed starting silhouette for the bars.
    fn default() -> (r: Self)
        ensures
            r.wf(),
            r.active_screen == ActiveScreen::Search,
            r.previous_screen is None,
            r.current_track.duration_ms == 0,
            r.current_track.progress_ms == 0,
            !r.current_track.is_playing,
            r.volume == 50,
            r.search.query@ == Seq::<char>::empty(),
            r.search.tracks@ == Seq::<TrackEntry>::empty(),
            r.search.selected_track == 0,
            !r.search.is_searching,
            r.library.liked_songs@ == Seq::<TrackEntry>::empty(),
            r.library.selected == 0,
            !r.library.is_loading,
            r.playlists.playlists@ == Seq::<PlaylistEntry>::empty(),
            r.playlists.selected_playlist == 0,
            r.playlists.playlist_tracks@ == Seq::<TrackEntry>::empty(),
            r.playlists.selected_track == 0,
            !r.playlists.viewing_tracks,
            !r.playlists.is_loading,
            r.queue.tracks@ == Seq::<TrackEntry>::empty(),
            r.queue.selected == 0,
            !r.queue.is_loading,
            r.vibes.selected_mood == 0,
            r.vibes.recommendations@ == Seq::<TrackEntry>::empty(),
            r.vibes.selected_track == 0,
            !r.vibes.is_loading,
            r.notification is None,
            !r.show_help,
            !r.should_quit,
            r.eq_bars@ == seq![
                4u8, 6, 8, 5, 7, 9, 4, 6, 8, 5, 7, 6, 4, 8, 5, 7, 9, 3, 6, 8, 5, 7, 4, 6,
            ],
            r.eq_tick == 0,
            !r.eq_expanded,
            r.ticker_offset == 0,
            r.ticker_tick == 0,
            !r.is_authenticated,
            r.auth_url is None,
            r.cached_device_id is None,
    {
        let eq_bars: Vec<u8> = vec![
            4, 6, 8, 5, 7, 9, 4, 6, 8, 5, 7, 6, 4, 8, 5, 7, 9, 3, 6, 8, 5, 7, 4, 6,
        ];
        proof {
            assert(eq_bars@ =~= seq![
                4u8, 6, 8, 5, 7, 9, 4, 6, 8, 5, 7, 6, 4, 8, 5, 7, 9, 3, 6, 8, 5, 7, 4, 6,
            ]);
        }
        AppState {
            active_screen: ActiveScreen::Search,
            previous_screen: None,
            current_track: CurrentTrack::default(),
            volume: 50,
            search: SearchState {
                query: String::new(),
                tracks: Vec::new(),
                selected_track: 0,
                is_searching: false,
            },
            library: LibraryState { liked_songs: Vec::new(), selected: 0, is_loading: false },
            playlists: PlaylistsState {
                playlists: Vec::new(),
                selected_playlist: 0,
                playlist_tracks: Vec::new(),
                selected_track: 0,
                viewing_tracks: false,
                is_loading: false,
            },
            queue: QueueState { tracks: Vec::new(), selected: 0, is_loading: false },
            vibes: VibesState {
                selected_mood: 0,
                recommendations: Vec::new(),
                selected_track: 0,
                is_loading: false,
            },
            notification: None,
            show_help: false,
            should_quit: false,
            eq_bars,
            eq_tick: 0,
            eq_expanded: false,
            ticker_offset: 0,
            ticker_tick: 0,
            is_authenticated: false,
            auth_url: None,
            cached_device_id: None,
        }
    }
}

impl AppState {
    /// Move to another screen.  Moving to the screen already shown is a
    /// no-op; otherwise the screen left behind is remembered exactly once.
    pub fn navigate_to(&mut self, screen: ActiveScreen)
        ensures
            old(self).active_screen == screen ==> *final(self) == *old(self),
            old(self).active_screen != screen ==> *final(self) == (AppState {
                active_screen: screen,
                previous_screen: Some(old(self).active_screen),
                ..*old(self)
            }),
    {
        if self.active_screen != screen {
            self.previous_screen = Some(self.active_screen);
            self.active_screen = screen;
        }
    }

    /// Show a notification, replacing any notification already up.
    pub fn set_notification(&mut self, n: Notification)
        ensures
            *final(self) == (AppState { notification: Some(n), ..*old(self) }),
    {
        self.notification = Some(n);
    }

    /// One animation tick of the notification: count down while the
    /// countdown is positive, remove the notification once it hits zero.
    pub fn tick_notification(&mut self)
        ensures
            final(self).notification == spec_tick_note(old(self).notification),
            old(self).notification is None ==> *final(self) == *old(self),
            old(self).notification matches Some(n) ==> {
                &&& n.remaining_ticks > 0 ==> *final(self) == (AppState {
                    notification: Some(Notification {
                        remaining_ticks: (n.remaining_ticks - 1) as u8,
                        ..n
                    }),
                    ..*old(self)
                })
                &&& n.remaining_ticks == 0 ==> *final(self) == (AppState {
                    notification: None,
                    ..*old(self)
                })
            },
    {
        let expired = match &self.notification {
            Some(n) => n.remaining_ticks == 0,
            None => false,
        };
        if expired {
            self.notification = None;
        } else if let Some(n) = self.notification.as_mut() {
            n.remaining_ticks = n.remaining_ticks - 1;
        }
    }

    /// One fast tick of the progress bar: while playing, progress creeps
    /// forward by the tick length, clamped to the duration, so the bar
    /// moves smoothly between authoritative polls.
    pub fn advance_progress(&mut self)
        requires
            old(self).current_track.progress_ms <= old(self).current_track.duration_ms,
        ensures
            *final(self) == (AppState {
                current_track: CurrentTrack {
                    progress_ms: final(self).current_track.progress_ms,
                    ..old(self).current_track
                },
                ..*old(self)
            }),
            final(self).current_track.progress_ms == if old(self).current_track.is_playing {
                vstd::math::min(
                    old(self).current_track.progress_ms + FAST_TICK_MS,
                    old(self).current_track.duration_ms as int,
                )
            } else {
                old(self).current_track.progress_ms as int
            },
    {
        if self.current_track.is_playing {
            let progress = self.current_track.progress_ms;
            let duration = self.current_track.duration_ms;
            self.current_track.progress_ms = if duration - progress > FAST_TICK_MS {
                progress + FAST_TICK_MS
            } else {
                duration
            };
        }
    }

    /// One fast tick of the title ticker: every fifth tick the scroll
    /// offset steps forward, wrapping around the title length.
    pub fn tick_ticker(&mut self)
        ensures
            *final(self) == (AppState {
                ticker_tick: final(self).ticker_tick,
                ticker_offset: final(self).ticker_offset,
                ..*old(self)
            }),
            final(self).ticker_tick == vstd::wrapping::u64_specs::wrapping_add(
                old(self).ticker_tick,
                1,
            ),
            final(self).ticker_offset == {
                let len = vstd::math::max(old(self).current_track.name@.len() as int, 1);
                if vstd::wrapping::u64_specs::wrapping_add(old(self).ticker_tick, 1) % 5 == 0 {
                    if old(self).ticker_offset + 1 >= len {
                        0
                    } else {
                        old(self).ticker_offset + 1
                    }
                } else {
                    old(self).ticker_offset as int
                }
            },
    {
        self.ticker_tick = self.ticker_tick.wrapping_add(1);
        if self.ticker_tick % 5 == 0 {
            let n = self.current_track.name.as_str().unicode_len();
            let len = if n == 0 { 1 } else { n };
            self.ticker_offset = if self.ticker_offset >= len - 1 {
                0
            } else {
                self.ticker_offset + 1
            };
        }
    }

    /// Merge one authoritative playback snapshot: the device volume, when
    /// reported, overwrites the optimistic local volume, and the snapshot
    /// replaces the now-playing state wholesale, with progress clamped to
    /// the duration.
    pub fn apply_snapshot(&mut self, ct: CurrentTrack)
        ensures
            *final(self) == (AppState {
                volume: final(self).volume,
                current_track: final(self).current_track,
                ..*old(self)
            }),
            final(self).volume == match ct.device_volume {
                Some(v) => vstd::math::min(v as int, 100),
                None => old(self).volume as int,
            },
            final(self).current_track == (CurrentTrack {
                progress_ms: vstd::math::min(ct.progress_ms as int, ct.duration_ms as int) as u32,
                ..ct
            }),
            old(self).wf() ==> final(self).wf(),
    {
        if let Some(v) = ct.device_volume {
            self.volume = if v > 100 {
                100
            } else {
                v
            };
        }
        let mut ct = ct;
        if ct.progress_ms > ct.duration_ms {
            ct.progress_ms = ct.duration_ms;
        }
        self.current_track = ct;
    }
}

/// Relies on rand's `random_range`: a uniformly random value inside the
/// given (non-empty) range, here one equalizer nudge in `[-3, 3]`.
#[verifier::external_body]
fn random_step() -> (r: i8)
    ensures
        -3 <= r <= 3,
{
    rand::random_range(-3..=3)
}

impl AppState {
    /// One fast tick of the equalizer: while playing, every bar takes a
    /// bounded random nudge; while paused, every bar decays one step
    /// toward rest.  Bars never leave `[EQ_BAR_MIN, EQ_BAR_MAX]`.
    pub fn update_eq_bars(&mut self)
        requires
            old(self).eq_bars@.len() == EQ_BAR_COUNT,
            forall|i: int| 0 <= i < old(self).eq_bars@.len() ==>
                EQ_BAR_MIN <= #[trigger] old(self).eq_bars@[i] <= EQ_BAR_MAX,
        ensures
            *final(self) == (AppState {
                eq_bars: final(self).eq_bars,
                eq_tick: final(self).eq_tick,
                ..*old(self)
            }),
            final(self).eq_tick == vstd::wrapping::u64_specs::wrapping_add(old(self).eq_tick, 1),
            final(self).eq_bars@.len() == EQ_BAR_COUNT,
            forall|i: int| 0 <= i < final(self).eq_bars@.len() ==>
                EQ_BAR_MIN <= #[trigger] final(self).eq_bars@[i] <= EQ_BAR_MAX,
            old(self).current_track.is_playing ==> forall|i: int|
                0 <= i < final(self).eq_bars@.len() ==>
                    -3 <= #[trigger] final(self).eq_bars@[i] - old(self).eq_bars@[i] <= 3,
            !old(self).current_track.is_playing ==> forall|i: int|
                0 <= i < final(self).eq_bars@.len() ==>
                    #[trigger] final(self).eq_bars@[i] == spec_decayed(old(self).eq_bars@[i]),
    {
        self.eq_tick = self.eq_tick.wrapping_add(1);
        let mut new_bars: Vec<u8> = Vec::new();
        let playing = self.current_track.is_playing;
        let mut i: usize = 0;
        while i < self.eq_bars.len()
            invariant
                self.eq_bars@.len() == EQ_BAR_COUNT,
                forall|j: int| 0 <= j < self.eq_bars@.len() ==>
                    EQ_BAR_MIN <= #[trigger] self.eq_bars@[j] <= EQ_BAR_MAX,
                i <= self.eq_bars@.len(),
                new_bars@.len() == i,
                forall|j: int| 0 <= j < i ==>
                    EQ_BAR_MIN <= #[trigger] new_bars@[j] <= EQ_BAR_MAX,
                playing ==> forall|j: int| 0 <= j < i ==>
                    -3 <= #[trigger] new_bars@[j] - self.eq_bars@[j] <= 3,
                !playing ==> forall|j: int| 0 <= j < i ==>
                    #[trigger] new_bars@[j] == spec_decayed(self.eq_bars@[j]),
            decreases self.eq_bars@.len() - i,
        {
            let bar = self.eq_bars[i];
            let next = if playing {
                let t = bar as i16 + random_step() as i16;
                if t < EQ_BAR_MIN as i16 {
                    EQ_BAR_MIN
                } else if t > EQ_BAR_MAX as i16 {
                    EQ_BAR_MAX
                } else {
                    t as u8
                }
            } else {
                if bar > EQ_BAR_MIN {
                    bar - 1
                } else {
                    bar
                }
            };
            new_bars.push(next);
            i = i + 1;
        }
        self.eq_bars = new_bars;
    }
}

/// One paused-decay step of a bar: down one, stopping at the minimum.
pub open spec fn spec_decayed(bar: u8) -> u8 {
    if bar > EQ_BAR_MIN {
        (bar - 1) as u8
    } else {
        bar
    }
}

/// What the title line shows: a title that fits is shown whole; a longer
/// one is padded with three spaces, rotated by the ticker offset, and cut
/// to the width.
pub open spec fn spec_display_title(name: Seq<char>, offset: nat, max_width: nat) -> Seq<char> {
    if name.len() <= max_width {
        name
    } else {
        let padded = name + seq![' ', ' ', ' '];
        let off = offset % padded.len();
        (padded.skip(off as int) + padded.take(off as int)).take(max_width as int)
    }
}

impl AppState {
    /// The now-playing title as shown in a window of the given width,
    /// scrolled by the current ticker offset when it does not fit.
    pub fn get_display_title(&self, max_width: usize) -> (r: String)
        requires
            self.current_track.name@.len() + 3 <= usize::MAX,
        ensures
            r@ == spec_display_title(
                self.current_track.name@,
                self.ticker_offset as nat,
                max_width as nat,
            ),
    {
        let name = self.current_track.name.as_str();
        let name_len = name.unicode_len();
        if name_len <= max_width {
            return self.current_track.name.clone();
        }
        let padded = self.current_track.name.clone().concat("   ");
        let plen = name_len + 3;
        proof {
            reveal_strlit("   ");
            assert(padded@ =~= self.current_track.name@ + seq![' ', ' ', ' ']);
        }
        let off = self.ticker_offset % plen;
        let mut rotated = String::from_str(padded.as_str().substring_char(off, plen));
        rotated.append(padded.as_str().substring_char(0, off));
        let r = rotated.as_str().substring_char(0, max_width).to_owned();
        proof {
            assert(r@ =~= spec_display_title(
                self.current_track.name@,
                self.ticker_offset as nat,
                max_width as nat,
            ));
        }
        r
    }

    /// One wake of the fast timer: the equalizer and the title ticker
    /// advance, an active notification counts down, and while playing the
    /// progress bar creeps forward by one tick length.
    pub fn on_fast_tick(&mut self)
        requires
            old(self).wf(),
        ensures
            final(self).wf(),
            (AppState {
                eq_bars: old(self).eq_bars,
                eq_tick: old(self).eq_tick,
                ticker_offset: old(self).ticker_offset,
                ticker_tick: old(self).ticker_tick,
                notification: old(self).notification,
                current_track: old(self).current_track,
                ..*final(self)
            }) == *old(self),
            final(self).current_track == (CurrentTrack {
                progress_ms: final(self).current_track.progress_ms,
                ..old(self).current_track
            }),
            final(self).current_track.progress_ms == if old(self).current_track.is_playing {
                vstd::math::min(
                    old(self).current_track.progress_ms + FAST_TICK_MS,
                    old(self).current_track.duration_ms as int,
                )
            } else {
                old(self).current_track.progress_ms as int
            },
            final(self).notification == spec_tick_note(old(self).notification),
            old(self).notification is None ==> final(self).notification is None,
            old(self).notification matches Some(n) ==> {
                &&& n.remaining_ticks > 0 ==> final(self).notification == Some(Notification {
                    remaining_ticks: (n.remaining_ticks - 1) as u8,
                    ..n
                })
                &&& n.remaining_ticks == 0 ==> final(self).notification is None
            },
            final(self).eq_tick == vstd::wrapping::u64_specs::wrapping_add(old(self).eq_tick, 1),
            final(self).ticker_tick == vstd::wrapping::u64_specs::wrapping_add(
                old(self).ticker_tick,
                1,
            ),
            final(self).ticker_offset == {
                let len = vstd::math::max(old(self).current_track.name@.len() as int, 1);
                if vstd::wrapping::u64_specs::wrapping_add(old(self).ticker_tick, 1) % 5 == 0 {
                    if old(self).ticker_offset + 1 >= len {
                        0
                    } else {
                        old(self).ticker_offset + 1
                    }
                } else {
                    old(self).ticker_offset as int
                }
            },
            final(self).eq_bars@.len() == EQ_BAR_COUNT,
            old(self).current_track.is_playing ==> forall|i: int|
                0 <= i < final(self).eq_bars@.len() ==>
                    -3 <= #[trigger] final(self).eq_bars@[i] - old(self).eq_bars@[i] <= 3,
            !old(self).current_track.is_playing ==> forall|i: int|
                0 <= i < final(self).eq_bars@.len() ==>
                    #[trigger] final(self).eq_bars@[i] == spec_decayed(old(self).eq_bars@[i]),
    {
        self.update_eq_bars();
        self.tick_ticker();
        self.tick_notification();
        self.advance_progress();
    }
}

} // verus!
