//! Library-wide laws: properties that relate several operations, stated
//! once over the spec functions the operations' contracts use.

use vstd::prelude::*;

use crate::dispatch::navigated_down;
use crate::dispatch::navigated_up;
use crate::state::spec_decayed;
use crate::state::spec_tick_note;
use crate::state::ActiveScreen;
use crate::state::AppState;
use crate::state::Notification;
use crate::state::EQ_BAR_MAX;
use crate::state::EQ_BAR_MIN;
use crate::state::MOOD_COUNT;

verus! {

/// The notification after `k` countdown ticks.
pub open spec fn spec_tick_note_n(o: Option<Notification>, k: nat) -> Option<Notification>
    decreases k,
{
    if k == 0 {
        o
    } else {
        spec_tick_note(spec_tick_note_n(o, (k - 1) as nat))
    }
}

/// A notification with countdown `n` is still showing after any `k <= n`
/// ticks, with `n - k` ticks left on it.
pub proof fn lemma_notification_counts_down(note: Notification, k: nat)
    requires
        k <= note.remaining_ticks,
    ensures
        spec_tick_note_n(Some(note), k) == Some(Notification {
            remaining_ticks: (note.remaining_ticks - k) as u8,
            ..note
        }),
    decreases k,
{
    if k > 0 {
        lemma_notification_counts_down(note, (k - 1) as nat);
    }
}

/// After `n + 1` ticks, a notification with countdown `n` is gone: it is
/// present for exactly `n + 1` tick boundaries and absent from then on.
pub proof fn lemma_notification_expires(note: Notification)
    ensures
        spec_tick_note_n(Some(note), (note.remaining_ticks + 1) as nat) is None,
{
    lemma_notification_counts_down(note, note.remaining_ticks as nat);
}

/// All equalizer bars sit inside the displayable band.
pub open spec fn bars_in_band(bars: Seq<u8>) -> bool {
    forall|i: int| 0 <= i < bars.len() ==> EQ_BAR_MIN <= #[trigger] bars[i] <= EQ_BAR_MAX
}

/// One paused fast tick of the whole bar array.
pub open spec fn spec_decay_bars(bars: Seq<u8>) -> Seq<u8> {
    bars.map_values(|b: u8| spec_decayed(b))
}

/// The bar array after `k` paused fast ticks.
pub open spec fn spec_decay_bars_n(bars: Seq<u8>, k: nat) -> Seq<u8>
    decreases k,
{
    if k == 0 {
        bars
    } else {
        spec_decay_bars(spec_decay_bars_n(bars, (k - 1) as nat))
    }
}

/// However many paused fast ticks pass, bars that sit in the band stay in
/// the band.  (A playing tick returns bars to the band by the contract of
/// the tick itself, whatever its random nudges were, so the band is kept
/// under any mix of playing and paused ticks.)
pub proof fn lemma_decay_stays_in_band(bars: Seq<u8>, k: nat)
    requires
        bars_in_band(bars),
    ensures
        bars_in_band(spec_decay_bars_n(bars, k)),
        spec_decay_bars_n(bars, k).len() == bars.len(),
    decreases k,
{
    if k > 0 {
        lemma_decay_stays_in_band(bars, (k - 1) as nat);
        let prev = spec_decay_bars_n(bars, (k - 1) as nat);
        assert forall|i: int| 0 <= i < spec_decay_bars(prev).len() implies EQ_BAR_MIN
            <= #[trigger] spec_decay_bars(prev)[i] <= EQ_BAR_MAX by {
            assert(spec_decay_bars(prev)[i] == spec_decayed(prev[i]));
        }
    }
}

/// Navigating up or down over an empty list moves nothing: on the screens
/// that browse one list, the whole state is untouched; on the vibes
/// screen with no recommendations, the track cursor is untouched and the
/// mood cursor stays inside the mood list.  No cursor ever underflows,
/// since the moves are saturating by definition.
pub proof fn lemma_empty_list_navigation(pre: AppState, post: AppState, down: bool)
    requires
        pre.wf(),
        down ==> navigated_down(pre, post),
        !down ==> navigated_up(pre, post),
    ensures
        pre.active_screen == ActiveScreen::Search && pre.search.tracks@.len() == 0 ==> post
            == pre,
        pre.active_screen == ActiveScreen::Library && pre.library.liked_songs@.len() == 0 ==> post
            == pre,
        pre.active_screen == ActiveScreen::Queue && pre.queue.tracks@.len() == 0 ==> post == pre,
        pre.active_screen == ActiveScreen::Playlists && pre.playlists.viewing_tracks
            && pre.playlists.playlist_tracks@.len() == 0 ==> post == pre,
        pre.active_screen == ActiveScreen::Playlists && !pre.playlists.viewing_tracks
            && pre.playlists.playlists@.len() == 0 ==> post == pre,
        pre.active_screen == ActiveScreen::Vibes && pre.vibes.recommendations@.len() == 0 ==> {
            &&& post.vibes.selected_track == pre.vibes.selected_track
            &&& post.vibes.selected_mood < MOOD_COUNT
        },
{
}

} // verus!
