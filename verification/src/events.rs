//! The action vocabulary: the closed set of user intents, and the pure
//! mapping from raw key presses to intents.

use vstd::prelude::*;

verus! {

/// A raw key press, reduced to the keys the controller reacts to.
#[derive(Debug, Clone, Copy, PartialEq, Eq, Structural)]
pub enum KeyPress {
    Up,
    Down,
    Left,
    Right,
    Enter,
    Esc,
    Backspace,
    Char(char),
    Other,
}

/// Everything the user can ask the controller to do.
#[derive(Debug, Clone, Copy, PartialEq, Eq, Structural)]
pub enum UserAction {
    Quit,
    ToggleHelp,
    NavigateUp,
    NavigateDown,
    NavigateLeft,
    NavigateRight,
    Select,
    Back,
    TogglePlay,
    NextTrack,
    PrevTrack,
    VolumeUp,
    VolumeDown,
    LikeTrack,
    AddToQueue,
    OpenSearch,
    SearchInput(char),
    SearchBackspace,
    SearchSubmit,
    SwitchScreen(u8),
    SeekForward,
    SeekBackward,
    ToggleEQ,
}

/// The key map while the user is composing a search query: only cancel,
/// submit, delete and character entry are recognized, so typing never
/// triggers navigation or playback keys.
pub open spec fn spec_search_key_action(key: KeyPress) -> Option<UserAction> {
    match key {
        KeyPress::Esc => Some(UserAction::Back),
        KeyPress::Enter => Some(UserAction::SearchSubmit),
        KeyPress::Backspace => Some(UserAction::SearchBackspace),
        KeyPress::Char(c) => Some(UserAction::SearchInput(c)),
        _ => None,
    }
}

/// The key map outside text entry.
pub open spec fn spec_normal_key_action(key: KeyPress) -> Option<UserAction> {
    match key {
        KeyPress::Up => Some(UserAction::NavigateUp),
        KeyPress::Down => Some(UserAction::NavigateDown),
        KeyPress::Left => Some(UserAction::NavigateLeft),
        KeyPress::Right => Some(UserAction::NavigateRight),
        KeyPress::Enter => Some(UserAction::Select),
        KeyPress::Esc => Some(UserAction::Back),
        KeyPress::Char(c) => {
            if c == 'q' { Some(UserAction::Quit) }
            else if c == '?' { Some(UserAction::ToggleHelp) }
            else if c == 'k' { Some(UserAction::NavigateUp) }
            else if c == 'j' { Some(UserAction::NavigateDown) }
            else if c == 'h' { Some(UserAction::NavigateLeft) }
            else if c == 'b' { Some(UserAction::Back) }
            else if c == ' ' { Some(UserAction::TogglePlay) }
            else if c == 'n' { Some(UserAction::NextTrack) }
            else if c == 'p' { Some(UserAction::PrevTrack) }
            else if c == '+' || c == '=' { Some(UserAction::VolumeUp) }
            else if c == '-' { Some(UserAction::VolumeDown) }
            else if c == 'l' { Some(UserAction::LikeTrack) }
            else if c == 'a' { Some(UserAction::AddToQueue) }
            else if c == 's' { Some(UserAction::OpenSearch) }
            else if c == '1' { Some(UserAction::SwitchScreen(1)) }
            else if c == '2' { Some(UserAction::SwitchScreen(2)) }
            else if c == '3' { Some(UserAction::SwitchScreen(3)) }
            else if c == '4' { Some(UserAction::SwitchScreen(4)) }
            else if c == '5' { Some(UserAction::SwitchScreen(5)) }
            else if c == 'f' { Some(UserAction::SeekForward) }
            else if c == 'r' { Some(UserAction::SeekBackward) }
            else if c == 'e' { Some(UserAction::ToggleEQ) }
            else { None }
        },
        _ => None,
    }
}

/// Map one key press to a user action under the current input mode;
/// unrecognized keys map to nothing.
pub fn map_key_to_action(key: KeyPress, search_active: bool) -> (r: Option<UserAction>)
    ensures
        search_active ==> r == spec_search_key_action(key),
        !search_active ==> r == spec_normal_key_action(key),
{
    if search_active {
        return match key {
            KeyPress::Esc => Some(UserAction::Back),
            KeyPress::Enter => Some(UserAction::SearchSubmit),
            KeyPress::Backspace => Some(UserAction::SearchBackspace),
            KeyPress::Char(c) => Some(UserAction::SearchInput(c)),
            _ => None,
        };
    }
    match key {
        KeyPress::Up => Some(UserAction::NavigateUp),
        KeyPress::Down => Some(UserAction::NavigateDown),
        KeyPress::Left => Some(UserAction::NavigateLeft),
        KeyPress::Right => Some(UserAction::NavigateRight),
        KeyPress::Enter => Some(UserAction::Select),
        KeyPress::Esc => Some(UserAction::Back),
        KeyPress::Char(c) => match c {
            'q' => Some(UserAction::Quit),
            '?' => Some(UserAction::ToggleHelp),
            'k' => Some(UserAction::NavigateUp),
            'j' => Some(UserAction::NavigateDown),
            'h' => Some(UserAction::NavigateLeft),
            'b' => Some(UserAction::Back),
            ' ' => Some(UserAction::TogglePlay),
            'n' => Some(UserAction::NextTrack),
            'p' => Some(UserAction::PrevTrack),
            '+' | '=' => Some(UserAction::VolumeUp),
            '-' => Some(UserAction::VolumeDown),
            'l' => Some(UserAction::LikeTrack),
            'a' => Some(UserAction::AddToQueue),
            's' => Some(UserAction::OpenSearch),
            '1' => Some(UserAction::SwitchScreen(1)),
            '2' => Some(UserAction::SwitchScreen(2)),
            '3' => Some(UserAction::SwitchScreen(3)),
            '4' => Some(UserAction::SwitchScreen(4)),
            '5' => Some(UserAction::SwitchScreen(5)),
            'f' => Some(UserAction::SeekForward),
            'r' => Some(UserAction::SeekBackward),
            'e' => Some(UserAction::ToggleEQ),
            _ => None,
        },
        _ => None,
    }
}

} // verus!
