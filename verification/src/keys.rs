use vstd::prelude::*;
use crate::action::{Action, Layer};

verus! {

/// A key, as the terminal reports it.
#[derive(Clone, Copy, Debug, PartialEq, Eq, Structural)]
pub enum Key {
    Char(char),
    Enter,
    Esc,
    Backspace,
    Delete,
    Left,
    Right,
    Up,
    Down,
    /// Any other key.
    Other,
}

/// A key press or release, with the state of the Control modifier.
#[derive(Clone, Copy, Debug, PartialEq, Eq, Structural)]
pub struct KeyInput {
    pub key: Key,
    pub ctrl: bool,
    pub press: bool,
}

/// What the playlist screen does with a key.
pub open spec fn playlist_action_spec(k: KeyInput) -> Action {
    match k.key {
        Key::Char('q') => Action::Quit,
        Key::Char('/') => Action::PushLayer(Layer::Search),
        Key::Char('o') => Action::PushLayer(Layer::OutputSelector),
        Key::Char('p') => if !k.ctrl { Action::PlaySelected } else { Action::NoOp },
        Key::Char(' ') => Action::TogglePlayPause,
        Key::Char('s') => Action::Stop,
        Key::Char('l') => Action::NextTrack,
        Key::Char('h') => Action::PreviousTrack,
        Key::Up | Key::Char('k') => Action::SelectUp,
        Key::Down | Key::Char('j') => Action::SelectDown,
        Key::Enter => Action::PlaySelected,
        _ => Action::NoOp,
    }
}

/// The playlist screen's key bindings: `q` quits, `/` opens the search,
/// `o` the output selector, `p` (without Control) plays the selected track,
/// space toggles play and pause, `s` stops, `l`/`h` go to the next/previous track, up/`k` and
/// down/`j` move the selection, Enter plays the selected track.
pub fn playlist_key_action(k: KeyInput) -> (a: Action)
    ensures
        a == playlist_action_spec(k),
        k.key == Key::Up || k.key == Key::Char('k') ==> a == Action::SelectUp,
        k.key == Key::Down || k.key == Key::Char('j') ==> a == Action::SelectDown,
        k.key == Key::Enter ==> a == Action::PlaySelected,
        k.key == Key::Char('p') && !k.ctrl ==> a == Action::PlaySelected,
        k.key == Key::Char(' ') ==> a == Action::TogglePlayPause,
        k.key == Key::Char('s') ==> a == Action::Stop,
        k.key == Key::Char('l') ==> a == Action::NextTrack,
        k.key == Key::Char('h') ==> a == Action::PreviousTrack,
        k.key == Key::Char('q') ==> a == Action::Quit,
        k.key == Key::Char('/') ==> a == Action::PushLayer(Layer::Search),
        k.key == Key::Char('o') ==> a == Action::PushLayer(Layer::OutputSelector),
{
    match k.key {
        Key::Char('q') => Action::Quit,
        Key::Char('/') => Action::PushLayer(Layer::Search),
        Key::Char('o') => Action::PushLayer(Layer::OutputSelector),
        Key::Char('p') if !k.ctrl => Action::PlaySelected,
        Key::Char(' ') => Action::TogglePlayPause,
        Key::Char('s') => Action::Stop,
        Key::Char('l') => Action::NextTrack,
        Key::Char('h') => Action::PreviousTrack,
        Key::Up | Key::Char('k') => Action::SelectUp,
        Key::Down | Key::Char('j') => Action::SelectDown,
        Key::Enter => Action::PlaySelected,
        _ => Action::NoOp,
    }
}

/// Whether the application quits on this key before any layer sees it
/// (Control-C).
pub fn is_interrupt(k: KeyInput) -> (b: bool)
    ensures
        b == (k.key == Key::Char('c') && k.ctrl),
{
    match k.key {
        Key::Char('c') => k.ctrl,
        _ => false,
    }
}

/// Events of the media keys of the operating system.
#[derive(Clone, Copy, Debug, PartialEq, Eq, Structural)]
pub enum MediaEvent {
    Play,
    Pause,
    Toggle,
    Next,
    Previous,
    Stop,
    /// Seeking, volume, raising the window and other requests.
    Other,
}

/// The action a media key asks for: play, pause and toggle all toggle;
/// next, previous and stop map to the same actions; anything else is ignored.
pub fn media_event_action(e: MediaEvent) -> (a: Option<Action>)
    ensures
        a == match e {
            MediaEvent::Play | MediaEvent::Pause | MediaEvent::Toggle => Some(Action::TogglePlayPause),
            MediaEvent::Next => Some(Action::NextTrack),
            MediaEvent::Previous => Some(Action::PreviousTrack),
            MediaEvent::Stop => Some(Action::Stop),
            MediaEvent::Other => None::<Action>,
        },
{
    match e {
        MediaEvent::Play => Some(Action::TogglePlayPause),
        MediaEvent::Pause => Some(Action::TogglePlayPause),
        MediaEvent::Toggle => Some(Action::TogglePlayPause),
        MediaEvent::Next => Some(Action::NextTrack),
        MediaEvent::Previous => Some(Action::PreviousTrack),
        MediaEvent::Stop => Some(Action::Stop),
        MediaEvent::Other => None,
    }
}


/// The playlist screen's binding table, key by key: the arrows and the
/// vi keys `k`/`j` move the selection up and down alike, Enter and `p` play
/// the selected track, space toggles, `s` stops, `l`/`h` go to the next and
/// previous track, `q` quits, `/` opens the search and `o` the output
/// selector; Control or not, press or release, does not change an arrow.
pub proof fn lemma_playlist_bindings(k: KeyInput)
    ensures
        k.key == Key::Up || k.key == Key::Char('k') ==> playlist_action_spec(k) == Action::SelectUp,
        k.key == Key::Down || k.key == Key::Char('j') ==> playlist_action_spec(k) == Action::SelectDown,
        k.key == Key::Enter ==> playlist_action_spec(k) == Action::PlaySelected,
        k.key == Key::Char('p') && !k.ctrl ==> playlist_action_spec(k) == Action::PlaySelected,
        k.key == Key::Char(' ') ==> playlist_action_spec(k) == Action::TogglePlayPause,
        k.key == Key::Char('s') ==> playlist_action_spec(k) == Action::Stop,
        k.key == Key::Char('l') ==> playlist_action_spec(k) == Action::NextTrack,
        k.key == Key::Char('h') ==> playlist_action_spec(k) == Action::PreviousTrack,
        k.key == Key::Char('q') ==> playlist_action_spec(k) == Action::Quit,
        k.key == Key::Char('/') ==> playlist_action_spec(k) == Action::PushLayer(Layer::Search),
        k.key == Key::Char('o') ==> playlist_action_spec(k) == Action::PushLayer(Layer::OutputSelector),
{
}

/// An arrow key does what its vi key does, whatever the modifiers.
pub proof fn lemma_arrows_match_vi_keys(ctrl: bool, press: bool)
    ensures
        playlist_action_spec(KeyInput { key: Key::Up, ctrl, press })
            == playlist_action_spec(KeyInput { key: Key::Char('k'), ctrl: false, press: true }),
        playlist_action_spec(KeyInput { key: Key::Down, ctrl, press })
            == playlist_action_spec(KeyInput { key: Key::Char('j'), ctrl: false, press: true }),
        playlist_action_spec(KeyInput { key: Key::Up, ctrl, press })
            != playlist_action_spec(KeyInput { key: Key::Down, ctrl, press }),
{
}

} // verus!
