use vstd::prelude::*;
use crate::keys::{Key, KeyInput};

verus! {

/// The commands of the keyboard scheme with a search mode.
#[derive(Debug, Clone, Copy, PartialEq, Eq, Structural)]
pub enum KeyboardEvent {
    Play,
    Pause,
    Stop,
    Next,
    Previous,
    Quit,
    DeviceSelector,
    Search,
    Escape,
    Up,
    Down,
    Enter,
    Backspace,
    Char(char),
    Delete,
    Left,
    Right,
    NextMatch,
    PrevMatch,
}

/// In search mode only editing keys keep their meaning: Enter, Esc,
/// Backspace, Delete, left and right, Control-N/P for the next/previous match,
/// and any other character is typed.
pub open spec fn search_mode_event(k: KeyInput) -> Option<KeyboardEvent> {
    match k.key {
        Key::Enter => Some(KeyboardEvent::Enter),
        Key::Esc => Some(KeyboardEvent::Escape),
        Key::Backspace => Some(KeyboardEvent::Backspace),
        Key::Delete => Some(KeyboardEvent::Delete),
        Key::Left => Some(KeyboardEvent::Left),
        Key::Right => Some(KeyboardEvent::Right),
        Key::Char(c) => if c == 'n' && k.ctrl {
            Some(KeyboardEvent::NextMatch)
        } else if c == 'p' && k.ctrl {
            Some(KeyboardEvent::PrevMatch)
        } else {
            Some(KeyboardEvent::Char(c))
        },
        _ => None,
    }
}

/// Outside search mode the player keys are bound first; Control-N/P still
/// move between matches and other characters are passed on.
pub open spec fn normal_mode_event(k: KeyInput) -> Option<KeyboardEvent> {
    match k.key {
        Key::Enter => Some(KeyboardEvent::Enter),
        Key::Char(c) => if c == 'p' && !k.ctrl {
            Some(KeyboardEvent::Play)
        } else if c == ' ' {
            Some(KeyboardEvent::Pause)
        } else if c == 's' {
            Some(KeyboardEvent::Stop)
        } else if c == 'l' {
            Some(KeyboardEvent::Next)
        } else if c == 'h' {
            Some(KeyboardEvent::Previous)
        } else if c == 'q' {
            Some(KeyboardEvent::Quit)
        } else if c == 'o' {
            Some(KeyboardEvent::DeviceSelector)
        } else if c == '/' {
            Some(KeyboardEvent::Search)
        } else if c == 'k' {
            Some(KeyboardEvent::Up)
        } else if c == 'j' {
            Some(KeyboardEvent::Down)
        } else if c == 'n' && k.ctrl {
            Some(KeyboardEvent::NextMatch)
        } else if c == 'p' && k.ctrl {
            Some(KeyboardEvent::PrevMatch)
        } else {
            Some(KeyboardEvent::Char(c))
        },
        Key::Esc => Some(KeyboardEvent::Escape),
        Key::Up => Some(KeyboardEvent::Up),
        Key::Down => Some(KeyboardEvent::Down),
        Key::Backspace => Some(KeyboardEvent::Backspace),
        Key::Delete => Some(KeyboardEvent::Delete),
        Key::Left => Some(KeyboardEvent::Left),
        Key::Right => Some(KeyboardEvent::Right),
        Key::Other => None,
    }
}

/// The command a key event stands for in the given mode; key releases stand
/// for none.
pub open spec fn keyboard_event_spec(search_mode: bool, k: KeyInput) -> Option<KeyboardEvent> {
    if !k.press {
        None
    } else if search_mode {
        search_mode_event(k)
    } else {
        normal_mode_event(k)
    }
}

pub fn keyboard_event(search_mode: bool, k: KeyInput) -> (e: Option<KeyboardEvent>)
    ensures
        e == keyboard_event_spec(search_mode, k),
{
    if !k.press {
        return None;
    }
    if search_mode {
        match k.key {
            Key::Enter => Some(KeyboardEvent::Enter),
            Key::Esc => Some(KeyboardEvent::Escape),
            Key::Backspace => Some(KeyboardEvent::Backspace),
            Key::Delete => Some(KeyboardEvent::Delete),
            Key::Left => Some(KeyboardEvent::Left),
            Key::Right => Some(KeyboardEvent::Right),
            Key::Char('n') if k.ctrl => Some(KeyboardEvent::NextMatch),
            Key::Char('p') if k.ctrl => Some(KeyboardEvent::PrevMatch),
            Key::Char(c) => Some(KeyboardEvent::Char(c)),
            _ => None,
        }
    } else {
        match k.key {
            Key::Enter => Some(KeyboardEvent::Enter),
            Key::Char('p') if !k.ctrl => Some(KeyboardEvent::Play),
            Key::Char(' ') => Some(KeyboardEvent::Pause),
            Key::Char('s') => Some(KeyboardEvent::Stop),
            Key::Char('l') => Some(KeyboardEvent::Next),
            Key::Char('h') => Some(KeyboardEvent::Previous),
            Key::Char('q') => Some(KeyboardEvent::Quit),
            Key::Char('o') => Some(KeyboardEvent::DeviceSelector),
            Key::Char('/') => Some(KeyboardEvent::Search),
            Key::Esc => Some(KeyboardEvent::Escape),
            Key::Up | Key::Char('k') => Some(KeyboardEvent::Up),
            Key::Down | Key::Char('j') => Some(KeyboardEvent::Down),
            Key::Backspace => Some(KeyboardEvent::Backspace),
            Key::Delete => Some(KeyboardEvent::Delete),
            Key::Left => Some(KeyboardEvent::Left),
            Key::Right => Some(KeyboardEvent::Right),
            Key::Char('n') if k.ctrl => Some(KeyboardEvent::NextMatch),
            Key::Char('p') if k.ctrl => Some(KeyboardEvent::PrevMatch),
            Key::Char(c) => Some(KeyboardEvent::Char(c)),
            _ => None,
        }
    }
}

/// Every character typed in search mode reaches the search field, except
/// Control-N and Control-P.
pub proof fn lemma_search_mode_types_characters(k: KeyInput, c: char)
    requires
        k.press,
        k.key == Key::Char(c),
        !(k.ctrl && (c == 'n' || c == 'p')),
    ensures
        keyboard_event_spec(true, k) == Some(KeyboardEvent::Char(c)),
{
}


/// Outside search mode a pressed key stands for the player command it is
/// bound to: the arrows and `k`/`j` move up and down alike, `p` plays,
/// space pauses, `s` stops, `l`/`h` go to the next and previous track, `q`
/// quits, `o` opens the output selector, `/` the search, Enter selects.
pub proof fn lemma_normal_mode_bindings(k: KeyInput)
    requires
        k.press,
    ensures
        k.key == Key::Up || k.key == Key::Char('k') ==> keyboard_event_spec(false, k) == Some(KeyboardEvent::Up),
        k.key == Key::Down || k.key == Key::Char('j') ==> keyboard_event_spec(false, k) == Some(KeyboardEvent::Down),
        k.key == Key::Char('p') && !k.ctrl ==> keyboard_event_spec(false, k) == Some(KeyboardEvent::Play),
        k.key == Key::Char(' ') ==> keyboard_event_spec(false, k) == Some(KeyboardEvent::Pause),
        k.key == Key::Char('s') ==> keyboard_event_spec(false, k) == Some(KeyboardEvent::Stop),
        k.key == Key::Char('l') ==> keyboard_event_spec(false, k) == Some(KeyboardEvent::Next),
        k.key == Key::Char('h') ==> keyboard_event_spec(false, k) == Some(KeyboardEvent::Previous),
        k.key == Key::Char('q') ==> keyboard_event_spec(false, k) == Some(KeyboardEvent::Quit),
        k.key == Key::Char('o') ==> keyboard_event_spec(false, k) == Some(KeyboardEvent::DeviceSelector),
        k.key == Key::Char('/') ==> keyboard_event_spec(false, k) == Some(KeyboardEvent::Search),
        k.key == Key::Enter ==> keyboard_event_spec(false, k) == Some(KeyboardEvent::Enter),
        k.key == Key::Esc ==> keyboard_event_spec(false, k) == Some(KeyboardEvent::Escape),
{
}

/// In search mode the editing keys keep their meaning and Control-N/P move
/// between matches; a released key stands for nothing in either mode.
pub proof fn lemma_search_mode_bindings(k: KeyInput, search_mode: bool)
    ensures
        !k.press ==> keyboard_event_spec(search_mode, k) is None,
        k.press && k.key == Key::Backspace ==> keyboard_event_spec(true, k) == Some(KeyboardEvent::Backspace),
        k.press && k.key == Key::Delete ==> keyboard_event_spec(true, k) == Some(KeyboardEvent::Delete),
        k.press && k.key == Key::Left ==> keyboard_event_spec(true, k) == Some(KeyboardEvent::Left),
        k.press && k.key == Key::Right ==> keyboard_event_spec(true, k) == Some(KeyboardEvent::Right),
        k.press && k.key == Key::Enter ==> keyboard_event_spec(true, k) == Some(KeyboardEvent::Enter),
        k.press && k.key == Key::Esc ==> keyboard_event_spec(true, k) == Some(KeyboardEvent::Escape),
        k.press && k.ctrl && k.key == Key::Char('n') ==> keyboard_event_spec(true, k) == Some(KeyboardEvent::NextMatch),
        k.press && k.ctrl && k.key == Key::Char('p') ==> keyboard_event_spec(true, k) == Some(KeyboardEvent::PrevMatch),
{
}

} // verus!
