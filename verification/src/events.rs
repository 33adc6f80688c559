use vstd::prelude::*;
use crate::keys::{Key, KeyInput};

verus! {

/// The player commands of the first keyboard scheme.
#[derive(Debug, Clone, Copy, PartialEq, Eq, Structural)]
pub enum KeyboardEvent {
    Play,
    Pause,
    Stop,
    Next,
    Previous,
    Quit,
    DeviceSelector,
    Up,
    Down,
    Enter,
}

/// The command a key press stands for; releases and unbound keys stand for
/// none. Modifiers are not looked at.
pub open spec fn keyboard_event_spec(k: KeyInput) -> Option<KeyboardEvent> {
    if !k.press {
        None
    } else {
        match k.key {
            Key::Enter => Some(KeyboardEvent::Enter),
            Key::Char('p') => Some(KeyboardEvent::Play),
            Key::Char(' ') => Some(KeyboardEvent::Pause),
            Key::Char('s') => Some(KeyboardEvent::Stop),
            Key::Char('l') => Some(KeyboardEvent::Next),
            Key::Char('h') => Some(KeyboardEvent::Previous),
            Key::Char('q') => Some(KeyboardEvent::Quit),
            Key::Char('o') => Some(KeyboardEvent::DeviceSelector),
            Key::Up | Key::Char('k') => Some(KeyboardEvent::Up),
            Key::Down | Key::Char('j') => Some(KeyboardEvent::Down),
            _ => None,
        }
    }
}

pub fn keyboard_event(k: KeyInput) -> (e: Option<KeyboardEvent>)
    ensures
        e == keyboard_event_spec(k),
{
    if !k.press {
        return None;
    }
    match k.key {
        Key::Enter => Some(KeyboardEvent::Enter),
        Key::Char('p') => Some(KeyboardEvent::Play),
        Key::Char(' ') => Some(KeyboardEvent::Pause),
        Key::Char('s') => Some(KeyboardEvent::Stop),
        Key::Char('l') => Some(KeyboardEvent::Next),
        Key::Char('h') => Some(KeyboardEvent::Previous),
        Key::Char('q') => Some(KeyboardEvent::Quit),
        Key::Char('o') => Some(KeyboardEvent::DeviceSelector),
        Key::Up | Key::Char('k') => Some(KeyboardEvent::Up),
        Key::Down | Key::Char('j') => Some(KeyboardEvent::Down),
        _ => None,
    }
}


/// The binding table: a pressed arrow or `k`/`j` moves up or down, `p`
/// plays, space pauses, `s` stops, `l`/`h` go to the next and previous
/// track, `q` quits, `o` opens the output selector, Enter selects; a
/// released key stands for nothing.
pub proof fn lemma_bindings(k: KeyInput)
    ensures
        !k.press ==> keyboard_event_spec(k) is None,
        k.press && (k.key == Key::Up || k.key == Key::Char('k')) ==> keyboard_event_spec(k) == Some(KeyboardEvent::Up),
        k.press && (k.key == Key::Down || k.key == Key::Char('j')) ==> keyboard_event_spec(k) == Some(KeyboardEvent::Down),
        k.press && k.key == Key::Char('p') ==> keyboard_event_spec(k) == Some(KeyboardEvent::Play),
        k.press && k.key == Key::Char(' ') ==> keyboard_event_spec(k) == Some(KeyboardEvent::Pause),
        k.press && k.key == Key::Char('s') ==> keyboard_event_spec(k) == Some(KeyboardEvent::Stop),
        k.press && k.key == Key::Char('l') ==> keyboard_event_spec(k) == Some(KeyboardEvent::Next),
        k.press && k.key == Key::Char('h') ==> keyboard_event_spec(k) == Some(KeyboardEvent::Previous),
        k.press && k.key == Key::Char('q') ==> keyboard_event_spec(k) == Some(KeyboardEvent::Quit),
        k.press && k.key == Key::Char('o') ==> keyboard_event_spec(k) == Some(KeyboardEvent::DeviceSelector),
        k.press && k.key == Key::Enter ==> keyboard_event_spec(k) == Some(KeyboardEvent::Enter),
{
}

} // verus!
