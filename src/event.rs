use vstd::prelude::*;

verus! {

/// The key of a keyboard event, as far as the controller tells keys apart.
#[derive(Clone, Copy, Debug, PartialEq, Eq, Structural)]
pub enum KeyCode {
    Char(char),
    Left,
    Right,
    Enter,
    /// Any other key (function keys, Escape, Tab, ...).
    Other,
}

/// Whether a key went down, went up, or repeats while held.
#[derive(Clone, Copy, Debug, PartialEq, Eq, Structural)]
pub enum KeyKind {
    Press,
    Release,
    Repeat,
}

#[derive(Clone, Copy, Debug, PartialEq, Eq, Structural)]
pub struct KeyEvent {
    pub code: KeyCode,
    pub kind: KeyKind,
}

/// What the input task hands to the controller.
#[derive(Clone, Copy, Debug, PartialEq, Eq, Structural)]
pub enum Event {
    /// A read from the terminal failed.
    Error,
    /// The periodic timer fired.
    Tick,
    /// A key was pressed.
    Key(KeyEvent),
}

/// What should happen, derived from one event.
#[derive(Clone, Copy, Debug, PartialEq, Eq, Structural)]
pub enum Message {
    Stop,
    Tick,
    Quit,
    NextPage,
    PrevPage,
    ToggleSplit,
    /// Nothing to do.
    Idle,
}

/// The message bound to a key.
pub open spec fn key_message(code: KeyCode) -> Message {
    match code {
        KeyCode::Char(c) => {
            if c == 'q' {
                Message::Quit
            } else if c == ' ' {
                Message::ToggleSplit
            } else if c == 'l' {
                Message::NextPage
            } else if c == 'h' {
                Message::PrevPage
            } else if c == 's' {
                Message::Stop
            } else {
                Message::Tick
            }
        },
        KeyCode::Right => Message::NextPage,
        KeyCode::Left => Message::PrevPage,
        KeyCode::Enter => Message::Stop,
        KeyCode::Other => Message::Tick,
    }
}

/// The message an event stands for: keys by their binding, timer ticks and
/// read failures as a tick.
pub open spec fn message_of(event: Event) -> Message {
    match event {
        Event::Key(key) => key_message(key.code),
        Event::Tick => Message::Tick,
        Event::Error => Message::Tick,
    }
}

/// Maps an event to its message. Defined on every event; never fails.
pub fn interpret(event: &Event) -> (r: Message)
    ensures
        r == message_of(*event),
{
    match event {
        Event::Key(key) => match key.code {
            KeyCode::Char('q') => Message::Quit,
            KeyCode::Char(' ') => Message::ToggleSplit,
            KeyCode::Char('l') | KeyCode::Right => Message::NextPage,
            KeyCode::Char('h') | KeyCode::Left => Message::PrevPage,
            KeyCode::Char('s') | KeyCode::Enter => Message::Stop,
            KeyCode::Char(_) | KeyCode::Other => Message::Tick,
        },
        Event::Tick => Message::Tick,
        Event::Error => Message::Tick,
    }
}

} // verus!
