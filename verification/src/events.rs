//! Input mapping: physical key presses, already decoded to plain values,
//! are translated into the abstract application events that drive the
//! navigation state machine.

use vstd::prelude::*;

verus! {

/// A normalized input signal, decoupled from physical key codes.
#[derive(Clone, Copy, PartialEq, Eq, Structural, Debug)]
pub enum AppEvent {
    Quit,
    NavigateTo,
    GoBack,
    NextItem,
    PreviousItem,
    NoOp,
}

/// The key codes the client distinguishes; every other key is `Other`
/// and maps to no event.
#[derive(Clone, Copy, PartialEq, Eq, Structural, Debug)]
pub enum KeyCode {
    Char(char),
    Enter,
    Esc,
    Backspace,
    BackTab,
    Down,
    Up,
    Other,
}

/// One key press: the key code and whether Control (alone) was held.
#[derive(Clone, Copy, PartialEq, Eq, Structural, Debug)]
pub struct KeyPress {
    pub code: KeyCode,
    pub ctrl: bool,
}

/// The key bindings: quit on `q` or Ctrl+C; confirm on Enter; back on
/// Escape, Backspace or Shift+Tab; next on Down or `j`; previous on Up
/// or `k`; everything else is ignored.
pub open spec fn event_for_key(key: KeyPress) -> AppEvent {
    match key.code {
        KeyCode::Char(c) => if c == 'q' {
            AppEvent::Quit
        } else if c == 'c' && key.ctrl {
            AppEvent::Quit
        } else if c == 'j' {
            AppEvent::NextItem
        } else if c == 'k' {
            AppEvent::PreviousItem
        } else {
            AppEvent::NoOp
        },
        KeyCode::Enter => AppEvent::NavigateTo,
        KeyCode::Esc => AppEvent::GoBack,
        KeyCode::Backspace => AppEvent::GoBack,
        KeyCode::BackTab => AppEvent::GoBack,
        KeyCode::Down => AppEvent::NextItem,
        KeyCode::Up => AppEvent::PreviousItem,
        KeyCode::Other => AppEvent::NoOp,
    }
}

/// Translates one key press into the abstract event it is bound to.
pub fn handle_key_event(key: KeyPress) -> (r: AppEvent)
    ensures
        r == event_for_key(key),
{
    match key.code {
        KeyCode::Char(c) => if c == 'q' {
            AppEvent::Quit
        } else if c == 'c' && key.ctrl {
            AppEvent::Quit
        } else if c == 'j' {
            AppEvent::NextItem
        } else if c == 'k' {
            AppEvent::PreviousItem
        } else {
            AppEvent::NoOp
        },
        KeyCode::Enter => AppEvent::NavigateTo,
        KeyCode::Esc => AppEvent::GoBack,
        KeyCode::Backspace => AppEvent::GoBack,
        KeyCode::BackTab => AppEvent::GoBack,
        KeyCode::Down => AppEvent::NextItem,
        KeyCode::Up => AppEvent::PreviousItem,
        KeyCode::Other => AppEvent::NoOp,
    }
}

} // verus!
