//! Plain-value model of a terminal key event.
//!
//! The state machine reads only three things from an input event: which key
//! was pressed, whether the control modifier was held, and whether the event
//! is a press (as opposed to a release or an auto-repeat). The driving loop
//! converts the terminal backend's event type into this one.

use vstd::prelude::*;

verus! {

/// The keys the application distinguishes. Every other key maps to `Other`.
#[derive(Clone, Copy, PartialEq, Eq, Debug)]
pub enum KeyCode {
    /// A printable character key.
    Char(char),
    /// The up arrow.
    Up,
    /// The down arrow.
    Down,
    /// The enter / return key.
    Enter,
    /// The escape key.
    Esc,
    /// Any key the application does not react to specifically.
    Other,
}

/// Whether a key event is a press, a release, or an auto-repeat.
#[derive(Clone, Copy, PartialEq, Eq, Debug)]
pub enum KeyKind {
    Press,
    Release,
    Repeat,
}

/// One key event, reduced to what the state machine reads.
#[derive(Clone, Copy, PartialEq, Eq, Debug)]
pub struct KeyEvent {
    pub code: KeyCode,
    /// True when the control modifier was held.
    pub ctrl: bool,
    pub kind: KeyKind,
}

impl KeyEvent {
    /// A plain press of `code` with no modifier held.
    pub fn press(code: KeyCode) -> (r: KeyEvent)
        ensures
            r.code == code,
            !r.ctrl,
            r.kind == KeyKind::Press,
    {
        KeyEvent { code, ctrl: false, kind: KeyKind::Press }
    }
}

/// The global-quit keys: `q`, escape, and control-`c` end the application
/// from every non-terminal mode.
pub open spec fn is_global_quit(k: KeyEvent) -> bool {
    ||| k.code == KeyCode::Char('q')
    ||| k.code == KeyCode::Esc
    ||| (k.code == KeyCode::Char('c') && k.ctrl)
}

/// Decides membership in the global-quit set of `is_global_quit`.
pub fn is_quit_key(k: KeyEvent) -> (r: bool)
    ensures
        r == is_global_quit(k),
{
    match k.code {
        KeyCode::Char(c) => c == 'q' || (c == 'c' && k.ctrl),
        KeyCode::Esc => true,
        _ => false,
    }
}

} // verus!
