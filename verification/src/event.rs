//! Input events of the editor and the key bindings that produce them.
use vstd::prelude::*;

verus! {

/// What a key press asks the editor to do.
#[derive(Debug, Clone, Copy, PartialEq, Eq, Structural)]
pub enum AppEvent {
    Quit,
    ScrollDown,
    ScrollUp,
    ScrollLeft,
    ScrollRight,
    GotoFirstCol,
    GotoLastCol,
    GotoLastRow,
    NextSheet,
    PrevSheet,
    EnterSearch,
    SearchNext,
    SearchPrev,
    /// `Esc`: leaves insert, search, command or help mode.
    ExitMode,
    Enter,
    Char(char),
    Backspace,
    ToggleHelp,
    /// `Ctrl+S`: save.
    CtrlS,
    /// `Ctrl+R`: redo.
    CtrlR,
    Resize,
}

/// A key as the terminal reports it, the keys the bindings tell apart.
#[derive(Debug, Clone, Copy, PartialEq, Eq, Structural)]
pub enum Key {
    Char(char),
    Up,
    Down,
    Left,
    Right,
    Tab,
    BackTab,
    Esc,
    Enter,
    Backspace,
    /// Any other key (function keys, Home, End, ...).
    Other,
}

/// The key bindings: the event a key gives, `ctrl` telling whether Control was held.
pub open spec fn key_event(code: Key, ctrl: bool) -> AppEvent {
    match code {
        Key::Char(c) => {
            if ctrl && c == 'c' {
                AppEvent::Quit
            } else if ctrl && c == 's' {
                AppEvent::CtrlS
            } else if ctrl && c == 'r' {
                AppEvent::CtrlR
            } else if c == 'q' {
                AppEvent::Quit
            } else if c == 'j' {
                AppEvent::ScrollDown
            } else if c == 'k' {
                AppEvent::ScrollUp
            } else if c == 'h' {
                AppEvent::ScrollLeft
            } else if c == 'l' {
                AppEvent::ScrollRight
            } else if c == '0' {
                AppEvent::GotoFirstCol
            } else if c == '$' {
                AppEvent::GotoLastCol
            } else if c == 'G' {
                AppEvent::GotoLastRow
            } else if c == '/' {
                AppEvent::EnterSearch
            } else if c == 'n' {
                AppEvent::SearchNext
            } else if c == 'N' {
                AppEvent::SearchPrev
            } else if c == '?' {
                AppEvent::ToggleHelp
            } else {
                AppEvent::Char(c)
            }
        },
        Key::Down => AppEvent::ScrollDown,
        Key::Up => AppEvent::ScrollUp,
        Key::Left => AppEvent::ScrollLeft,
        Key::Right => AppEvent::ScrollRight,
        Key::Tab => AppEvent::NextSheet,
        Key::BackTab => AppEvent::PrevSheet,
        Key::Esc => AppEvent::ExitMode,
        Key::Enter => AppEvent::Enter,
        Key::Backspace => AppEvent::Backspace,
        Key::Other => AppEvent::Char('\0'),
    }
}

/// The characters that have a binding of their own without Control.
pub open spec fn bound_char(c: char) -> bool {
    c == 'q' || c == 'j' || c == 'k' || c == 'h' || c == 'l' || c == '0' || c == '$' || c == 'G'
        || c == '/' || c == 'n' || c == 'N' || c == '?'
}

/// The event a key press gives; see `key_event`.
pub fn map_key(code: Key, ctrl: bool) -> (ev: AppEvent)
    ensures
        ev == key_event(code, ctrl),
        ctrl && code == Key::Char('c') ==> ev == AppEvent::Quit,
        ctrl && code == Key::Char('s') ==> ev == AppEvent::CtrlS,
        ctrl && code == Key::Char('r') ==> ev == AppEvent::CtrlR,
        code == Key::Char('q') ==> ev == AppEvent::Quit,
        code == Key::Char('j') || code == Key::Down ==> ev == AppEvent::ScrollDown,
        code == Key::Char('k') || code == Key::Up ==> ev == AppEvent::ScrollUp,
        code == Key::Char('h') || code == Key::Left ==> ev == AppEvent::ScrollLeft,
        code == Key::Char('l') || code == Key::Right ==> ev == AppEvent::ScrollRight,
        code == Key::Char('0') ==> ev == AppEvent::GotoFirstCol,
        code == Key::Char('$') ==> ev == AppEvent::GotoLastCol,
        code == Key::Char('G') ==> ev == AppEvent::GotoLastRow,
        code == Key::Tab ==> ev == AppEvent::NextSheet,
        code == Key::BackTab ==> ev == AppEvent::PrevSheet,
        code == Key::Char('/') ==> ev == AppEvent::EnterSearch,
        code == Key::Char('n') ==> ev == AppEvent::SearchNext,
        code == Key::Char('N') ==> ev == AppEvent::SearchPrev,
        code == Key::Char('?') ==> ev == AppEvent::ToggleHelp,
        code == Key::Esc ==> ev == AppEvent::ExitMode,
        code == Key::Enter ==> ev == AppEvent::Enter,
        code == Key::Backspace ==> ev == AppEvent::Backspace,
        code == Key::Other ==> ev == AppEvent::Char('\0'),
        forall|c: char| code == Key::Char(c) && !bound_char(c) && !(ctrl && (c == 'c' || c == 's' || c == 'r'))
            ==> ev == AppEvent::Char(c),
{
    match code {
        Key::Char('c') if ctrl => AppEvent::Quit,
        Key::Char('s') if ctrl => AppEvent::CtrlS,
        Key::Char('r') if ctrl => AppEvent::CtrlR,
        Key::Char('q') => AppEvent::Quit,
        Key::Char('j') | Key::Down => AppEvent::ScrollDown,
        Key::Char('k') | Key::Up => AppEvent::ScrollUp,
        Key::Char('h') | Key::Left => AppEvent::ScrollLeft,
        Key::Char('l') | Key::Right => AppEvent::ScrollRight,
        Key::Char('0') => AppEvent::GotoFirstCol,
        Key::Char('$') => AppEvent::GotoLastCol,
        Key::Char('G') => AppEvent::GotoLastRow,
        Key::Tab => AppEvent::NextSheet,
        Key::BackTab => AppEvent::PrevSheet,
        Key::Char('/') => AppEvent::EnterSearch,
        Key::Char('n') => AppEvent::SearchNext,
        Key::Char('N') => AppEvent::SearchPrev,
        Key::Esc => AppEvent::ExitMode,
        Key::Enter => AppEvent::Enter,
        Key::Char('?') => AppEvent::ToggleHelp,
        Key::Backspace => AppEvent::Backspace,
        Key::Char(c) => AppEvent::Char(c),
        Key::Other => AppEvent::Char('\0'),
    }
}

}
