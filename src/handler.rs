use vstd::prelude::*;

use crate::app::{scroll_after, App, AppMode};
use crate::selection::{backward_of, forward_of};

verus! {

/// A key, as far as the app tells keys apart.
#[derive(Debug, Clone, Copy, PartialEq, Eq, Structural)]
pub enum Key {
    Tab,
    Enter,
    Esc,
    Up,
    Down,
    Char(char),
    Other,
}

/// A key press: the key and whether Control was held.
#[derive(Debug, Clone, Copy, PartialEq, Eq, Structural)]
pub struct KeyPress {
    pub key: Key,
    pub ctrl: bool,
}

/// What a mouse event did, as far as the app tells them apart.
#[derive(Debug, Clone, Copy, PartialEq, Eq, Structural)]
pub enum MouseAction {
    ScrollDown,
    ScrollUp,
    /// A button went down on screen row `row`.
    Press { row: u16 },
    Other,
}

/// What the app does in answer to an input event.
#[derive(Debug, Clone, Copy, PartialEq, Eq, Structural)]
pub enum InputAction {
    /// Start free-text entry.
    StartQuerying,
    /// Leave free-text entry for the main view.
    StopQuerying,
    /// Hand the key to the free-text input buffer.
    EditInput,
    Quit,
    /// Move the show selection back by the given step.
    Prev(usize),
    /// Move the show selection forward by the given step.
    Next(usize),
    /// Move the show selection back by one and show the main view.
    ScrollUp,
    /// Move the show selection forward by one and show the main view.
    ScrollDown,
    SelectFirst,
    SelectLast,
    Nothing,
}

/// The step of a half-page move.
pub const PAGE_STEP: usize = 20;

/// What a key press does in mode `mode`. During free-text entry, Enter, Tab and
/// Esc end it and every other key is edited in; else Tab starts it, Esc, `q`
/// and Control-C quit, the arrows move by one, Control-U and Control-D by a
/// half page, `g` and `G` jump to the first and the last show.
pub open spec fn key_action(mode: AppMode, k: KeyPress) -> InputAction {
    if mode == AppMode::Querying {
        match k.key {
            Key::Enter | Key::Tab | Key::Esc => InputAction::StopQuerying,
            _ => InputAction::EditInput,
        }
    } else {
        match k.key {
            Key::Tab => InputAction::StartQuerying,
            Key::Esc => InputAction::Quit,
            Key::Up => InputAction::Prev(1),
            Key::Down => InputAction::Next(1),
            Key::Char(c) => if c == 'q' {
                InputAction::Quit
            } else if (c == 'c' || c == 'C') && k.ctrl {
                InputAction::Quit
            } else if (c == 'u' || c == 'U') && k.ctrl {
                InputAction::Prev(PAGE_STEP)
            } else if (c == 'd' || c == 'D') && k.ctrl {
                InputAction::Next(PAGE_STEP)
            } else if c == 'g' {
                InputAction::SelectFirst
            } else if c == 'G' {
                InputAction::SelectLast
            } else {
                InputAction::Nothing
            },
            _ => InputAction::Nothing,
        }
    }
}

/// What a mouse event does: scrolling moves the show selection by one and shows
/// the main view, a press on the top row starts free-text entry.
pub open spec fn mouse_action(m: MouseAction) -> InputAction {
    match m {
        MouseAction::ScrollDown => InputAction::ScrollDown,
        MouseAction::ScrollUp => InputAction::ScrollUp,
        MouseAction::Press { row } => if row == 0 {
            InputAction::StartQuerying
        } else {
            InputAction::Nothing
        },
        MouseAction::Other => InputAction::Nothing,
    }
}

/// The app after `act` is applied to `a`.
pub open spec fn after_action(a: App, act: InputAction) -> App {
    let len = a.shows@.len();
    match act {
        InputAction::StartQuerying => App { mode: AppMode::Querying, ..a },
        InputAction::StopQuerying => App { mode: AppMode::MainView, ..a },
        InputAction::Quit => App { running: false, ..a },
        InputAction::Prev(n) => {
            let sel = backward_of(a.selected_show, n as nat, len, (len - 1) as usize);
            App { selected_show: sel, scroll_position: scroll_after(sel, a.scroll_position), ..a }
        },
        InputAction::Next(n) => {
            let sel = forward_of(a.selected_show, n as nat, len);
            App { selected_show: sel, scroll_position: scroll_after(sel, a.scroll_position), ..a }
        },
        InputAction::ScrollUp => {
            let sel = backward_of(a.selected_show, 1, len, (len - 1) as usize);
            App {
                selected_show: sel,
                scroll_position: scroll_after(sel, a.scroll_position),
                mode: AppMode::MainView,
                ..a
            }
        },
        InputAction::ScrollDown => {
            let sel = forward_of(a.selected_show, 1, len);
            App {
                selected_show: sel,
                scroll_position: scroll_after(sel, a.scroll_position),
                mode: AppMode::MainView,
                ..a
            }
        },
        InputAction::SelectFirst => if len > 0 {
            App { selected_show: Some(0usize), ..a }
        } else {
            a
        },
        InputAction::SelectLast => if len > 0 {
            App { selected_show: Some((len - 1) as usize), ..a }
        } else {
            a
        },
        InputAction::EditInput | InputAction::Nothing => a,
    }
}

/// The action of a key press in mode `mode`.
pub fn action_for_key(mode: AppMode, k: KeyPress) -> (r: InputAction)
    ensures
        r == key_action(mode, k),
{
    if let AppMode::Querying = mode {
        match k.key {
            Key::Enter | Key::Tab | Key::Esc => InputAction::StopQuerying,
            _ => InputAction::EditInput,
        }
    } else {
        match k.key {
            Key::Tab => InputAction::StartQuerying,
            Key::Esc => InputAction::Quit,
            Key::Up => InputAction::Prev(1),
            Key::Down => InputAction::Next(1),
            Key::Char(c) => if c == 'q' {
                InputAction::Quit
            } else if (c == 'c' || c == 'C') && k.ctrl {
                InputAction::Quit
            } else if (c == 'u' || c == 'U') && k.ctrl {
                InputAction::Prev(PAGE_STEP)
            } else if (c == 'd' || c == 'D') && k.ctrl {
                InputAction::Next(PAGE_STEP)
            } else if c == 'g' {
                InputAction::SelectFirst
            } else if c == 'G' {
                InputAction::SelectLast
            } else {
                InputAction::Nothing
            },
            _ => InputAction::Nothing,
        }
    }
}

/// The action of a mouse event.
pub fn action_for_mouse(m: MouseAction) -> (r: InputAction)
    ensures
        r == mouse_action(m),
{
    match m {
        MouseAction::ScrollDown => InputAction::ScrollDown,
        MouseAction::ScrollUp => InputAction::ScrollUp,
        MouseAction::Press { row } => if row == 0 {
            InputAction::StartQuerying
        } else {
            InputAction::Nothing
        },
        MouseAction::Other => InputAction::Nothing,
    }
}

/// Applies `act` to the app.
pub fn apply_action(app: &mut App, act: InputAction)
    requires
        old(app).wf(),
    ensures
        final(app).wf(),
        *final(app) == after_action(*old(app), act),
{
    match act {
        InputAction::StartQuerying => {
            app.mode = AppMode::Querying;
        },
        InputAction::StopQuerying => {
            app.mode = AppMode::MainView;
        },
        InputAction::Quit => {
            app.quit();
        },
        InputAction::Prev(n) => {
            app.prev(n);
        },
        InputAction::Next(n) => {
            app.next(n);
        },
        InputAction::ScrollUp => {
            app.prev(1);
            app.mode = AppMode::MainView;
        },
        InputAction::ScrollDown => {
            app.next(1);
            app.mode = AppMode::MainView;
        },
        InputAction::SelectFirst => {
            if app.shows.len() > 0 {
                app.selected_show = Some(0);
            }
        },
        InputAction::SelectLast => {
            if app.shows.len() > 0 {
                app.selected_show = Some(app.shows.len() - 1);
            }
        },
        InputAction::EditInput | InputAction::Nothing => {},
    }
}

/// Handles a key press. Returns whether the key is for the free-text input
/// buffer, which the caller then edits with it; else the app is updated.
pub fn handle_key_events(k: KeyPress, app: &mut App) -> (r: bool)
    requires
        old(app).wf(),
    ensures
        final(app).wf(),
        r == (key_action(old(app).mode, k) == InputAction::EditInput),
        *final(app) == after_action(*old(app), key_action(old(app).mode, k)),
{
    let act = action_for_key(app.mode, k);
    apply_action(app, act);
    act == InputAction::EditInput
}

/// Handles a mouse event.
pub fn handle_mouse_events(m: MouseAction, app: &mut App)
    requires
        old(app).wf(),
    ensures
        final(app).wf(),
        *final(app) == after_action(*old(app), mouse_action(m)),
{
    let act = action_for_mouse(m);
    apply_action(app, act);
}

} // verus!
