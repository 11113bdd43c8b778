//! Dispatch of key presses onto the application state. Which panel has the
//! focus decides where navigation keys go; a quit key wins over everything.

use crate::app::{next_index, previous_index, toggled, App, Sections};
use crate::logs::LogPage;
use vstd::prelude::*;

verus! {

/// The keys the application tells apart; every other key is `Other`.
#[derive(Debug, Clone, Copy, PartialEq, Eq, Structural)]
pub enum Key {
    Esc,
    Tab,
    Up,
    Down,
    PageUp,
    PageDown,
    Char(char),
    Other,
}

/// A key press: the key, and the modifier keys held with it as a bit set.
#[derive(Debug, Clone, Copy, PartialEq, Eq, Structural)]
pub struct KeyPress {
    pub code: Key,
    pub modifiers: u8,
}

/// The bit of the Control key in `KeyPress::modifiers`.
pub const CONTROL: u8 = 0b0000_0010;

/// What a key press did to the application.
#[derive(Debug, Clone, Copy, PartialEq, Eq, Structural)]
pub enum KeyAction {
    Quit,
    NextSection,
    SelectPrevious,
    SelectNext,
    ScrollLogs(LogPage),
    Ignored,
}

/// Escape, `q`, or `c` / `C` with Control alone held.
pub open spec fn is_quit_key(k: KeyPress) -> bool {
    match k.code {
        Key::Esc => true,
        Key::Char(c) => c == 'q' || ((c == 'c' || c == 'C') && k.modifiers == CONTROL),
        _ => false,
    }
}

/// The action a key press stands for while `panel` has the focus.
pub open spec fn action_for(k: KeyPress, panel: Sections) -> KeyAction {
    if is_quit_key(k) {
        KeyAction::Quit
    } else {
        match (k.code, panel) {
            (Key::Tab, _) => KeyAction::NextSection,
            (Key::Up, Sections::Files) => KeyAction::SelectPrevious,
            (Key::Down, Sections::Files) => KeyAction::SelectNext,
            (Key::PageUp, Sections::Logs) => KeyAction::ScrollLogs(LogPage::Previous),
            (Key::PageDown, Sections::Logs) => KeyAction::ScrollLogs(LogPage::Next),
            _ => KeyAction::Ignored,
        }
    }
}

/// Whether the application still runs, and which panel has the focus, after
/// the key presses `keys` are handled in order, starting from `running` and
/// `panel`.
pub open spec fn after_keys(running: bool, panel: Sections, keys: Seq<KeyPress>) -> (bool, Sections)
    decreases keys.len(),
{
    if keys.len() == 0 {
        (running, panel)
    } else {
        let a = action_for(keys[0], panel);
        after_keys(
            running && !(a is Quit),
            if a is NextSection {
                toggled(panel)
            } else {
                panel
            },
            keys.drop_first(),
        )
    }
}

/// Once the application has quit, no sequence of key presses sets it running
/// again.
pub proof fn lemma_quit_is_final(panel: Sections, keys: Seq<KeyPress>)
    ensures
        !after_keys(false, panel, keys).0,
    decreases keys.len(),
{
    if keys.len() > 0 {
        let a = action_for(keys[0], panel);
        let next = if a is NextSection {
            toggled(panel)
        } else {
            panel
        };
        lemma_quit_is_final(next, keys.drop_first());
    }
}

/// Handles the key events and updates the state of [`App`].
pub fn handle_key_events(key_event: KeyPress, app: &mut App) -> (r: KeyAction)
    ensures
        r == action_for(key_event, old(app).selected_section),
        final(app).running == (old(app).running && !(r is Quit)),
        final(app).selected_section == (if r is NextSection {
            toggled(old(app).selected_section)
        } else {
            old(app).selected_section
        }),
        final(app).show_logs == old(app).show_logs,
        final(app).at_sign_files.files@ == old(app).at_sign_files.files@,
        final(app).at_sign_files.selected_index as nat == (match r {
            KeyAction::SelectNext => next_index(
                old(app).at_sign_files.selected_index as nat,
                old(app).at_sign_files.files@.len(),
            ),
            KeyAction::SelectPrevious => previous_index(
                old(app).at_sign_files.selected_index as nat,
            ),
            _ => old(app).at_sign_files.selected_index as nat,
        }),
        !(r is ScrollLogs) ==> final(app).log_state == old(app).log_state,
        final(app).log_state@ == (match r {
            KeyAction::ScrollLogs(page) => old(app).log_state@.push(page),
            _ => old(app).log_state@,
        }),
        old(app).at_sign_files.wf() ==> final(app).at_sign_files.wf(),
{
    match app.selected_section {
        Sections::Files => handle_files_section(key_event, app),
        Sections::Logs => handle_logs_section(key_event, app),
    }
}

fn should_quit(key_event: &KeyPress) -> (r: bool)
    ensures
        r == is_quit_key(*key_event),
{
    match key_event.code {
        Key::Esc => true,
        Key::Char(c) => c == 'q' || ((c == 'c' || c == 'C') && key_event.modifiers == CONTROL),
        _ => false,
    }
}

fn handle_logs_section(key_event: KeyPress, app: &mut App) -> (r: KeyAction)
    requires
        old(app).selected_section == Sections::Logs,
    ensures
        r == action_for(key_event, Sections::Logs),
        final(app).running == (old(app).running && !(r is Quit)),
        final(app).selected_section == (if r is NextSection {
            Sections::Files
        } else {
            Sections::Logs
        }),
        final(app).show_logs == old(app).show_logs,
        final(app).at_sign_files == old(app).at_sign_files,
        !(r is ScrollLogs) ==> final(app).log_state == old(app).log_state,
        final(app).log_state@ == (match r {
            KeyAction::ScrollLogs(page) => old(app).log_state@.push(page),
            _ => old(app).log_state@,
        }),
{
    if should_quit(&key_event) {
        app.quit();
        KeyAction::Quit
    } else {
        match key_event.code {
            Key::Tab => {
                app.next_section();
                KeyAction::NextSection
            },
            Key::PageUp => {
                app.log_state.turn_page(LogPage::Previous);
                KeyAction::ScrollLogs(LogPage::Previous)
            },
            Key::PageDown => {
                app.log_state.turn_page(LogPage::Next);
                KeyAction::ScrollLogs(LogPage::Next)
            },
            _ => KeyAction::Ignored,
        }
    }
}

fn handle_files_section(key_event: KeyPress, app: &mut App) -> (r: KeyAction)
    requires
        old(app).selected_section == Sections::Files,
    ensures
        r == action_for(key_event, Sections::Files),
        final(app).running == (old(app).running && !(r is Quit)),
        final(app).selected_section == (if r is NextSection {
            Sections::Logs
        } else {
            Sections::Files
        }),
        final(app).show_logs == old(app).show_logs,
        final(app).at_sign_files.files@ == old(app).at_sign_files.files@,
        final(app).at_sign_files.selected_index as nat == (match r {
            KeyAction::SelectNext => next_index(
                old(app).at_sign_files.selected_index as nat,
                old(app).at_sign_files.files@.len(),
            ),
            KeyAction::SelectPrevious => previous_index(
                old(app).at_sign_files.selected_index as nat,
            ),
            _ => old(app).at_sign_files.selected_index as nat,
        }),
        final(app).log_state == old(app).log_state,
{
    if should_quit(&key_event) {
        app.quit();
        KeyAction::Quit
    } else {
        match key_event.code {
            Key::Tab => {
                app.next_section();
                KeyAction::NextSection
            },
            Key::Up => {
                app.at_sign_files.select_previous();
                KeyAction::SelectPrevious
            },
            Key::Down => {
                app.at_sign_files.select_next();
                KeyAction::SelectNext
            },
            _ => KeyAction::Ignored,
        }
    }
}

} // verus!
