use atkeys::app::{App, FileSelector, Sections};
use atkeys::handler::{handle_key_events, Key, KeyAction, KeyPress, CONTROL};
use atkeys::logs::LogPage;
use std::path::PathBuf;

fn press(code: Key) -> KeyPress {
    KeyPress { code, modifiers: 0 }
}

fn app_with_files() -> App {
    let mut app = App::new();
    let files = vec![PathBuf::from("a"), PathBuf::from("b"), PathBuf::from("c")];
    assert_eq!(app.at_sign_files.finish_scan(Ok(files)), Ok(()));
    app
}

#[test]
fn tab_then_quit_in_logs() {
    let mut app = App::new();
    assert_eq!(app.selected_section, Sections::Files);
    assert_eq!(handle_key_events(press(Key::Tab), &mut app), KeyAction::NextSection);
    assert_eq!(app.selected_section, Sections::Logs);
    assert_eq!(handle_key_events(press(Key::Char('q')), &mut app), KeyAction::Quit);
    assert!(!app.running);
    assert_eq!(app.selected_section, Sections::Logs);
}

#[test]
fn escape_quits_in_files() {
    let mut app = App::new();
    assert_eq!(handle_key_events(press(Key::Esc), &mut app), KeyAction::Quit);
    assert!(!app.running);
    assert_eq!(app.selected_section, Sections::Files);
}

#[test]
fn control_c_quits_but_plain_c_does_not() {
    let mut app = App::new();
    assert_eq!(handle_key_events(press(Key::Char('c')), &mut app), KeyAction::Ignored);
    assert!(app.running);
    let shifted = KeyPress { code: Key::Char('C'), modifiers: CONTROL | 1 };
    assert_eq!(handle_key_events(shifted, &mut app), KeyAction::Ignored);
    assert!(app.running);
    let ctrl = KeyPress { code: Key::Char('C'), modifiers: CONTROL };
    assert_eq!(handle_key_events(ctrl, &mut app), KeyAction::Quit);
    assert!(!app.running);
}

#[test]
fn quit_key_wins_over_panel_handling() {
    let mut app = App::new();
    let ctrl_q = KeyPress { code: Key::Char('q'), modifiers: CONTROL };
    assert_eq!(handle_key_events(ctrl_q, &mut app), KeyAction::Quit);
    assert!(!app.running);
    assert_eq!(handle_key_events(press(Key::Tab), &mut app), KeyAction::NextSection);
    assert!(!app.running);
}

#[test]
fn arrows_move_the_cursor_in_files() {
    let mut app = app_with_files();
    assert_eq!(handle_key_events(press(Key::Down), &mut app), KeyAction::SelectNext);
    assert_eq!(app.at_sign_files.selected_index, 1);
    assert_eq!(handle_key_events(press(Key::Down), &mut app), KeyAction::SelectNext);
    assert_eq!(handle_key_events(press(Key::Down), &mut app), KeyAction::SelectNext);
    assert_eq!(app.at_sign_files.selected_index, 2);
    assert_eq!(handle_key_events(press(Key::Up), &mut app), KeyAction::SelectPrevious);
    assert_eq!(app.at_sign_files.selected_file(), Some(&PathBuf::from("b")));
}

#[test]
fn arrows_leave_the_cursor_alone_in_logs() {
    let mut app = app_with_files();
    app.next_section();
    assert_eq!(handle_key_events(press(Key::Down), &mut app), KeyAction::Ignored);
    assert_eq!(app.at_sign_files.selected_index, 0);
    assert_eq!(app.selected_section, Sections::Logs);
}

#[test]
fn page_keys_scroll_only_the_logs() {
    let mut app = app_with_files();
    assert_eq!(handle_key_events(press(Key::PageDown), &mut app), KeyAction::Ignored);
    app.next_section();
    assert_eq!(
        handle_key_events(press(Key::PageUp), &mut app),
        KeyAction::ScrollLogs(LogPage::Previous)
    );
    assert_eq!(
        handle_key_events(press(Key::PageDown), &mut app),
        KeyAction::ScrollLogs(LogPage::Next)
    );
    assert_eq!(app.at_sign_files.selected_index, 0);
    assert!(app.running);
}

#[test]
fn other_keys_are_ignored() {
    let mut app = App::new();
    assert_eq!(handle_key_events(press(Key::Other), &mut app), KeyAction::Ignored);
    assert_eq!(handle_key_events(press(Key::Char('x')), &mut app), KeyAction::Ignored);
    assert!(app.running);
    assert_eq!(app.selected_section, Sections::Files);
    let empty = FileSelector::default();
    assert_eq!(empty.selected_file(), None);
}

#[test]
fn page_keys_in_files_leave_the_log_panel_alone() {
    let mut app = App::new();
    assert_eq!(handle_key_events(press(Key::PageUp), &mut app), KeyAction::Ignored);
    assert_eq!(app.selected_section, Sections::Files);
    app.log_state.turn_page(LogPage::Next);
    assert!(app.running);
}
