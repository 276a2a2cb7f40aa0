//! Tests of the session controller: mode routing, the dirty-buffer and
//! persistence lifecycle, and the AI dispatch protocol.

use neuronano::ai::format_ai_error;
use neuronano::config::Config;
use neuronano::session::{Action, App, AppMode, KeyInput, SaveError};

fn named_app(name: &str) -> App {
    App::new(
        Some(name.to_string()),
        Config { api_key: "secret".to_string() },
    )
}

fn unnamed_app() -> App {
    App::new(None, Config { api_key: "secret".to_string() })
}

#[test]
fn new_without_key_starts_in_setup() {
    let app = App::new(None, Config::default());
    assert_eq!(app.mode, AppMode::Setup);
    assert!(!app.is_modified);
    assert!(!app.should_quit);
}

#[test]
fn new_with_key_starts_in_normal() {
    let app = unnamed_app();
    assert_eq!(app.mode, AppMode::Normal);
    assert_eq!(app.filename, "[No Name]");
}

#[test]
fn new_keeps_given_filename() {
    let app = named_app("f.rs");
    assert_eq!(app.filename, "f.rs");
}

#[test]
fn config_default_has_empty_key() {
    assert_eq!(Config::default().api_key, "");
}

#[test]
fn quit_clean_buffer_quits_directly() {
    let mut app = unnamed_app();
    let a = app.on_key(KeyInput::Ctrl('q'));
    assert_eq!(a, Action::Ignore);
    assert!(app.should_quit);
}

#[test]
fn quit_dirty_buffer_asks_for_confirmation() {
    let mut app = unnamed_app();
    app.note_buffer_edit(true);
    let a = app.on_key(KeyInput::Ctrl('q'));
    assert_eq!(a, Action::Ignore);
    assert_eq!(app.mode, AppMode::ConfirmQuit);
    assert!(!app.should_quit);
}

#[test]
fn edit_marks_dirty_and_stays_until_save() {
    let mut app = named_app("f.txt");
    assert!(!app.is_modified);
    app.note_buffer_edit(false);
    assert!(!app.is_modified);
    app.note_buffer_edit(true);
    assert!(app.is_modified);
    let _ = app.on_key(KeyInput::Char('x'));
    app.note_buffer_edit(true);
    let _ = app.on_key(KeyInput::Ctrl('f'));
    let _ = app.on_key(KeyInput::Esc);
    assert!(app.is_modified);
    app.finish_save(true, "");
    assert!(!app.is_modified);
    assert_eq!(app.status_message.as_deref(), Some("File Saved!"));
}

#[test]
fn cut_and_paste_mark_dirty() {
    let mut app = named_app("f.txt");
    let a = app.on_key(KeyInput::Ctrl('k'));
    assert_eq!(a, Action::Cut);
    assert!(app.is_modified);
    let a = app.on_key(KeyInput::Ctrl('u'));
    assert_eq!(a, Action::Paste);
    assert!(app.is_modified);
}

#[test]
fn edit_clears_status_message() {
    let mut app = named_app("f.txt");
    app.finish_save(true, "");
    assert!(app.status_message.is_some());
    app.note_buffer_edit(true);
    assert!(app.status_message.is_none());
}

#[test]
fn save_without_filename_fails_and_stays_dirty() {
    let mut app = unnamed_app();
    app.note_buffer_edit(true);
    let r = app.save_file(&vec!["hello".to_string()]);
    assert_eq!(r.err(), Some(SaveError::NoFilename));
    assert!(app.is_modified);
}

#[test]
fn save_named_file_yields_joined_content() {
    let app = named_app("out.txt");
    let plan = app
        .save_file(&vec!["a".to_string(), "b".to_string()])
        .unwrap();
    assert_eq!(plan.filename, "out.txt");
    assert_eq!(plan.content, "a\nb");
}

#[test]
fn failed_write_keeps_buffer_dirty_and_shows_error() {
    let mut app = named_app("out.txt");
    app.note_buffer_edit(true);
    app.finish_save(false, "disk full");
    assert!(app.is_modified);
    assert_eq!(app.status_message.as_deref(), Some("Error: disk full"));
}

#[test]
fn save_combo_on_unnamed_buffer_opens_save_as() {
    let mut app = unnamed_app();
    let a = app.on_key(KeyInput::Ctrl('o'));
    assert_eq!(a, Action::OpenSaveAs);
    assert_eq!(app.mode, AppMode::SaveAs);
    assert_eq!(app.save_as_prefill(), None);
}

#[test]
fn save_combo_on_named_buffer_saves() {
    let mut app = named_app("out.txt");
    let a = app.on_key(KeyInput::Ctrl('o'));
    assert_eq!(a, Action::Save);
    assert_eq!(app.mode, AppMode::Normal);
}

#[test]
fn save_as_prefill_uses_current_name() {
    let app = named_app("out.txt");
    assert_eq!(app.save_as_prefill(), Some("out.txt".to_string()));
}

#[test]
fn save_as_trims_the_entered_name() {
    let mut app = unnamed_app();
    let _ = app.on_key(KeyInput::Ctrl('o'));
    let a = app.on_key(KeyInput::Enter);
    assert_eq!(a, Action::SubmitSaveAs);
    assert!(app.submit_save_as("  notes.txt  "));
    assert_eq!(app.filename, "notes.txt");
    assert_eq!(app.mode, AppMode::Normal);
    let plan = app.save_file(&vec!["hello".to_string()]).unwrap();
    assert_eq!(plan.filename, "notes.txt");
    assert_eq!(plan.content, "hello");
}

#[test]
fn save_as_refuses_unicode_whitespace_name() {
    let mut app = unnamed_app();
    let _ = app.on_key(KeyInput::Ctrl('o'));
    assert!(!app.submit_save_as("\u{000B}"));
    assert!(!app.submit_save_as("\u{00A0}\u{000C}\u{2007}"));
    assert_eq!(app.mode, AppMode::SaveAs);
    assert_eq!(app.filename, "[No Name]");
}

#[test]
fn api_key_is_stripped_of_unicode_whitespace() {
    let mut app = App::new(None, Config::default());
    let cfg = app.submit_api_key("\u{00A0}KEY123\u{000B}\u{3000}");
    assert_eq!(cfg.api_key, "KEY123");
}

#[test]
fn save_as_refuses_blank_name() {
    let mut app = unnamed_app();
    let _ = app.on_key(KeyInput::Ctrl('o'));
    assert!(!app.submit_save_as("   "));
    assert_eq!(app.mode, AppMode::SaveAs);
    assert_eq!(app.filename, "[No Name]");
}

#[test]
fn save_as_escape_cancels() {
    let mut app = unnamed_app();
    let _ = app.on_key(KeyInput::Ctrl('o'));
    let a = app.on_key(KeyInput::Esc);
    assert_eq!(a, Action::Ignore);
    assert_eq!(app.mode, AppMode::Normal);
    assert_eq!(app.filename, "[No Name]");
}

#[test]
fn prompt_flow_dispatches_once() {
    let mut app = named_app("f.rs");
    let a = app.on_key(KeyInput::Ctrl('p'));
    assert_eq!(a, Action::Ignore);
    assert_eq!(app.mode, AppMode::Prompting);
    let a = app.on_key(KeyInput::Char('u'));
    assert_eq!(a, Action::EditPrompt);
    let a = app.on_key(KeyInput::Enter);
    assert_eq!(a, Action::Dispatch);
    assert_eq!(app.mode, AppMode::Processing);
}

#[test]
fn prompt_escape_cancels() {
    let mut app = named_app("f.rs");
    let _ = app.on_key(KeyInput::Ctrl('p'));
    let a = app.on_key(KeyInput::Esc);
    assert_eq!(a, Action::Ignore);
    assert_eq!(app.mode, AppMode::Normal);
}

#[test]
fn processing_ignores_everything_but_quit() {
    let mut app = named_app("f.rs");
    let _ = app.on_key(KeyInput::Ctrl('p'));
    let _ = app.on_key(KeyInput::Enter);
    for k in [
        KeyInput::Char('x'),
        KeyInput::Enter,
        KeyInput::Esc,
        KeyInput::Other,
        KeyInput::Ctrl('k'),
        KeyInput::Ctrl('p'),
    ] {
        let a = app.on_key(k);
        assert_eq!(a, Action::Ignore);
        assert_eq!(app.mode, AppMode::Processing);
        assert!(!app.should_quit);
        assert!(!app.is_modified);
    }
    let a = app.on_key(KeyInput::Ctrl('q'));
    assert_eq!(a, Action::Ignore);
    assert!(app.should_quit);
}

#[test]
fn ai_error_is_rendered_into_the_buffer() {
    let mut app = named_app("f.rs");
    let _ = app.on_key(KeyInput::Ctrl('p'));
    let _ = app.on_key(KeyInput::Enter);
    let msg = format_ai_error("rate limited");
    let lines = app.apply_ai_result(&msg);
    assert_eq!(lines, vec!["Error: rate limited".to_string()]);
    assert_eq!(app.mode, AppMode::Normal);
    assert!(app.is_modified);
}

#[test]
fn ai_result_replaces_buffer_and_marks_dirty() {
    let mut app = named_app("f.rs");
    let _ = app.on_key(KeyInput::Ctrl('p'));
    let _ = app.on_key(KeyInput::Enter);
    let lines = app.apply_ai_result("HELLO");
    assert_eq!(lines, vec!["HELLO".to_string()]);
    assert_eq!(app.mode, AppMode::Normal);
    assert!(app.is_modified);
    let a = app.on_key(KeyInput::Enter);
    assert_eq!(a, Action::EditBuffer);
}

#[test]
fn snapshot_fixes_the_dispatch_inputs() {
    let app = named_app("f.rs");
    let req = app.snapshot_request("code".to_string(), "make it faster".to_string());
    assert_eq!(req.api_key, "secret");
    assert_eq!(req.code, "code");
    assert_eq!(req.filename, "f.rs");
    assert_eq!(req.instruction, "make it faster");
}

#[test]
fn confirm_quit_yes_on_named_file_saves_then_quits() {
    let mut app = named_app("out.txt");
    app.note_buffer_edit(true);
    let _ = app.on_key(KeyInput::Ctrl('q'));
    let a = app.on_key(KeyInput::Char('y'));
    assert_eq!(a, Action::SaveAndQuit);
    app.finish_quit_save(true, "");
    assert!(app.should_quit);
    assert!(!app.is_modified);
}

#[test]
fn confirm_quit_failed_save_returns_to_normal() {
    let mut app = named_app("out.txt");
    app.note_buffer_edit(true);
    let _ = app.on_key(KeyInput::Ctrl('q'));
    let _ = app.on_key(KeyInput::Char('Y'));
    app.finish_quit_save(false, "denied");
    assert!(!app.should_quit);
    assert!(app.is_modified);
    assert_eq!(app.mode, AppMode::Normal);
    assert_eq!(app.status_message.as_deref(), Some("Error saving: denied"));
}

#[test]
fn confirm_quit_yes_on_unnamed_file_opens_save_as() {
    let mut app = unnamed_app();
    app.note_buffer_edit(true);
    let _ = app.on_key(KeyInput::Ctrl('q'));
    let a = app.on_key(KeyInput::Char('y'));
    assert_eq!(a, Action::OpenSaveAs);
    assert_eq!(app.mode, AppMode::SaveAs);
    assert!(!app.should_quit);
}

#[test]
fn confirm_quit_no_quits_without_saving() {
    let mut app = named_app("out.txt");
    app.note_buffer_edit(true);
    let _ = app.on_key(KeyInput::Ctrl('q'));
    let a = app.on_key(KeyInput::Char('n'));
    assert_eq!(a, Action::Ignore);
    assert!(app.should_quit);
    assert!(app.is_modified);
}

#[test]
fn confirm_quit_escape_cancels() {
    let mut app = named_app("out.txt");
    app.note_buffer_edit(true);
    let _ = app.on_key(KeyInput::Ctrl('q'));
    let a = app.on_key(KeyInput::Esc);
    assert_eq!(a, Action::Ignore);
    assert_eq!(app.mode, AppMode::Normal);
    assert!(!app.should_quit);
}

#[test]
fn search_flow_moves_to_normal() {
    let mut app = named_app("f.rs");
    let a = app.on_key(KeyInput::Ctrl('f'));
    assert_eq!(a, Action::Ignore);
    assert_eq!(app.mode, AppMode::Search);
    let a = app.on_key(KeyInput::Char('f'));
    assert_eq!(a, Action::EditSearch);
    let a = app.on_key(KeyInput::Enter);
    assert_eq!(a, Action::RunSearch);
    assert_eq!(app.mode, AppMode::Normal);
}

#[test]
fn setup_flow_persists_trimmed_key() {
    let mut app = App::new(None, Config::default());
    assert_eq!(app.mode, AppMode::Setup);
    let a = app.on_key(KeyInput::Char('k'));
    assert_eq!(a, Action::EditSetup);
    let a = app.on_key(KeyInput::Enter);
    assert_eq!(a, Action::SubmitApiKey);
    let cfg = app.submit_api_key("  KEY123  ");
    assert_eq!(cfg.api_key, "KEY123");
    assert_eq!(app.mode, AppMode::Setup);
    app.finish_config_save(false);
    assert_eq!(app.mode, AppMode::Setup);
    app.finish_config_save(true);
    assert_eq!(app.mode, AppMode::Normal);
}

#[test]
fn setup_escape_quits() {
    let mut app = App::new(None, Config::default());
    let a = app.on_key(KeyInput::Esc);
    assert_eq!(a, Action::Ignore);
    assert!(app.should_quit);
}

#[test]
fn normal_mode_forwards_other_keys_to_buffer() {
    let mut app = named_app("f.rs");
    assert_eq!(app.on_key(KeyInput::Char('a')), Action::EditBuffer);
    assert_eq!(app.on_key(KeyInput::Other), Action::EditBuffer);
    assert_eq!(app.on_key(KeyInput::Ctrl('x')), Action::EditBuffer);
    assert_eq!(app.mode, AppMode::Normal);
}
