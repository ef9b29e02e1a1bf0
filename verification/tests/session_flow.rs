use prefs_editor::CancellationEvent;
use prefs_editor::KeyAction;
use prefs_editor::KeyCode;
use prefs_editor::keys::CONTROL;
use prefs_editor::keys::SUPER;
use prefs_editor::KeyInput;
use prefs_editor::KeyModifiers;
use prefs_editor::PreferencesEditorView;
use prefs_editor::SaveError;
use prefs_editor::SpanStyle;
use prefs_editor::StatusKind;

fn open(contents: &str) -> PreferencesEditorView {
    PreferencesEditorView::new("/home/op/preferences.md".to_string(), contents.to_string())
}

fn key(code: KeyCode, control: bool, super_key: bool) -> KeyInput {
    let mut bits = 0;
    if control {
        bits |= CONTROL;
    }
    if super_key {
        bits |= SUPER;
    }
    KeyInput { code, modifiers: KeyModifiers { bits } }
}

fn status_of(session: &PreferencesEditorView) -> Option<(String, StatusKind)> {
    session.status_message().map(|message| (message.text().to_string(), message.kind()))
}

#[test]
fn new_session_starts_clean_and_open() {
    let session = open("hello");
    assert_eq!(session.text(), "hello");
    assert_eq!(session.last_saved_text(), "hello");
    assert_eq!(session.display_path(), "/home/op/preferences.md");
    assert!(!session.is_dirty());
    assert!(!session.is_complete());
    assert!(!session.confirm_discard());
    assert!(session.status_message().is_none());
}

#[test]
fn edit_that_changes_text_marks_dirty() {
    let mut session = open("a");
    assert!(session.apply_editor_change("ab".to_string()));
    assert!(session.is_dirty());
    assert_eq!(session.text(), "ab");
    assert_eq!(session.last_saved_text(), "a");
}

#[test]
fn dirty_follows_text_through_a_run_of_edits() {
    let mut session = open("one");
    let texts = ["one", "on", "o", "", "o", "one", "one!", "one"];
    for text in texts {
        session.apply_editor_change(text.to_string());
        assert_eq!(session.is_dirty(), session.text() != session.last_saved_text());
        assert_eq!(session.is_dirty(), text != "one");
    }
    session.apply_editor_change("two".to_string());
    session.save(Ok(()));
    assert_eq!(session.is_dirty(), session.text() != session.last_saved_text());
    session.apply_editor_change("one".to_string());
    assert!(session.is_dirty());
    session.apply_editor_change("two".to_string());
    assert!(!session.is_dirty());
}

#[test]
fn edit_that_changes_nothing_has_no_effect() {
    let mut session = open("x");
    session.apply_editor_change("xy".to_string());
    session.request_close();
    let before = status_of(&session);
    assert!(before.is_some());
    assert!(!session.apply_editor_change("xy".to_string()));
    assert!(session.is_dirty());
    assert!(session.confirm_discard());
    assert_eq!(status_of(&session), before);
    session.request_close();
    assert!(session.is_complete());
}

#[test]
fn edit_that_changes_text_clears_status_and_confirmation() {
    let mut session = open("x");
    session.apply_editor_change("xy".to_string());
    session.request_close();
    assert!(session.confirm_discard());
    assert!(session.apply_editor_change("xyz".to_string()));
    assert!(!session.confirm_discard());
    assert!(session.status_message().is_none());
    assert!(session.is_dirty());
}

#[test]
fn edit_after_save_message_clears_the_message() {
    let mut session = open("x");
    session.apply_editor_change("xy".to_string());
    session.save(Ok(()));
    assert!(session.status_message().is_some());
    session.apply_editor_change("xyz".to_string());
    assert!(session.status_message().is_none());
}

#[test]
fn successful_save_cleans_and_records_the_text() {
    let mut session = open("a");
    session.apply_editor_change("abc".to_string());
    session.request_close();
    assert!(session.confirm_discard());
    session.save(Ok(()));
    assert!(!session.is_dirty());
    assert!(!session.confirm_discard());
    assert!(!session.is_complete());
    assert_eq!(session.last_saved_text(), "abc");
    assert_eq!(session.text(), "abc");
    assert_eq!(
        status_of(&session),
        Some(("Saved to /home/op/preferences.md".to_string(), StatusKind::Info))
    );
}

#[test]
fn save_of_clean_session_reports_the_save() {
    let mut session = open("a");
    session.save(Ok(()));
    assert!(!session.is_dirty());
    assert_eq!(session.last_saved_text(), "a");
    assert_eq!(
        status_of(&session),
        Some(("Saved to /home/op/preferences.md".to_string(), StatusKind::Info))
    );
}

#[test]
fn failed_write_keeps_the_session_dirty_and_open() {
    let mut session = open("a");
    session.apply_editor_change("ab".to_string());
    session.save(Err(SaveError::WriteFailed("permission denied".to_string())));
    assert!(session.is_dirty());
    assert!(!session.is_complete());
    assert!(!session.confirm_discard());
    assert_eq!(session.text(), "ab");
    assert_eq!(session.last_saved_text(), "a");
    assert_eq!(
        status_of(&session),
        Some(("Failed to save preferences: permission denied".to_string(), StatusKind::Error))
    );
}

#[test]
fn failed_directory_creation_is_reported_like_a_failed_write() {
    let mut session = open("a");
    session.apply_editor_change("ab".to_string());
    session.request_close();
    session.save(Err(SaveError::DirectoryCreateFailed("read-only file system".to_string())));
    assert!(session.is_dirty());
    assert!(!session.is_complete());
    assert!(session.confirm_discard());
    assert_eq!(session.last_saved_text(), "a");
    assert_eq!(
        status_of(&session),
        Some(("Failed to save preferences: read-only file system".to_string(), StatusKind::Error))
    );
}

#[test]
fn failed_save_replaces_an_earlier_status() {
    let mut session = open("a");
    session.save(Ok(()));
    session.save(Err(SaveError::WriteFailed("disk full".to_string())));
    assert!(!session.is_dirty());
    assert_eq!(
        status_of(&session),
        Some(("Failed to save preferences: disk full".to_string(), StatusKind::Error))
    );
    session.save(Ok(()));
    assert_eq!(
        status_of(&session),
        Some(("Saved to /home/op/preferences.md".to_string(), StatusKind::Info))
    );
}

#[test]
fn save_error_gives_its_message() {
    assert_eq!(SaveError::WriteFailed("w".to_string()).message(), "w");
    assert_eq!(SaveError::DirectoryCreateFailed("d".to_string()).message(), "d");
}

#[test]
fn close_of_clean_session_completes_in_one_request() {
    let mut session = open("a");
    session.request_close();
    assert!(session.is_complete());
    assert!(!session.confirm_discard());
    assert!(session.status_message().is_none());
}

#[test]
fn close_of_dirty_session_takes_two_requests() {
    let mut session = open("a");
    session.apply_editor_change("b".to_string());
    session.request_close();
    assert!(!session.is_complete());
    assert!(session.confirm_discard());
    assert_eq!(
        status_of(&session),
        Some((
            "Unsaved changes. Press Esc again to discard, or Ctrl+S to save.".to_string(),
            StatusKind::Warning
        ))
    );
    session.request_close();
    assert!(session.is_complete());
    assert!(!session.confirm_discard());
}

#[test]
fn edit_between_close_requests_arms_the_confirmation_anew() {
    let mut session = open("a");
    session.apply_editor_change("b".to_string());
    session.request_close();
    assert!(session.confirm_discard());
    session.apply_editor_change("bc".to_string());
    assert!(!session.confirm_discard());
    session.request_close();
    assert!(!session.is_complete());
    assert!(session.confirm_discard());
    session.request_close();
    assert!(session.is_complete());
}

#[test]
fn edit_back_to_the_saved_text_lets_one_request_close() {
    let mut session = open("x");
    session.apply_editor_change("xy".to_string());
    session.request_close();
    session.apply_editor_change("x".to_string());
    assert!(!session.is_dirty());
    assert!(!session.confirm_discard());
    session.request_close();
    assert!(session.is_complete());
}

#[test]
fn save_between_close_requests_resolves_the_confirmation() {
    let mut session = open("x");
    session.apply_editor_change("xy".to_string());
    session.request_close();
    session.save(Ok(()));
    assert!(!session.confirm_discard());
    assert!(!session.is_complete());
    session.request_close();
    assert!(session.is_complete());
}

#[test]
fn complete_session_stays_complete() {
    let mut session = open("x");
    session.request_close();
    assert!(session.is_complete());
    session.apply_editor_change("xy".to_string());
    assert!(session.is_complete());
    session.request_close();
    assert!(session.is_complete());
    assert!(!session.confirm_discard());
    session.save(Err(SaveError::WriteFailed("late".to_string())));
    assert!(session.is_complete());
    session.save(Ok(()));
    assert!(session.is_complete());
}

#[test]
fn edit_then_save_then_close() {
    let mut session = PreferencesEditorView::new("prefs.md".to_string(), "a".to_string());
    session.apply_editor_change("ab".to_string());
    assert!(session.is_dirty());
    session.save(Ok(()));
    assert!(!session.is_dirty());
    assert_eq!(status_of(&session), Some(("Saved to prefs.md".to_string(), StatusKind::Info)));
    session.request_close();
    assert!(session.is_complete());
}

#[test]
fn edit_then_two_close_requests_discard() {
    let mut session = open("x");
    session.apply_editor_change("xy".to_string());
    session.request_close();
    assert!(session.confirm_discard());
    assert_eq!(session.status_message().map(|message| message.kind()), Some(StatusKind::Warning));
    assert!(!session.is_complete());
    session.request_close();
    assert!(session.is_complete());
    assert_eq!(session.last_saved_text(), "x");
    assert!(session.is_dirty());
}

#[test]
fn cancellation_signal_is_a_close_request_and_is_handled() {
    let mut session = open("x");
    session.apply_editor_change("xy".to_string());
    assert_eq!(session.on_ctrl_c(), CancellationEvent::Handled);
    assert!(!session.is_complete());
    assert!(session.confirm_discard());
    assert_eq!(session.on_ctrl_c(), CancellationEvent::Handled);
    assert!(session.is_complete());

    let mut clean = open("x");
    assert_eq!(clean.on_ctrl_c(), CancellationEvent::Handled);
    assert!(clean.is_complete());
}

#[test]
fn accelerated_c_closes_through_the_confirmation() {
    let mut session = open("x");
    session.apply_editor_change("xy".to_string());
    let pressed = key(KeyCode::Char('c'), true, false);
    assert_eq!(session.handle_key_event(pressed), KeyAction::Close);
    assert!(session.confirm_discard());
    assert!(!session.is_complete());
    let pressed = key(KeyCode::Char('C'), false, true);
    assert_eq!(session.handle_key_event(pressed), KeyAction::Close);
    assert!(session.is_complete());
}

#[test]
fn accelerated_s_asks_the_host_to_save_and_changes_nothing() {
    let mut session = open("x");
    session.apply_editor_change("xy".to_string());
    session.request_close();
    for (code, control, super_key) in
        [('s', true, false), ('S', true, false), ('s', false, true), ('S', true, true)]
    {
        let pressed = key(KeyCode::Char(code), control, super_key);
        assert_eq!(session.handle_key_event(pressed), KeyAction::Save);
    }
    assert!(session.is_dirty());
    assert!(session.confirm_discard());
    assert!(!session.is_complete());
    assert_eq!(session.text(), "xy");
}

#[test]
fn other_keys_are_edits_and_change_nothing_by_themselves() {
    let mut session = open("x");
    session.apply_editor_change("xy".to_string());
    session.request_close();
    let keys = [
        key(KeyCode::Char('s'), false, false),
        key(KeyCode::Char('c'), false, false),
        key(KeyCode::Char('x'), true, false),
        key(KeyCode::Char('a'), false, true),
        key(KeyCode::Other, true, false),
        key(KeyCode::Other, false, false),
    ];
    for pressed in keys {
        assert_eq!(session.handle_key_event(pressed), KeyAction::Edit);
        assert!(session.confirm_discard());
        assert!(!session.is_complete());
    }
}

#[test]
fn classify_agrees_with_handle_key_event() {
    let save = key(KeyCode::Char('S'), true, false);
    let close = key(KeyCode::Char('c'), false, true);
    let edit = key(KeyCode::Char('c'), false, false);
    assert_eq!(save.classify(), KeyAction::Save);
    assert_eq!(close.classify(), KeyAction::Close);
    assert_eq!(edit.classify(), KeyAction::Edit);
}

#[test]
fn status_line_shows_standing_note_without_a_message() {
    let mut session = open("x");
    let span = session.status_span();
    assert_eq!(span.content, "All changes saved");
    assert_eq!(span.style, SpanStyle::Green);
    session.apply_editor_change("xy".to_string());
    let span = session.status_span();
    assert_eq!(span.content, "Unsaved changes — press Ctrl+S to save");
    assert_eq!(span.style, SpanStyle::Yellow);
}

#[test]
fn status_line_shows_message_in_the_colour_of_its_kind() {
    let mut session = open("x");
    session.apply_editor_change("xy".to_string());
    session.request_close();
    let span = session.status_span();
    assert_eq!(span.content, "Unsaved changes. Press Esc again to discard, or Ctrl+S to save.");
    assert_eq!(span.style, SpanStyle::Yellow);
    session.save(Err(SaveError::WriteFailed("no".to_string())));
    let span = session.status_span();
    assert_eq!(span.content, "Failed to save preferences: no");
    assert_eq!(span.style, SpanStyle::Red);
    session.save(Ok(()));
    let span = session.status_span();
    assert_eq!(span.content, "Saved to /home/op/preferences.md");
    assert_eq!(span.style, SpanStyle::Green);
}

#[test]
fn status_line_has_words_in_every_state() {
    let mut session = PreferencesEditorView::new(String::new(), String::new());
    assert!(!session.status_span().content.is_empty());
    session.save(Ok(()));
    assert!(!session.status_span().content.is_empty());
    session.save(Err(SaveError::WriteFailed(String::new())));
    assert_eq!(session.status_span().content, "Failed to save preferences: ");
    session.save(Err(SaveError::DirectoryCreateFailed(String::new())));
    assert!(!session.status_span().content.is_empty());
    session.apply_editor_change("x".to_string());
    assert!(!session.status_span().content.is_empty());
    session.request_close();
    assert!(!session.status_span().content.is_empty());
    session.request_close();
    assert!(!session.status_span().content.is_empty());
}
