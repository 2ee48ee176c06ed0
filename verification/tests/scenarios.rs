use egui_files::app::{App, Command, Status, UserError};
use egui_files::codec::encrypt_contents;
use egui_files::file::{File, FileError};
use egui_files::sync::Message;

#[test]
fn fresh_start() {
    let app = App::default();
    assert!(app.file().path().is_none());
    assert_eq!(app.file().contents().as_str(), "");
    assert_eq!(app.file().is_changed(), false);
    assert_eq!(app.status(), Status::NoFile);
    assert_eq!(app.status().label(), "No file open");
    assert_eq!(app.error(), None);
}

#[test]
fn edit_then_save() {
    let mut file = File::from_parts(Some(String::from("/tmp/a.txt")), String::new(), true);
    *file.contents_mut() = String::from("hi");
    file.mark_as_unsaved();
    assert_eq!(file.is_changed(), true);
    // a successful save completion confirms:
    file.force_set_saved();
    assert_eq!(file.is_changed(), false);
}

#[test]
fn close_guard_flow() {
    let mut app = App::default();
    app.set_key(String::from("pw"));

    // Register and save a document.
    *app.contents_mut() = String::from("v1");
    app.edited();
    let cmd = app.file_save_as(String::from("/tmp/a.enc"));
    assert!(matches!(cmd, Command::StartSave { .. }));
    let cmd = app.handle_message(Message::FinishSave(Ok(())));
    assert!(matches!(cmd, Command::Idle));
    assert_eq!(app.status(), Status::Saved);

    // Edit: the document drops out of the saved state.
    *app.contents_mut() = String::from("v2");
    app.edited();
    assert_eq!(app.status(), Status::Unsaved);

    // The user asks to close the window; the guard blocks (a dialog shows).
    assert_eq!(app.on_close_event(), false);
    assert!(app.is_attempting_close());

    // The user clicks "Save": a save is dispatched, the close re-attempted.
    let cmd = app.file_save_or_save_as();
    assert!(matches!(cmd, Command::StartSave { .. }));
    let cmd = app.call_close_action();
    assert!(matches!(cmd, Command::Idle));
    // Still writing and unsaved: the close may not run yet.
    assert!(!app.should_close_window());

    // The save completes: the pending close action now runs.
    let _ = app.handle_message(Message::FinishSave(Ok(())));
    assert!(app.should_close_window());
}

#[test]
fn concurrent_save_race_leaves_newer_edit_unsaved() {
    let mut app = App::default();
    app.set_key(String::from("pw"));
    *app.contents_mut() = String::from("v1");
    app.edited();

    // A save begins on contents "v1".
    let cmd = app.file_save_as(String::from("/tmp/race.enc"));
    let saved_contents = match cmd {
        Command::StartSave { contents, .. } => contents,
        _ => panic!("expected a save to start"),
    };
    assert_eq!(saved_contents, "v1");
    assert_eq!(app.status(), Status::Writing);

    // The user edits to "v2" before the "v1" save completes.
    *app.contents_mut() = String::from("v2");
    app.edited();

    // The stale "v1" completion arrives: the newer text must stay unsaved.
    let _ = app.handle_message(Message::FinishSave(Ok(())));
    assert_eq!(app.file().is_changed(), true);
    assert_eq!(app.status(), Status::Unsaved);
    assert_eq!(app.file().contents().as_str(), "v2");
}

#[test]
fn matching_save_completion_marks_saved() {
    let mut app = App::default();
    app.set_key(String::from("pw"));
    *app.contents_mut() = String::from("v1");
    app.edited();
    let _ = app.file_save_as(String::from("/tmp/ok.enc"));
    // No edit between dispatch and completion: the completion is honored.
    let _ = app.handle_message(Message::FinishSave(Ok(())));
    assert_eq!(app.status(), Status::Saved);
    assert_eq!(app.file().is_changed(), false);
}

#[test]
fn failed_save_is_not_marked_saved() {
    let mut app = App::default();
    app.set_key(String::from("pw"));
    *app.contents_mut() = String::from("body");
    app.edited();
    let _ = app.file_save_as(String::from("/tmp/fail.enc"));
    let _ = app.handle_message(Message::FinishSave(Err(FileError::Io)));
    assert_eq!(app.status(), Status::Unsaved);
    assert_eq!(app.error(), Some(UserError::File(FileError::Io)));
    assert_eq!(UserError::File(FileError::Io).message(), "Input/output error");
}

#[test]
fn save_needs_a_password() {
    let mut app = App::default();
    let cmd = app.file_save_as(String::from("/tmp/nokey.enc"));
    assert!(matches!(cmd, Command::Idle));
    assert_eq!(app.error(), Some(UserError::MissingKeyForSave));
    assert_eq!(
        UserError::MissingKeyForSave.message(),
        "Please enter a password"
    );
    // The path was registered before the key check, as a save-as does.
    assert_eq!(app.file().path(), Some(&String::from("/tmp/nokey.enc")));
    app.clear_error();
    assert_eq!(app.error(), None);
}

#[test]
fn unregistered_save_asks_for_a_path() {
    let mut app = App::default();
    app.set_key(String::from("pw"));
    *app.contents_mut() = String::from("text");
    app.edited();
    let cmd = app.file_save_or_save_as();
    assert!(matches!(cmd, Command::PickSavePath));
}

#[test]
fn no_second_save_while_writing() {
    let mut app = App::default();
    app.set_key(String::from("pw"));
    *app.contents_mut() = String::from("v1");
    app.edited();
    let cmd = app.file_save_as(String::from("/tmp/gate.enc"));
    assert!(matches!(cmd, Command::StartSave { .. }));
    assert!(app.is_writing());

    // The in-flight gate refuses a second dispatch.
    let cmd = app.file_save_or_save_as();
    assert!(matches!(cmd, Command::Idle));
    let cmd = app.file_save_as(String::from("/tmp/other.enc"));
    assert!(matches!(cmd, Command::Idle));
    assert_eq!(app.status(), Status::Writing);
    assert_eq!(app.status().label(), "Writing...");

    // New and open are refused as well.
    app.file_new();
    assert_eq!(app.file().contents().as_str(), "v1");
    let cmd = app.file_open();
    assert!(matches!(cmd, Command::Idle));
}

#[test]
fn open_flow_through_controller() {
    // Craft a real encrypted container for the controller to open.
    let container = encrypt_contents("stored text", "pw").expect("encrypt");

    let mut app = App::default();
    app.set_key(String::from("pw"));
    let cmd = app.file_open();
    assert!(matches!(cmd, Command::PickOpenPath));

    let path = String::from("/tmp/doc.enc");
    assert!(app.wants_open(&path));
    app.finish_open(path.clone(), &container);
    assert_eq!(app.error(), None);
    assert_eq!(app.file().contents().as_str(), "stored text");
    assert_eq!(app.status(), Status::Saved);

    // The same file is not opened again.
    assert!(!app.wants_open(&path));
}

#[test]
fn open_with_wrong_password_sets_error() {
    let container = encrypt_contents("stored text", "right").expect("encrypt");
    let mut app = App::default();
    app.set_key(String::from("wrong"));
    app.finish_open(String::from("/tmp/doc.enc"), &container);
    assert!(matches!(
        app.error(),
        Some(UserError::File(FileError::Cryption(_)))
    ));
    // The current document stays.
    assert_eq!(app.file().contents().as_str(), "");
    assert_eq!(app.status(), Status::NoFile);
}

#[test]
fn open_needs_a_password() {
    let mut app = App::default();
    let cmd = app.file_open();
    assert!(matches!(cmd, Command::Idle));
    assert_eq!(app.error(), Some(UserError::MissingKeyForOpen));
    assert_eq!(
        UserError::MissingKeyForOpen.message(),
        "Please enter the password for the file you wish to open"
    );
}

#[test]
fn open_blocked_by_guard_then_discard() {
    let mut app = App::default();
    app.set_key(String::from("pw"));
    *app.contents_mut() = String::from("unsaved text");
    app.edited();

    // Unsaved changes: the open request is parked.
    let cmd = app.file_open();
    assert!(matches!(cmd, Command::Idle));
    assert!(app.is_attempting_close());

    // The user clicks "Don't save": the pending open proceeds.
    app.override_close_condition();
    let cmd = app.call_close_action();
    assert!(matches!(cmd, Command::PickOpenPath));
    assert!(!app.is_attempting_close());
}

#[test]
fn open_side_io_failure_reaches_the_error_slot() {
    let mut app = App::default();
    app.report_open_io_error();
    assert_eq!(app.error(), Some(UserError::File(FileError::Io)));
    assert_eq!(app.error().unwrap().message(), "Input/output error");
    app.clear_error();
    assert_eq!(app.error(), None);
}

#[test]
fn close_event_with_clean_document_passes() {
    let mut app = App::default();
    // Nothing to lose: the window may close at once.
    assert_eq!(app.on_close_event(), true);
}

#[test]
fn new_file_resets_document() {
    let mut app = App::default();
    app.set_key(String::from("pw"));
    *app.contents_mut() = String::from("v1");
    app.edited();
    let _ = app.file_save_as(String::from("/tmp/n.enc"));
    let _ = app.handle_message(Message::FinishSave(Ok(())));
    assert_eq!(app.status(), Status::Saved);

    // Saved: New passes the guard at once.
    app.file_new();
    assert!(app.file().path().is_none());
    assert_eq!(app.file().contents().as_str(), "");
    assert_eq!(app.status(), Status::NoFile);
}
