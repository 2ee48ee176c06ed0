use vstd::prelude::*;
use vstd::utf8::{decode_utf8, encode_utf8, valid_utf8};

use crate::attempt::{Attempt, AttemptView};
use crate::codec::decryption;
use crate::file::{File, FileError, FileView};
use crate::sync::Message;

verus! {

/// Actions to allow after a close attempt passes.
#[derive(Clone, Copy, Debug, PartialEq, Eq, Structural)]
pub enum CloseFileAction {
    /// Replace the current document with a fresh empty one.
    NewFile,
    /// Open a different document.
    OpenFile,
    /// Terminate the application.
    CloseWindow,
}

/// Save/dirty status to render, one value per frame.
#[derive(Clone, Copy, Debug, PartialEq, Eq, Structural)]
pub enum Status {
    /// A save is running on a background task.
    Writing,
    /// The document is registered and saved.
    Saved,
    /// The document holds unsaved changes.
    Unsaved,
    /// No file open: unregistered and unchanged.
    NoFile,
}

impl Status {
    /// The label rendered for this status.
    pub open spec fn label_spec(self) -> Seq<char> {
        match self {
            Status::Writing => "Writing..."@,
            Status::Saved => "Saved"@,
            Status::Unsaved => "UNSAVED"@,
            Status::NoFile => "No file open"@,
        }
    }

    /// The label rendered for this status.
    pub fn label(&self) -> (r: &'static str)
        ensures
            r@ == self.label_spec(),
    {
        match self {
            Status::Writing => "Writing...",
            Status::Saved => "Saved",
            Status::Unsaved => "UNSAVED",
            Status::NoFile => "No file open",
        }
    }
}

/// Contents of the single user-visible error slot.
#[derive(Clone, Copy, Debug, PartialEq, Eq, Structural)]
pub enum UserError {
    /// A save was requested before a passphrase was entered.
    MissingKeyForSave,
    /// An open was requested before a passphrase was entered.
    MissingKeyForOpen,
    /// A save or load operation failed with a classified error.
    File(FileError),
}

impl UserError {
    /// User-facing text for this error.
    pub open spec fn message_spec(self) -> Seq<char> {
        match self {
            UserError::MissingKeyForSave => "Please enter a password"@,
            UserError::MissingKeyForOpen => "Please enter the password for the file you wish to open"@,
            UserError::File(e) => e.message_spec(),
        }
    }

    /// User-facing text for this error.
    pub fn message(&self) -> (r: &'static str)
        ensures
            r@ == self.message_spec(),
    {
        match self {
            UserError::MissingKeyForSave => "Please enter a password",
            UserError::MissingKeyForOpen => "Please enter the password for the file you wish to open",
            UserError::File(e) => e.message(),
        }
    }
}

/// Work the controller hands back to the surrounding shell: the shell
/// performs the outside part (spawn the save task, show a dialog) and
/// reports the outcome back through the controller's methods.
pub enum Command {
    /// Nothing to do.
    Idle,
    /// Off the interactive thread: encrypt `contents` under `passphrase`,
    /// write the container to `path` (create or truncate), and deliver
    /// exactly one [`Message::FinishSave`] back.
    StartSave { path: String, contents: String, passphrase: String },
    /// Show the save-path dialog; report a chosen path to `file_save_as`.
    PickSavePath,
    /// Show the open-path dialog; report a chosen path through `wants_open`
    /// and `finish_open`.
    PickOpenPath,
}

/// Mathematical value of a [`Command`].
#[verifier::ext_equal]
pub enum CommandView {
    Idle,
    StartSave { path: Seq<char>, contents: Seq<char>, passphrase: Seq<char> },
    PickSavePath,
    PickOpenPath,
}

impl View for Command {
    type V = CommandView;

    closed spec fn view(&self) -> CommandView {
        match self {
            Command::Idle => CommandView::Idle,
            Command::StartSave { path, contents, passphrase } => CommandView::StartSave {
                path: path@,
                contents: contents@,
                passphrase: passphrase@,
            },
            Command::PickSavePath => CommandView::PickSavePath,
            Command::PickOpenPath => CommandView::PickOpenPath,
        }
    }
}

/// Mathematical state of the controller.
#[verifier::ext_equal]
pub struct AppView {
    /// The current document.
    pub file: FileView,
    /// The passphrase used to encrypt and decrypt files, once entered.
    pub key: Option<Seq<char>>,
    /// A save is in flight on a background task.
    pub writing: bool,
    /// Guard protecting destructive actions against unsaved changes.
    pub attempt: AttemptView<CloseFileAction>,
    /// The window should close on the next frame.
    pub close_window: bool,
    /// The user-visible error slot.
    pub error: Option<UserError>,
    /// Counts every registered change to the document contents.
    pub version: u64,
    /// The value `version` had when the in-flight save was dispatched.
    pub save_version: u64,
}

impl AppView {
    /// The current document may be discarded: it holds no unsaved changes,
    /// or the user overrode the guard.
    pub open spec fn can_close(self) -> bool {
        self.attempt.passes(!self.file.is_changed())
    }

    /// Status rendered for the current state.
    pub open spec fn status(self) -> Status {
        if self.writing {
            Status::Writing
        } else if self.file.is_registered_and_saved() {
            Status::Saved
        } else if self.file.is_changed() {
            Status::Unsaved
        } else {
            Status::NoFile
        }
    }

    /// Transition of a save of a registered document: without a passphrase
    /// the error slot is set; otherwise the save is dispatched, the in-flight
    /// flag raised, and the current document version recorded so a stale
    /// completion can be recognized.
    pub open spec fn save_existing_next(self, path: Seq<char>) -> (AppView, CommandView) {
        match self.key {
            None => (
                AppView { error: Some(UserError::MissingKeyForSave), ..self },
                CommandView::Idle,
            ),
            Some(k) => (
                AppView { writing: true, save_version: self.version, ..self },
                CommandView::StartSave { path, contents: self.file.contents, passphrase: k },
            ),
        }
    }

    /// Transition of `file_save_or_save_as`: no second save may start while
    /// one is in flight; a registered document saves to its path, an
    /// unregistered one asks for a path first.
    pub open spec fn save_or_save_as_next(self) -> (AppView, CommandView) {
        if self.writing {
            (self, CommandView::Idle)
        } else {
            match self.file.path {
                Some(p) => self.save_existing_next(p),
                None => (self, CommandView::PickSavePath),
            }
        }
    }

    /// Transition of `file_save_as` once a path was picked: the document is
    /// registered to the path, then saved to it.
    pub open spec fn save_as_next(self, path: Seq<char>) -> (AppView, CommandView) {
        if self.writing {
            (self, CommandView::Idle)
        } else {
            let registered = AppView {
                file: FileView { path: Some(path), ..self.file },
                ..self
            };
            registered.save_existing_next(path)
        }
    }

    /// Transition of an open request: blocked while writing; parked as a
    /// pending attempt while the document holds unsaved changes; refused with
    /// an error while no passphrase is entered; otherwise the shell is asked
    /// to pick a path.
    pub open spec fn open_request_next(self) -> (AppView, CommandView) {
        if self.writing {
            (self, CommandView::Idle)
        } else if !self.can_close() {
            (
                AppView {
                    attempt: AttemptView {
                        action: Some(CloseFileAction::OpenFile),
                        overridden: self.attempt.overridden,
                    },
                    ..self
                },
                CommandView::Idle,
            )
        } else {
            match self.key {
                None => (
                    AppView { error: Some(UserError::MissingKeyForOpen), ..self },
                    CommandView::Idle,
                ),
                Some(_) => (self, CommandView::PickOpenPath),
            }
        }
    }

    /// Transition of `file_new`: blocked while writing; parked as a pending
    /// attempt while the document holds unsaved changes; otherwise the
    /// document is replaced by a fresh empty one.
    pub open spec fn new_file_next(self) -> AppView {
        if self.writing {
            self
        } else if !self.can_close() {
            AppView {
                attempt: AttemptView {
                    action: Some(CloseFileAction::NewFile),
                    overridden: self.attempt.overridden,
                },
                ..self
            }
        } else {
            AppView { file: FileView::empty_file(), ..self }
        }
    }

    /// Transition of `call_close_action`: once the guard passes, the parked
    /// action runs and the guard resets; a parked window close only raises
    /// the close flag, since the window goes down before any reset matters.
    pub open spec fn close_action_next(self) -> (AppView, CommandView) {
        if !self.can_close() {
            (self, CommandView::Idle)
        } else {
            match self.attempt.action {
                None => (self, CommandView::Idle),
                Some(CloseFileAction::OpenFile) => {
                    let (s1, cmd) = self.open_request_next();
                    (
                        AppView {
                            attempt: AttemptView { action: None, overridden: false },
                            ..s1
                        },
                        cmd,
                    )
                },
                Some(CloseFileAction::NewFile) => {
                    let s1 = self.new_file_next();
                    (
                        AppView {
                            attempt: AttemptView { action: None, overridden: false },
                            ..s1
                        },
                        CommandView::Idle,
                    )
                },
                Some(CloseFileAction::CloseWindow) => (
                    AppView { close_window: true, ..self },
                    CommandView::Idle,
                ),
            }
        }
    }

    /// State after a save completion is absorbed: the in-flight flag drops; a
    /// successful completion marks the document saved only when no edit
    /// happened since the save was dispatched (otherwise the newer text stays
    /// unsaved); a failed one records the error and leaves the document
    /// alone.
    pub open spec fn absorb_save_next(self, outcome: Result<(), FileError>) -> AppView {
        match outcome {
            Ok(()) => {
                if self.save_version == self.version {
                    AppView { writing: false, file: self.file.marked_saved(), ..self }
                } else {
                    AppView { writing: false, ..self }
                }
            },
            Err(e) => AppView { writing: false, error: Some(UserError::File(e)), ..self },
        }
    }

    /// Transition of a save-completion message: the completion is absorbed,
    /// then any pending close attempt is re-evaluated.
    pub open spec fn message_next(self, msg: Message) -> (AppView, CommandView) {
        match msg {
            Message::FinishSave(outcome) => {
                let absorbed = self.absorb_save_next(outcome);
                if absorbed.attempt.is_attempting() {
                    absorbed.close_action_next()
                } else {
                    (absorbed, CommandView::Idle)
                }
            },
        }
    }

    /// Transition of a user edit: the document drops out of the saved state
    /// and the version counter moves past any in-flight save.
    pub open spec fn edited_next(self) -> AppView {
        AppView {
            file: self.file.marked_unsaved(),
            version: (self.version + 1) as u64,
            ..self
        }
    }

    /// Transition of the window-close event: a close attempt is parked, and
    /// the window may go down at once only if the guard passes.
    pub open spec fn on_close_event_next(self) -> (AppView, bool) {
        let s1 = AppView {
            attempt: AttemptView {
                action: Some(CloseFileAction::CloseWindow),
                overridden: self.attempt.overridden,
            },
            ..self
        };
        (s1, s1.can_close())
    }
}

/// A save completion that arrives after a later edit never marks the newer
/// text saved: absorbing it leaves the document exactly as it was.
pub proof fn lemma_stale_save_completion_keeps_document(v: AppView)
    requires
        v.save_version != v.version,
    ensures
        v.absorb_save_next(Ok(())).file == v.file,
        !v.absorb_save_next(Ok(())).writing,
{
}

/// A failed save never marks the document saved: absorbing the failure only
/// records the error and drops the in-flight flag.
pub proof fn lemma_failed_save_completion_keeps_document(v: AppView, e: FileError)
    ensures
        v.absorb_save_next(Err(e)).file == v.file,
        !v.absorb_save_next(Err(e)).writing,
        v.absorb_save_next(Err(e)).error == Some(UserError::File(e)),
{
}

/// Main app state: the controller wiring the document, the guard, the codec
/// and the save pipeline together in response to user commands.
pub struct App {
    /// Current file opened.
    file: File,
    /// Key for cryption, once the user entered one.
    key: Option<String>,
    /// Whether a file is currently being written by a background save.
    writing: bool,
    /// Attempt to close file (see `Attempt`).
    attempting_file_close: Attempt<CloseFileAction>,
    /// Whether the program window should be closed on the next frame.
    close_window_on_next_frame: bool,
    /// Display any error message.
    error: Option<UserError>,
    /// Counts every registered change to the document contents.
    version: u64,
    /// The value of `version` when the in-flight save was dispatched.
    save_version: u64,
}

impl View for App {
    type V = AppView;

    closed spec fn view(&self) -> AppView {
        AppView {
            file: self.file@,
            key: self.key.deep_view(),
            writing: self.writing,
            attempt: self.attempting_file_close@,
            close_window: self.close_window_on_next_frame,
            error: self.error,
            version: self.version,
            save_version: self.save_version,
        }
    }
}

impl Default for App {
    /// A fresh controller: empty unregistered document, no passphrase, no
    /// save in flight, no attempt, no error.
    fn default() -> (r: Self)
        ensures
            r@ == (AppView {
                file: FileView::empty_file(),
                key: None,
                writing: false,
                attempt: AttemptView { action: None, overridden: false },
                close_window: false,
                error: None,
                version: 0,
                save_version: 0,
            }),
    {
        App {
            file: File::default(),
            key: None,
            writing: false,
            attempting_file_close: Attempt::default(),
            close_window_on_next_frame: false,
            error: None,
            version: 0,
            save_version: 0,
        }
    }
}

impl App {
    /// The current document state, for rendering.
    pub fn file(&self) -> (r: &File)
        ensures
            r@ == self@.file,
    {
        &self.file
    }

    /// Whether a save is in flight; save/open/new actions are disabled while
    /// it is.
    pub fn is_writing(&self) -> (r: bool)
        ensures
            r == self@.writing,
    {
        self.writing
    }

    /// Whether the window should close on the next frame.
    pub fn should_close_window(&self) -> (r: bool)
        ensures
            r == self@.close_window,
    {
        self.close_window_on_next_frame
    }

    /// Whether a passphrase was entered.
    pub fn has_key(&self) -> (r: bool)
        ensures
            r == (self@.key is Some),
    {
        self.key.is_some()
    }

    /// The document version counter; each registered edit moves it.
    pub fn version(&self) -> (r: u64)
        ensures
            r == self@.version,
    {
        self.version
    }

    /// Enter the passphrase used for every following save and load.
    pub fn set_key(&mut self, key: String)
        ensures
            final(self)@ == (AppView { key: Some(key@), ..old(self)@ }),
    {
        self.key = Some(key);
    }

    /// The current contents of the error slot.
    pub fn error(&self) -> (r: Option<UserError>)
        ensures
            r == self@.error,
    {
        self.error
    }

    /// Record that reading a picked file from disk failed: the open-side I/O
    /// failure goes to the same error slot as every other failure.
    pub fn report_open_io_error(&mut self)
        ensures
            final(self)@ == (AppView {
                error: Some(UserError::File(FileError::Io)),
                ..old(self)@
            }),
    {
        self.error = Some(UserError::File(FileError::Io));
    }

    /// Remove error message.
    pub fn clear_error(&mut self)
        ensures
            final(self)@ == (AppView { error: None, ..old(self)@ }),
    {
        self.error = None;
    }

    /// Status to render this frame.
    pub fn status(&self) -> (s: Status)
        ensures
            s == self@.status(),
    {
        if self.writing {
            Status::Writing
        } else if self.file.is_registered_and_saved() {
            Status::Saved
        } else if self.file.is_changed() {
            Status::Unsaved
        } else {
            Status::NoFile
        }
    }

    /// Mutable access to the document text for the editor widget. An actual
    /// edit must be reported with [`App::edited`].
    pub fn contents_mut(&mut self) -> (r: &mut String)
        ensures
            (*r)@ == old(self)@.file.contents,
            final(self)@ == (AppView {
                file: FileView { contents: (*final(r))@, ..old(self)@.file },
                ..old(self)@
            }),
    {
        self.file.contents_mut()
    }

    /// Report that the user edited the document text: the document drops out
    /// of the saved state, and the version counter moves past any in-flight
    /// save so that a stale completion cannot mark the newer text saved.
    pub fn edited(&mut self)
        requires
            old(self)@.version < u64::MAX,
        ensures
            final(self)@ == old(self)@.edited_next(),
    {
        self.file.mark_as_unsaved();
        self.version = self.version + 1;
    }

    /// Returns `true` if the file is not changed, or the guard condition is
    /// overridden.
    pub fn file_can_close(&self) -> (r: bool)
        ensures
            r == self@.can_close(),
    {
        self.attempting_file_close.check_condition(!self.file.is_changed())
    }

    /// Save existing file on a background task (to be spawned by the shell).
    ///
    /// Should not be run unless the file is already registered.
    fn file_save_existing(&mut self, path: &String) -> (cmd: Command)
        ensures
            ({
                let (next, c) = old(self)@.save_existing_next(path@);
                final(self)@ == next && cmd@ == c
            }),
    {
        let key = match &self.key {
            None => {
                self.error = Some(UserError::MissingKeyForSave);
                return Command::Idle;
            },
            Some(k) => k.clone(),
        };
        self.writing = true;
        self.save_version = self.version;
        Command::StartSave {
            path: path.clone(),
            contents: self.file.contents().clone(),
            passphrase: key,
        }
    }

    /// Save existing file, or save as if not registered.
    pub fn file_save_or_save_as(&mut self) -> (cmd: Command)
        ensures
            ({
                let (next, c) = old(self)@.save_or_save_as_next();
                final(self)@ == next && cmd@ == c
            }),
    {
        if self.writing {
            return Command::Idle;
        }
        let path_option = match self.file.path() {
            Some(p) => Some(p.clone()),
            None => None,
        };
        match path_option {
            Some(path) => self.file_save_existing(&path),
            None => Command::PickSavePath,
        }
    }

    /// Save file as: register the picked path, then save to it.
    pub fn file_save_as(&mut self, path: String) -> (cmd: Command)
        ensures
            ({
                let (next, c) = old(self)@.save_as_next(path@);
                final(self)@ == next && cmd@ == c
            }),
    {
        if self.writing {
            return Command::Idle;
        }
        self.file.set_path(path.clone());
        self.file_save_existing(&path)
    }

    /// Open file: attempt to close the current file first, then ask the
    /// shell for a path.
    pub fn file_open(&mut self) -> (cmd: Command)
        ensures
            ({
                let (next, c) = old(self)@.open_request_next();
                final(self)@ == next && cmd@ == c
            }),
    {
        if self.writing {
            return Command::Idle;
        }
        if !self.file_can_close() {
            self.attempting_file_close.set_action(CloseFileAction::OpenFile);
            return Command::Idle;
        }
        if self.key.is_none() {
            self.error = Some(UserError::MissingKeyForOpen);
            return Command::Idle;
        }
        Command::PickOpenPath
    }

    /// Whether a picked path should be opened at all: the same file is not
    /// opened again.
    pub fn wants_open(&self, path: &String) -> (r: bool)
        ensures
            r == (self@.file.path != Some(path@)),
    {
        match self.file.path() {
            Some(p) => !(*p == *path),
            None => true,
        }
    }

    /// Finish an open: decrypt the container bytes that were read from
    /// `path` and install the document. On failure the error slot is set and
    /// the current document stays.
    pub fn finish_open(&mut self, path: String, container: &[u8])
        requires
            !old(self)@.writing,
        ensures
            old(self)@.key is None ==> final(self)@ == (AppView {
                error: Some(UserError::MissingKeyForOpen),
                ..old(self)@
            }),
            old(self)@.key matches Some(k) ==> ({
                let u = decryption(container@, encode_utf8(k));
                &&& u is None ==> (final(self)@.error matches Some(
                    UserError::File(FileError::Cryption(_)),
                ) && final(self)@ == (AppView { error: final(self)@.error, ..old(self)@ }))
                &&& u matches Some(b) ==> ({
                    &&& !valid_utf8(b) ==> final(self)@ == (AppView {
                        error: Some(UserError::File(FileError::FromUtf8)),
                        ..old(self)@
                    })
                    &&& valid_utf8(b) ==> final(self)@ == (AppView {
                        file: FileView {
                            path: Some(path@),
                            contents: decode_utf8(b),
                            saved: true,
                        },
                        ..old(self)@
                    })
                })
            }),
    {
        let key = match &self.key {
            None => {
                self.error = Some(UserError::MissingKeyForOpen);
                return;
            },
            Some(k) => k.clone(),
        };
        match File::open_from_bytes(path, container, key.as_str()) {
            Ok(file) => {
                self.file = file;
            },
            Err(e) => {
                self.error = Some(UserError::File(e));
            },
        }
    }

    /// Create new file: attempt to close the current file first, then set
    /// the current file to empty and unregistered.
    pub fn file_new(&mut self)
        ensures
            final(self)@ == old(self)@.new_file_next(),
    {
        if self.writing {
            return;
        }
        if !self.file_can_close() {
            self.attempting_file_close.set_action(CloseFileAction::NewFile);
            return;
        }
        self.file = File::default();
    }

    /// Run the parked close action if the guard now allows it, and reset the
    /// guard.
    pub fn call_close_action(&mut self) -> (cmd: Command)
        ensures
            ({
                let (next, c) = old(self)@.close_action_next();
                final(self)@ == next && cmd@ == c
            }),
    {
        if !self.file_can_close() {
            return Command::Idle;
        }
        let action = match self.attempting_file_close.action() {
            None => {
                return Command::Idle;
            },
            Some(a) => *a,
        };
        match action {
            CloseFileAction::OpenFile => {
                let cmd = self.file_open();
                self.reset_close_action();
                cmd
            },
            CloseFileAction::NewFile => {
                self.file_new();
                self.reset_close_action();
                Command::Idle
            },
            CloseFileAction::CloseWindow => {
                self.close_window_on_next_frame = true;
                Command::Idle
            },
        }
    }

    /// Reset close action.
    pub fn reset_close_action(&mut self)
        ensures
            final(self)@ == (AppView {
                attempt: AttemptView { action: None, overridden: false },
                ..old(self)@
            }),
    {
        self.attempting_file_close.reset_attempt();
    }

    /// Override the guard: the user chose to discard unsaved changes, so the
    /// next close attempt passes.
    pub fn override_close_condition(&mut self)
        ensures
            final(self)@ == (AppView {
                attempt: AttemptView {
                    action: old(self)@.attempt.action,
                    overridden: true,
                },
                ..old(self)@
            }),
    {
        self.attempting_file_close.override_condition();
    }

    /// Whether a close attempt is being made (a dialog should show).
    pub fn is_attempting_close(&self) -> (r: bool)
        ensures
            r == self@.attempt.is_attempting(),
    {
        self.attempting_file_close.is_attempting()
    }

    /// Absorb a completion message from the background save and re-evaluate
    /// any pending close attempt.
    pub fn handle_message(&mut self, msg: Message) -> (cmd: Command)
        ensures
            ({
                let (next, c) = old(self)@.message_next(msg);
                final(self)@ == next && cmd@ == c
            }),
    {
        match msg {
            Message::FinishSave(outcome) => {
                self.writing = false;
                match outcome {
                    Ok(()) => {
                        if self.save_version == self.version {
                            self.file.force_set_saved();
                        }
                    },
                    Err(e) => {
                        self.error = Some(UserError::File(e));
                    },
                }
                if self.attempting_file_close.is_attempting() {
                    self.call_close_action()
                } else {
                    Command::Idle
                }
            },
        }
    }

    /// The window manager asked to close the program (ALT+F4, close button,
    /// etc.): park a close attempt and report whether the window may close
    /// at once.
    pub fn on_close_event(&mut self) -> (r: bool)
        ensures
            ({
                let (next, can) = old(self)@.on_close_event_next();
                final(self)@ == next && r == can
            }),
    {
        self.attempting_file_close.set_action(CloseFileAction::CloseWindow);
        self.file_can_close()
    }
}

} // verus!
