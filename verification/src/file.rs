use vstd::prelude::*;
use vstd::utf8::{decode_utf8, encode_utf8, valid_utf8};

use crate::codec::{announced_len_oversized, decryption, CryptoError};

verus! {

/// Mathematical state of one document: the registered path, if any, the text,
/// and the raw saved flag.
///
/// The raw `saved` flag is only meaningful while a path is registered; the
/// derived predicates below ([`FileView::is_registered_and_saved`],
/// [`FileView::is_changed`]) are what the rest of the library relies on.
#[verifier::ext_equal]
pub struct FileView {
    pub path: Option<Seq<char>>,
    pub contents: Seq<char>,
    pub saved: bool,
}

impl FileView {
    /// The document has an associated filesystem path.
    pub open spec fn is_registered(self) -> bool {
        self.path is Some
    }

    /// Registered and the raw flag says saved. An unregistered document is
    /// never considered saved, whatever the raw flag holds.
    pub open spec fn is_registered_and_saved(self) -> bool {
        self.is_registered() && self.saved
    }

    /// Unregistered with empty contents: nothing would be lost by closing.
    pub open spec fn is_unregistered_and_unchanged(self) -> bool {
        !self.is_registered() && self.contents.len() == 0
    }

    /// A registered document is changed iff it is not saved; an unregistered
    /// one is changed iff it holds any text.
    pub open spec fn is_changed(self) -> bool {
        if self.is_registered() {
            !self.saved
        } else {
            self.contents.len() != 0
        }
    }

    /// State after `mark_as_unsaved`: the raw flag drops only when the
    /// document was registered and saved; otherwise nothing moves.
    pub open spec fn marked_unsaved(self) -> FileView {
        if self.is_registered_and_saved() {
            FileView { saved: false, ..self }
        } else {
            self
        }
    }

    /// State after `force_set_saved`: the raw flag is set unconditionally.
    pub open spec fn marked_saved(self) -> FileView {
        FileView { saved: true, ..self }
    }

    /// A fresh document: unregistered, empty, unsaved.
    pub open spec fn empty_file() -> FileView {
        FileView { path: None, contents: Seq::empty(), saved: false }
    }
}

/// A registered document is changed exactly when it is not
/// registered-and-saved; an unregistered one exactly when its contents are
/// non-empty.
pub proof fn lemma_is_changed_characterization(v: FileView)
    ensures
        v.is_registered() ==> v.is_changed() == !(v.path is Some && v.saved),
        !v.is_registered() ==> v.is_changed() == (v.contents.len() != 0),
{
}

/// Marking a document unsaved is idempotent: a second `mark_as_unsaved`
/// leaves the state of the first one untouched.
pub proof fn lemma_marked_unsaved_idempotent(v: FileView)
    ensures
        v.marked_unsaved().marked_unsaved() == v.marked_unsaved(),
{
}

/// Error for an encrypted file operation.
///
/// Mirrors the failure classes a save or load can hit: the underlying
/// storage (I/O), the encryption container, or the text encoding of the
/// decrypted bytes.
#[derive(Clone, Copy, Debug, PartialEq, Eq, Structural)]
pub enum FileError {
    /// Underlying storage failed (reported by the caller doing the I/O).
    Io,
    /// Encryption or decryption failed; carries the classified cause.
    Cryption(crate::codec::CryptoError),
    /// Decrypted bytes are not valid text.
    FromUtf8,
}

impl FileError {
    /// User-facing text for this error.
    pub open spec fn message_spec(self) -> Seq<char> {
        match self {
            FileError::Io => "Input/output error"@,
            FileError::Cryption(e) => e.message_spec(),
            FileError::FromUtf8 => "Invalid file: Not formatted as string"@,
        }
    }

    /// User-facing text for this error.
    pub fn message(&self) -> (r: &'static str)
        ensures
            r@ == self.message_spec(),
    {
        match self {
            FileError::Io => "Input/output error",
            FileError::Cryption(e) => e.message(),
            FileError::FromUtf8 => "Invalid file: Not formatted as string",
        }
    }
}

/// Simple file handler API: one in-memory document with its save state.
#[derive(Clone)]
pub struct File {
    /// Path to file; `None` if the file is not registered on the file system
    /// (was never saved or loaded).
    path: Option<String>,
    /// Contents of file.
    contents: String,
    /// Raw saved flag; meaningful only while `path` is registered.
    saved: bool,
}

impl View for File {
    type V = FileView;

    closed spec fn view(&self) -> FileView {
        FileView { path: self.path.deep_view(), contents: self.contents@, saved: self.saved }
    }
}

impl Default for File {
    /// A fresh document: unregistered, empty, unsaved.
    fn default() -> (r: Self)
        ensures
            r@ == FileView::empty_file(),
    {
        File { path: None, contents: String::new(), saved: false }
    }
}

impl File {
    /// Build a document in a given state. Mostly useful to callers outside
    /// the library that need a document in a known state.
    pub fn from_parts(path: Option<String>, contents: String, saved: bool) -> (r: File)
        ensures
            r@ == (FileView { path: path.deep_view(), contents: contents@, saved }),
    {
        File { path, contents, saved }
    }

    /// Returns `true` if the file is registered and saved.
    pub fn is_registered_and_saved(&self) -> (r: bool)
        ensures
            r == self@.is_registered_and_saved(),
    {
        self.path.is_some() && self.saved
    }

    /// Returns `true` if the file is unregistered and unchanged (empty).
    pub fn is_unregistered_and_unchanged(&self) -> (r: bool)
        ensures
            r == self@.is_unregistered_and_unchanged(),
    {
        self.path.is_none() && self.contents.as_str().is_empty()
    }

    /// Returns `true` if:
    ///  - the file is registered, and NOT saved, or
    ///  - the file is not registered, and NOT empty.
    pub fn is_changed(&self) -> (r: bool)
        ensures
            r == self@.is_changed(),
    {
        if self.path.is_some() {
            !self.saved
        } else {
            !self.contents.as_str().is_empty()
        }
    }

    /// Get file contents as reference.
    pub fn contents(&self) -> (r: &String)
        ensures
            r@ == self@.contents,
    {
        &self.contents
    }

    /// Get file contents as mutable reference. The path and the saved flag
    /// stay as they are; callers report an actual edit with
    /// [`File::mark_as_unsaved`].
    pub fn contents_mut(&mut self) -> (r: &mut String)
        ensures
            (*r)@ == old(self)@.contents,
            final(self)@.contents == (*final(r))@,
            final(self)@.path == old(self)@.path,
            final(self)@.saved == old(self)@.saved,
    {
        &mut self.contents
    }

    /// Set save state to unsaved. Only has an observable effect on a
    /// registered-and-saved document; a no-op otherwise.
    pub fn mark_as_unsaved(&mut self)
        ensures
            final(self)@ == old(self)@.marked_unsaved(),
    {
        if self.is_registered_and_saved() {
            self.saved = false;
        }
    }

    /// Set save state to saved, unconditionally.
    ///
    /// This should only be run once a background save has confirmed
    /// completion, never eagerly.
    pub fn force_set_saved(&mut self)
        ensures
            final(self)@ == old(self)@.marked_saved(),
    {
        self.saved = true;
    }

    /// Get filepath as reference.
    ///
    /// `None` if the file is not registered on the file system.
    pub fn path(&self) -> (r: Option<&String>)
        ensures
            r matches Some(p) ==> self@.path == Some(p@),
            r is None <==> self@.path is None,
    {
        self.path.as_ref()
    }

    /// Set filepath; does not by itself change the saved flag.
    pub fn set_path(&mut self, path: String)
        ensures
            final(self)@.path == Some(path@),
            final(self)@.contents == old(self)@.contents,
            final(self)@.saved == old(self)@.saved,
    {
        self.path = Some(path);
    }

    /// Open an encrypted file whose container bytes were read from `path`:
    /// decrypt the container and decode the payload as text. Reading the
    /// bytes from disk is the caller's part.
    ///
    /// Returns a saved `File` with the decoded contents and the associated
    /// path exactly when the container authenticates under this passphrase
    /// and its payload is valid text.
    pub fn open_from_bytes(path: String, container: &[u8], passphrase: &str) -> (r: Result<
        File,
        FileError,
    >)
        ensures
            decryption(container@, encode_utf8(passphrase@)) is None ==> r matches Err(
                FileError::Cryption(_),
            ),
            announced_len_oversized(container@) ==> r == Err::<File, FileError>(
                FileError::Cryption(CryptoError::TooLarge),
            ),
            decryption(container@, encode_utf8(passphrase@)) matches Some(b) ==> ({
                &&& !valid_utf8(b) ==> r == Err::<File, FileError>(FileError::FromUtf8)
                &&& valid_utf8(b) ==> (r matches Ok(f) && f@ == (FileView {
                    path: Some(path@),
                    contents: decode_utf8(b),
                    saved: true,
                }))
            }),
    {
        match crate::codec::decrypt_contents(container, passphrase) {
            Ok(contents) => Ok(File { path: Some(path), contents, saved: true }),
            Err(e) => Err(e),
        }
    }
}

} // verus!
