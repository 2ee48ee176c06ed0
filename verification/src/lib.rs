//! Core of a small encrypted text-file editor.
//!
//! The library holds the parts of the editor that carry real invariants:
//! the per-document save-state machine ([`file::File`]), the guard that
//! protects destructive actions against unsaved changes
//! ([`attempt::Attempt`]), the encryption codec built on the `cocoon`
//! container format ([`codec`]), and the controller that drives the
//! non-blocking save pipeline ([`app::App`]). Window plumbing, dialogs and
//! raw I/O live outside the library and talk to it through plain values.

/// Main app controller
pub mod app;
/// 'Attempt' something, such as close a file
pub mod attempt;
/// Authenticated encryption and decryption of byte buffers
pub mod codec;
/// Handle file contents and save state
pub mod file;
/// Messages between the interactive thread and a background save
pub mod sync;
