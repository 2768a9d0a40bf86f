//! Decision logic of a helper that types a chosen path into a macOS file
//! dialog: which windows count, when a focused field is the Go-to-Folder
//! field, and the step-by-step procedures that drive the dialog.
pub mod protocol;
pub mod text;
pub mod windows;
pub mod roles;
pub mod frontmost;
pub mod center;
pub mod push;
pub mod cli;
pub mod push_laws;
