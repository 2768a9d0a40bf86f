//! The vocabulary shared by the dialog-driving procedures and whoever runs
//! them: the operations they ask for (`Action`), what such an operation
//! reports back (`Observation`), and the clock reading that comes with it
//! (`Event`).
//!
//! Every procedure of this crate is a state machine: it is handed an
//! `Event`, decides, and answers with its next state and the next
//! `Action`. The runner performs the action against the window server,
//! the accessibility tree, the keyboard or the pasteboard, reads the
//! monotonic clock right after it, and hands the result back.
use vstd::prelude::*;

use crate::windows::WindowInfo;

verus! {

/// Readings of the monotonic clock are nanoseconds since a point the runner
/// chose; they stay below this bound, so that a deadline a few seconds
/// ahead of any reading is still a `u64`.
pub const CLOCK_LIMIT: u64 = 4_611_686_018_427_387_904;

/// Nanoseconds in a millisecond.
pub const NANOS_PER_MILLI: u64 = 1_000_000;

/// Virtual key code of the `A` key.
pub const KEY_A: u16 = 0;

/// Virtual key code of the `G` key.
pub const KEY_G: u16 = 5;

/// Virtual key code of the `V` key.
pub const KEY_V: u16 = 9;

/// Virtual key code of the Return key.
pub const KEY_RETURN: u16 = 36;

/// Virtual key code of the Escape key.
pub const KEY_ESC: u16 = 53;

/// A key press: a virtual key code with the modifiers held down with it.
#[derive(Clone, Copy, Debug, PartialEq, Eq, Structural)]
pub struct KeyChord {
    pub code: u16,
    pub command: bool,
    pub shift: bool,
}

/// Cmd+Shift+G: opens the Go-to-Folder sheet of a file dialog.
pub open spec fn go_to_folder_chord() -> KeyChord {
    KeyChord { code: KEY_G, command: true, shift: true }
}

/// Cmd+A: select all.
pub open spec fn select_all_chord() -> KeyChord {
    KeyChord { code: KEY_A, command: true, shift: false }
}

/// Cmd+V: paste.
pub open spec fn paste_chord() -> KeyChord {
    KeyChord { code: KEY_V, command: true, shift: false }
}

/// Return, no modifier.
pub open spec fn return_chord() -> KeyChord {
    KeyChord { code: KEY_RETURN, command: false, shift: false }
}

/// Escape, no modifier.
pub open spec fn escape_chord() -> KeyChord {
    KeyChord { code: KEY_ESC, command: false, shift: false }
}

/// Builds a chord.
pub fn chord(code: u16, command: bool, shift: bool) -> (k: KeyChord)
    ensures
        k == (KeyChord { code, command, shift }),
{
    KeyChord { code, command, shift }
}

/// Why a procedure gave up. Each ends the program with an error.
#[derive(Clone, Copy, Debug, PartialEq, Eq, Structural)]
pub enum Failure {
    /// The process may not use the accessibility API.
    PermissionMissing,
    /// The target application did not take keyboard focus in time.
    NotFrontmost,
    /// No focused window appeared to be centered.
    NoWindowToCenter,
    /// The size of the window could not be read.
    CannotReadSize,
    /// The window could not be moved.
    CannotMoveWindow,
    /// No new text field inside a sheet took focus after Cmd+Shift+G.
    NoGoToFolderSheet,
    /// The field refused the path.
    WriteFailed,
    /// The field did not hold the path when it was read back.
    VerifyFailed,
}

impl Failure {
    /// The message that reports this failure.
    pub fn message(&self) -> (m: &'static str)
        ensures
            m@ == failure_message(*self),
    {
        match self {
            Failure::PermissionMissing => "accessibility permission missing for this process",
            Failure::NotFrontmost => "target app did not come to front",
            Failure::NoWindowToCenter => "no focused window to center",
            Failure::CannotReadSize => "cannot read window size",
            Failure::CannotMoveWindow => "cannot move window",
            Failure::NoGoToFolderSheet => "could not find the Go-to-Folder sheet (no dialog open, or unsupported app)",
            Failure::WriteFailed => "failed to write the path into the field",
            Failure::VerifyFailed => "path verification failed after writing",
        }
    }
}

/// The text of the message that reports `f`.
pub open spec fn failure_message(f: Failure) -> Seq<char> {
    match f {
        Failure::PermissionMissing => "accessibility permission missing for this process"@,
        Failure::NotFrontmost => "target app did not come to front"@,
        Failure::NoWindowToCenter => "no focused window to center"@,
        Failure::CannotReadSize => "cannot read window size"@,
        Failure::CannotMoveWindow => "cannot move window"@,
        Failure::NoGoToFolderSheet => "could not find the Go-to-Folder sheet (no dialog open, or unsupported app)"@,
        Failure::WriteFailed => "failed to write the path into the field"@,
        Failure::VerifyFailed => "path verification failed after writing"@,
    }
}

/// An operation that a procedure asks its runner to perform. Operations
/// that concern "the application" or "the focused element" refer to the
/// application whose pid the procedure was started with, and to the
/// element that the last `ReadFocused` found.
#[derive(Debug, PartialEq, Eq)]
pub enum Action {
    /// Ask whether this process may use the accessibility API;
    /// answered by `Trusted`.
    CheckTrust,
    /// Ask the application to activate, ignoring other applications;
    /// answered by `Nothing`.
    Activate,
    /// Ask which process owns keyboard focus; answered by `FocusedPid`.
    ReadFocusedPid,
    /// Wait this many milliseconds; answered by `Nothing`.
    Sleep(u64),
    /// Count the application's windows in the accessibility tree and list
    /// the on-screen windows of the window server; answered by `Windows`.
    ReadWindows,
    /// Report on the error stream that the dialog is invisible to the
    /// accessibility tree and that keystrokes will be used; answered by
    /// `Nothing`.
    ReportBlindInput { window_server: usize, accessibility: usize },
    /// Read the text on the general pasteboard; answered by `Pasteboard`.
    ReadPasteboard,
    /// Replace the general pasteboard's contents with this text; answered
    /// by `Nothing`.
    SetPasteboard(String),
    /// Press and release a key; answered by `Nothing`.
    Press(KeyChord),
    /// Read the titles of the application's windows in the accessibility
    /// tree; answered by `WindowTitles`.
    ListWindowTitles,
    /// Raise the application's window at this position of the last list of
    /// titles; answered by `Nothing`.
    Raise(usize),
    /// Read the title of the application's focused window; answered by
    /// `FocusedWindowTitle`.
    ReadFocusedWindowTitle,
    /// Find the application's focused element and read its role; answered
    /// by `Focused`. The climb of `ReadParentRole` starts at it again.
    ReadFocused,
    /// Remember the focused element as the field that held focus before
    /// the Go-to-Folder sheet was asked for; answered by `Nothing`.
    PinPreField,
    /// Step from the element reached so far to its parent and read its
    /// role; answered by `ParentRole`.
    ReadParentRole,
    /// Compare the focused element with the remembered field; answered by
    /// `SameAsPreField`.
    CompareWithPreField,
    /// Set the value of the focused element to this text; answered by
    /// `Written`.
    WriteField(String),
    /// Read back the value of the element that was written; answered by
    /// `FieldValue`.
    ReadField,
    /// Look for the application's focused window; answered by
    /// `FocusedWindow`.
    ReadFocusedWindow,
    /// Read the size of the focused window; answered by `SizeRead`.
    ReadWindowSize,
    /// Move the focused window to the horizontal centre of the main
    /// display, its top at 22% of the free height; answered by `Moved`.
    MoveWindow,
    /// The procedure is over and succeeded.
    Finish,
    /// The procedure is over and failed.
    Fail(Failure),
}

/// What the runner saw when it performed an action.
#[derive(Debug, PartialEq, Eq)]
pub enum Observation {
    /// The action has nothing to report.
    Nothing,
    /// Whether the process may use the accessibility API.
    Trusted(bool),
    /// The pid of the process that owns keyboard focus (0 if none).
    FocusedPid(i32),
    /// The application's window count in the accessibility tree (0 if it
    /// cannot be read), and the window server's on-screen windows.
    Windows { accessibility: usize, windows: Vec<WindowInfo> },
    /// The pasteboard's text, if it holds any.
    Pasteboard(Option<String>),
    /// The titles of the application's windows, if they could be listed.
    WindowTitles(Option<Vec<String>>),
    /// The title of the application's focused window, if it has one.
    FocusedWindowTitle(Option<String>),
    /// The role of the focused element (empty if it has none), if there
    /// is a focused element.
    Focused(Option<String>),
    /// The role of the parent reached (empty if it has none), if there is
    /// a parent.
    ParentRole(Option<String>),
    /// Whether the focused element is the remembered field.
    SameAsPreField(bool),
    /// Whether the field accepted the value.
    Written(bool),
    /// The value read back from the field (empty if it has none).
    FieldValue(String),
    /// Whether the application has a focused window.
    FocusedWindow(bool),
    /// Whether the window's size could be read.
    SizeRead(bool),
    /// Whether the window could be moved.
    Moved(bool),
}

/// An observation with the clock reading taken right after it.
#[derive(Debug, PartialEq, Eq)]
pub struct Event {
    pub now: u64,
    pub seen: Observation,
}

/// Whether observation `o` is the kind of report that action `a` is
/// answered by. A procedure's end answers nothing.
pub open spec fn answers(a: Action, o: Observation) -> bool {
    match a {
        Action::CheckTrust => o is Trusted,
        Action::ReadFocusedPid => o is FocusedPid,
        Action::ReadWindows => o is Windows,
        Action::ReadPasteboard => o is Pasteboard,
        Action::ListWindowTitles => o is WindowTitles,
        Action::ReadFocusedWindowTitle => o is FocusedWindowTitle,
        Action::ReadFocused => o is Focused,
        Action::ReadParentRole => o is ParentRole,
        Action::CompareWithPreField => o is SameAsPreField,
        Action::WriteField(_) => o is Written,
        Action::ReadField => o is FieldValue,
        Action::ReadFocusedWindow => o is FocusedWindow,
        Action::ReadWindowSize => o is SizeRead,
        Action::MoveWindow => o is Moved,
        Action::Finish => false,
        Action::Fail(_) => false,
        _ => o is Nothing,
    }
}

} // verus!
