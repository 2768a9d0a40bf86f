//! Typing a path into the file dialog of an application.
//!
//! After checking the accessibility permission and bringing the application
//! to the front, the procedure picks a strategy:
//! - when the window server shows more windows of the application than its
//!   accessibility tree does, the dialog is a panel invisible to the
//!   accessibility API; the path goes through the pasteboard and plain
//!   keystrokes (Go-to-Folder, select all, paste, Return, Return), and the
//!   pasteboard gets its old text back afterwards;
//! - otherwise the dialog window is raised again by its title, the
//!   Go-to-Folder sheet is opened, and the path is written only into a
//!   newly focused text field inside a sheet, read back, and confirmed only
//!   when it reads back unchanged. When no such field shows up in time,
//!   the sheet request is cancelled with Escape and nothing is typed.
use vstd::prelude::*;

use crate::frontmost::{wait_frontmost, wait_next, wait_pending, wait_start, FrontmostWait, WaitStage};
use crate::protocol::{
    chord, escape_chord, go_to_folder_chord, paste_chord, return_chord, select_all_chord, Action,
    Event, Failure, Observation, CLOCK_LIMIT, KEY_A, KEY_ESC, KEY_G, KEY_RETURN, KEY_V,
};
use crate::roles::{in_sheet, is_text_input, is_text_input_role, sheet_step, SheetStep};
use crate::text::{opt_text, text_eq};
use crate::windows::{cg_window_count, find_title, first_title_match, lemma_window_count_bounded, window_count};

verus! {

/// Pause after the application came to the front, in milliseconds.
pub const SETTLE_MILLIS: u64 = 150;

/// How long the dialog window may take to regain focus after being raised,
/// in nanoseconds.
pub const RAISE_TIMEOUT: u64 = 600_000_000;

/// How long the Go-to-Folder field may take to take focus, in nanoseconds.
pub const SHEET_TIMEOUT: u64 = 2_500_000_000;

/// How long the Go-to-Folder sheet may take to close, in nanoseconds.
pub const CLOSE_TIMEOUT: u64 = 5_000_000_000;

/// Pause between two looks at the focus, in milliseconds.
pub const POLL_MILLIS: u64 = 20;

/// Pause between writing the path and reading it back, in milliseconds.
pub const VERIFY_PAUSE_MILLIS: u64 = 60;

/// Pause between the sheet closing and the confirming Return, in
/// milliseconds.
pub const CONFIRM_PAUSE_MILLIS: u64 = 150;

/// Number of steps of the keystroke script of the blind strategy.
pub const BLIND_SCRIPT_LEN: usize = 10;

/// Where the procedure stands: which action it last asked for (and what it
/// needs to remember meanwhile), or how it ended.
#[derive(Debug, PartialEq, Eq)]
pub enum PushPhase {
    /// Asked for `CheckTrust`.
    CheckingTrust,
    /// Waiting for the application to own focus.
    Frontmost(FrontmostWait),
    /// Asked for the pause after the application came to the front.
    Settling,
    /// Asked for `ReadWindows`.
    Counting,
    /// Asked to report the blind strategy, with these window counts.
    BlindReporting { window_server: usize, accessibility: usize },
    /// Asked for `ReadPasteboard`.
    BlindSaving,
    /// At step `next` of the blind strategy (0: the path was put on the
    /// pasteboard; `k` above 0: step `k - 1` of the keystroke script was
    /// asked for), with the pasteboard's former text.
    BlindKeys { next: usize, saved: Option<String> },
    /// Asked to put the former text back on the pasteboard.
    BlindRestoring { text: String },
    /// Asked for `ListWindowTitles`.
    ListingWindows,
    /// Asked to raise the window at this position.
    Raising { index: usize },
    /// Asked for the focused window's title, until `deadline`.
    RaiseChecking { deadline: u64 },
    /// Pausing before the next look at the focused window's title.
    RaiseSleeping { deadline: u64 },
    /// Asked for the focused element before the Go-to-Folder sheet.
    CapturingPreField,
    /// Asked to remember the focused text field.
    PinningPreField,
    /// Asked for Cmd+Shift+G; `pre_field` tells whether a field was
    /// remembered.
    OpeningSheet { pre_field: bool },
    /// Asked for the focused element, until `deadline`.
    Probing { pre_field: bool, deadline: u64 },
    /// Asked for the role of the ancestor at `depth` of the focused text
    /// element.
    Climbing { pre_field: bool, deadline: u64, depth: usize },
    /// Asked whether the focused element is the remembered field.
    Comparing { deadline: u64 },
    /// Pausing before the next look at the focused element.
    ProbeSleeping { pre_field: bool, deadline: u64 },
    /// Asked for Escape, to close whatever Cmd+Shift+G opened.
    Abandoning,
    /// Asked to write the path into the field.
    Writing,
    /// Pausing before reading the field back.
    VerifyPause,
    /// Asked to read the field back.
    Verifying,
    /// Asked for Return, which goes to the path.
    Going,
    /// Asked for the focused element while the sheet closes, until
    /// `deadline`.
    Closing { deadline: u64 },
    /// Pausing before the next look while the sheet closes.
    CloseSleeping { deadline: u64 },
    /// Pausing before the confirming Return.
    ConfirmPause,
    /// Asked for Return, which confirms the dialog.
    Confirming,
    /// The path was delivered.
    Done,
    /// Gave up, for this reason.
    Failed(Failure),
}

/// The delivery of `path` to the file dialog of application `pid`, whose
/// window had the title `dialog_title` when the pick started.
#[derive(Debug, PartialEq, Eq)]
pub struct Push {
    pub pid: i32,
    pub path: String,
    pub dialog_title: Option<String>,
    pub phase: PushPhase,
}

/// Step `k` of the keystroke script of the blind strategy: Go-to-Folder,
/// select all, paste, Return (go), Return (open), each followed by a
/// pause.
pub open spec fn blind_script(k: int) -> Action {
    if k == 0 {
        Action::Press(go_to_folder_chord())
    } else if k == 1 {
        Action::Sleep(500)
    } else if k == 2 {
        Action::Press(select_all_chord())
    } else if k == 3 {
        Action::Sleep(100)
    } else if k == 4 {
        Action::Press(paste_chord())
    } else if k == 5 {
        Action::Sleep(300)
    } else if k == 6 {
        Action::Press(return_chord())
    } else if k == 7 {
        Action::Sleep(600)
    } else if k == 8 {
        Action::Press(return_chord())
    } else {
        Action::Sleep(200)
    }
}

/// Step `k` of the keystroke script of the blind strategy.
pub fn blind_script_step(k: usize) -> (a: Action)
    ensures
        a == blind_script(k as int),
{
    if k == 0 {
        Action::Press(chord(KEY_G, true, true))
    } else if k == 1 {
        Action::Sleep(500)
    } else if k == 2 {
        Action::Press(chord(KEY_A, true, false))
    } else if k == 3 {
        Action::Sleep(100)
    } else if k == 4 {
        Action::Press(chord(KEY_V, true, false))
    } else if k == 5 {
        Action::Sleep(300)
    } else if k == 6 {
        Action::Press(chord(KEY_RETURN, false, false))
    } else if k == 7 {
        Action::Sleep(600)
    } else if k == 8 {
        Action::Press(chord(KEY_RETURN, false, false))
    } else {
        Action::Sleep(200)
    }
}

/// The action that procedure `s` has asked for.
pub open spec fn push_pending(s: Push) -> Action {
    match s.phase {
        PushPhase::CheckingTrust => Action::CheckTrust,
        PushPhase::Frontmost(w) => wait_pending(w.stage),
        PushPhase::Settling => Action::Sleep(SETTLE_MILLIS),
        PushPhase::Counting => Action::ReadWindows,
        PushPhase::BlindReporting { window_server, accessibility } => Action::ReportBlindInput {
            window_server,
            accessibility,
        },
        PushPhase::BlindSaving => Action::ReadPasteboard,
        PushPhase::BlindKeys { next, saved } => if next == 0 {
            Action::SetPasteboard(s.path)
        } else {
            blind_script(next - 1)
        },
        PushPhase::BlindRestoring { text } => Action::SetPasteboard(text),
        PushPhase::ListingWindows => Action::ListWindowTitles,
        PushPhase::Raising { index } => Action::Raise(index),
        PushPhase::RaiseChecking { .. } => Action::ReadFocusedWindowTitle,
        PushPhase::RaiseSleeping { .. } => Action::Sleep(POLL_MILLIS),
        PushPhase::CapturingPreField => Action::ReadFocused,
        PushPhase::PinningPreField => Action::PinPreField,
        PushPhase::OpeningSheet { .. } => Action::Press(go_to_folder_chord()),
        PushPhase::Probing { .. } => Action::ReadFocused,
        PushPhase::Climbing { .. } => Action::ReadParentRole,
        PushPhase::Comparing { .. } => Action::CompareWithPreField,
        PushPhase::ProbeSleeping { .. } => Action::Sleep(POLL_MILLIS),
        PushPhase::Abandoning => Action::Press(escape_chord()),
        PushPhase::Writing => Action::WriteField(s.path),
        PushPhase::VerifyPause => Action::Sleep(VERIFY_PAUSE_MILLIS),
        PushPhase::Verifying => Action::ReadField,
        PushPhase::Going => Action::Press(return_chord()),
        PushPhase::Closing { .. } => Action::ReadFocused,
        PushPhase::CloseSleeping { .. } => Action::Sleep(POLL_MILLIS),
        PushPhase::ConfirmPause => Action::Sleep(CONFIRM_PAUSE_MILLIS),
        PushPhase::Confirming => Action::Press(return_chord()),
        PushPhase::Done => Action::Finish,
        PushPhase::Failed(f) => Action::Fail(f),
    }
}

/// Whether the dialog title asks for the dialog window to be raised again:
/// it is known and not empty.
pub open spec fn wants_raise(title: Option<String>) -> bool {
    title matches Some(t) && t@.len() > 0
}

/// Whether an observed focused element (its role, if there is one) is a
/// text input.
pub open spec fn focused_text_input(role: Option<String>) -> bool {
    role matches Some(r) && is_text_input_role(r@)
}

/// The phase after the window counts were read: the blind strategy when the
/// window server shows more windows than the accessibility tree, else the
/// raise of the dialog window when its title is known, else the look at
/// the field focused before the sheet.
pub open spec fn after_count(s: Push, accessibility: usize, window_server: nat) -> PushPhase {
    if window_server > accessibility {
        PushPhase::BlindReporting { window_server: window_server as usize, accessibility }
    } else if wants_raise(s.dialog_title) {
        PushPhase::ListingWindows
    } else {
        PushPhase::CapturingPreField
    }
}

/// The phase after the window titles were listed.
pub open spec fn after_titles(s: Push, titles: Option<Vec<String>>, now: u64) -> PushPhase {
    match titles {
        None => PushPhase::CapturingPreField,
        Some(ts) => {
            let found = match s.dialog_title {
                Some(want) => first_title_match(ts@, want@),
                None => None,
            };
            match found {
                Some(i) => PushPhase::Raising { index: i as usize },
                None => PushPhase::RaiseChecking { deadline: (now + RAISE_TIMEOUT) as u64 },
            }
        },
    }
}

/// Whether the observed focused window title is the dialog's.
pub open spec fn title_is_dialog(s: Push, title: Option<String>) -> bool {
    title matches Some(t) && s.dialog_title matches Some(want) && t@ == want@
}

/// The phase after the wait for focus moved on to `w`: on when the
/// application owns focus, failed when the wait gave up, else still waiting.
pub open spec fn after_wait(w: FrontmostWait) -> PushPhase {
    if w.stage == WaitStage::Arrived {
        PushPhase::Settling
    } else if w.stage == WaitStage::TimedOut {
        PushPhase::Failed(Failure::NotFrontmost)
    } else {
        PushPhase::Frontmost(w)
    }
}

/// The phase of procedure `s` after event `e`. An observation that does
/// not answer the pending action leaves the phase as it is.
pub open spec fn push_advance(s: Push, e: Event) -> PushPhase {
    let now = e.now;
    match (s.phase, e.seen) {
        (PushPhase::CheckingTrust, Observation::Trusted(ok)) => if ok {
            PushPhase::Frontmost(wait_start(s.pid, now).0)
        } else {
            PushPhase::Failed(Failure::PermissionMissing)
        },
        (PushPhase::Frontmost(w), _) => after_wait(wait_next(w, e).0),
        (PushPhase::Settling, Observation::Nothing) => PushPhase::Counting,
        (PushPhase::Counting, Observation::Windows { accessibility, windows }) => after_count(
            s,
            accessibility,
            window_count(windows@, s.pid),
        ),
        (PushPhase::BlindReporting { .. }, Observation::Nothing) => PushPhase::BlindSaving,
        (PushPhase::BlindSaving, Observation::Pasteboard(saved)) => PushPhase::BlindKeys { next: 0, saved },
        (PushPhase::BlindKeys { next, saved }, Observation::Nothing) => if next < BLIND_SCRIPT_LEN {
            PushPhase::BlindKeys { next: (next + 1) as usize, saved }
        } else {
            match saved {
                Some(t) => PushPhase::BlindRestoring { text: t },
                None => PushPhase::Done,
            }
        },
        (PushPhase::BlindRestoring { .. }, Observation::Nothing) => PushPhase::Done,
        (PushPhase::ListingWindows, Observation::WindowTitles(titles)) => after_titles(s, titles, now),
        (PushPhase::Raising { .. }, Observation::Nothing) => PushPhase::RaiseChecking {
            deadline: (now + RAISE_TIMEOUT) as u64,
        },
        (PushPhase::RaiseChecking { deadline }, Observation::FocusedWindowTitle(t)) => if title_is_dialog(
            s,
            t,
        ) {
            PushPhase::CapturingPreField
        } else {
            PushPhase::RaiseSleeping { deadline }
        },
        (PushPhase::RaiseSleeping { deadline }, Observation::Nothing) => if now < deadline {
            PushPhase::RaiseChecking { deadline }
        } else {
            PushPhase::CapturingPreField
        },
        (PushPhase::CapturingPreField, Observation::Focused(role)) => if focused_text_input(role) {
            PushPhase::PinningPreField
        } else {
            PushPhase::OpeningSheet { pre_field: false }
        },
        (PushPhase::PinningPreField, Observation::Nothing) => PushPhase::OpeningSheet { pre_field: true },
        (PushPhase::OpeningSheet { pre_field }, Observation::Nothing) => PushPhase::Probing {
            pre_field,
            deadline: (now + SHEET_TIMEOUT) as u64,
        },
        (PushPhase::Probing { pre_field, deadline }, Observation::Focused(role)) => if focused_text_input(
            role,
        ) {
            PushPhase::Climbing { pre_field, deadline, depth: 0 }
        } else {
            PushPhase::ProbeSleeping { pre_field, deadline }
        },
        (PushPhase::Climbing { pre_field, deadline, depth }, Observation::ParentRole(role)) => match sheet_step(
            depth as nat,
            opt_text(role),
        ) {
            SheetStep::Inside => if pre_field {
                PushPhase::Comparing { deadline }
            } else {
                PushPhase::Writing
            },
            SheetStep::Outside => PushPhase::ProbeSleeping { pre_field, deadline },
            SheetStep::Climb => PushPhase::Climbing { pre_field, deadline, depth: (depth + 1) as usize },
        },
        (PushPhase::Comparing { deadline }, Observation::SameAsPreField(same)) => if same {
            PushPhase::ProbeSleeping { pre_field: true, deadline }
        } else {
            PushPhase::Writing
        },
        (PushPhase::ProbeSleeping { pre_field, deadline }, Observation::Nothing) => if now < deadline {
            PushPhase::Probing { pre_field, deadline }
        } else {
            PushPhase::Abandoning
        },
        (PushPhase::Abandoning, Observation::Nothing) => PushPhase::Failed(Failure::NoGoToFolderSheet),
        (PushPhase::Writing, Observation::Written(ok)) => if ok {
            PushPhase::VerifyPause
        } else {
            PushPhase::Failed(Failure::WriteFailed)
        },
        (PushPhase::VerifyPause, Observation::Nothing) => PushPhase::Verifying,
        (PushPhase::Verifying, Observation::FieldValue(v)) => if v@ == s.path@ {
            PushPhase::Going
        } else {
            PushPhase::Failed(Failure::VerifyFailed)
        },
        (PushPhase::Going, Observation::Nothing) => PushPhase::Closing {
            deadline: (now + CLOSE_TIMEOUT) as u64,
        },
        (PushPhase::Closing { deadline }, Observation::Focused(role)) => if focused_text_input(role) {
            PushPhase::CloseSleeping { deadline }
        } else {
            PushPhase::ConfirmPause
        },
        (PushPhase::CloseSleeping { deadline }, Observation::Nothing) => if now < deadline {
            PushPhase::Closing { deadline }
        } else {
            PushPhase::ConfirmPause
        },
        (PushPhase::ConfirmPause, Observation::Nothing) => PushPhase::Confirming,
        (PushPhase::Confirming, Observation::Nothing) => PushPhase::Done,
        (phase, _) => phase,
    }
}

/// Procedure `s` after event `e`.
pub open spec fn push_next(s: Push, e: Event) -> Push {
    Push { phase: push_advance(s, e), ..s }
}

/// Starts delivering `path` to the file dialog of application `pid`: the
/// first thing to do is to check the accessibility permission.
pub fn push(pid: i32, path: String, dialog_title: Option<String>) -> (r: (Push, Action))
    ensures
        r.0 == (Push { pid, path, dialog_title, phase: PushPhase::CheckingTrust }),
        r.1 == push_pending(r.0),
{
    (Push { pid, path, dialog_title, phase: PushPhase::CheckingTrust }, Action::CheckTrust)
}

impl Push {
    /// Whether the procedure is over, either way.
    pub open spec fn spec_is_over(&self) -> bool {
        self.phase is Done || self.phase is Failed
    }

    /// Whether the procedure is over, either way.
    pub fn is_over(&self) -> (b: bool)
        ensures
            b == self.spec_is_over(),
    {
        match self.phase {
            PushPhase::Done | PushPhase::Failed(_) => true,
            _ => false,
        }
    }

    /// The action that this procedure has asked for.
    pub fn pending(&self) -> (a: Action)
        ensures
            a == push_pending(*self),
    {
        match &self.phase {
            PushPhase::CheckingTrust => Action::CheckTrust,
            PushPhase::Frontmost(w) => crate::frontmost::pending_action(w.stage),
            PushPhase::Settling => Action::Sleep(SETTLE_MILLIS),
            PushPhase::Counting => Action::ReadWindows,
            PushPhase::BlindReporting { window_server, accessibility } => Action::ReportBlindInput {
                window_server: *window_server,
                accessibility: *accessibility,
            },
            PushPhase::BlindSaving => Action::ReadPasteboard,
            PushPhase::BlindKeys { next, .. } => {
                if *next == 0 {
                    Action::SetPasteboard(self.path.clone())
                } else {
                    blind_script_step(*next - 1)
                }
            },
            PushPhase::BlindRestoring { text } => Action::SetPasteboard(text.clone()),
            PushPhase::ListingWindows => Action::ListWindowTitles,
            PushPhase::Raising { index } => Action::Raise(*index),
            PushPhase::RaiseChecking { .. } => Action::ReadFocusedWindowTitle,
            PushPhase::RaiseSleeping { .. } => Action::Sleep(POLL_MILLIS),
            PushPhase::CapturingPreField => Action::ReadFocused,
            PushPhase::PinningPreField => Action::PinPreField,
            PushPhase::OpeningSheet { .. } => Action::Press(chord(KEY_G, true, true)),
            PushPhase::Probing { .. } => Action::ReadFocused,
            PushPhase::Climbing { .. } => Action::ReadParentRole,
            PushPhase::Comparing { .. } => Action::CompareWithPreField,
            PushPhase::ProbeSleeping { .. } => Action::Sleep(POLL_MILLIS),
            PushPhase::Abandoning => Action::Press(chord(KEY_ESC, false, false)),
            PushPhase::Writing => Action::WriteField(self.path.clone()),
            PushPhase::VerifyPause => Action::Sleep(VERIFY_PAUSE_MILLIS),
            PushPhase::Verifying => Action::ReadField,
            PushPhase::Going => Action::Press(chord(KEY_RETURN, false, false)),
            PushPhase::Closing { .. } => Action::ReadFocused,
            PushPhase::CloseSleeping { .. } => Action::Sleep(POLL_MILLIS),
            PushPhase::ConfirmPause => Action::Sleep(CONFIRM_PAUSE_MILLIS),
            PushPhase::Confirming => Action::Press(chord(KEY_RETURN, false, false)),
            PushPhase::Done => Action::Finish,
            PushPhase::Failed(f) => Action::Fail(*f),
        }
    }

    /// Whether the dialog title asks for the dialog window to be raised.
    fn wants_raise(&self) -> (b: bool)
        ensures
            b == wants_raise(self.dialog_title),
    {
        match &self.dialog_title {
            Some(t) => !t.as_str().is_empty(),
            None => false,
        }
    }

    /// The next state and action on event `e`; see the module documentation
    /// for the procedure.
    pub fn step(self, e: Event) -> (r: (Push, Action))
        requires
            e.now < CLOCK_LIMIT,
        ensures
            r.0 == push_next(self, e),
            r.1 == push_pending(r.0),
    {
        let ghost s = self;
        let ghost e0 = e;
        let Event { now, seen } = e;
        let raise_wanted = self.wants_raise();
        let Push { pid, path, dialog_title, phase } = self;
        let phase = match (phase, seen) {
            (PushPhase::CheckingTrust, Observation::Trusted(ok)) => {
                if ok {
                    PushPhase::Frontmost(wait_frontmost(pid, now).0)
                } else {
                    PushPhase::Failed(Failure::PermissionMissing)
                }
            },
            (PushPhase::Frontmost(w), seen) => {
                let w2 = w.step(Event { now, seen }).0;
                match w2.stage {
                    WaitStage::Arrived => PushPhase::Settling,
                    WaitStage::TimedOut => PushPhase::Failed(Failure::NotFrontmost),
                    _ => PushPhase::Frontmost(w2),
                }
            },
            (PushPhase::Settling, Observation::Nothing) => PushPhase::Counting,
            (PushPhase::Counting, Observation::Windows { accessibility, windows }) => {
                let window_server = cg_window_count(&windows, pid);
                proof {
                    lemma_window_count_bounded(windows@, pid);
                }
                if window_server > accessibility {
                    PushPhase::BlindReporting { window_server, accessibility }
                } else if raise_wanted {
                    PushPhase::ListingWindows
                } else {
                    PushPhase::CapturingPreField
                }
            },
            (PushPhase::BlindReporting { .. }, Observation::Nothing) => PushPhase::BlindSaving,
            (PushPhase::BlindSaving, Observation::Pasteboard(saved)) => PushPhase::BlindKeys { next: 0, saved },
            (PushPhase::BlindKeys { next, saved }, Observation::Nothing) => {
                if next < BLIND_SCRIPT_LEN {
                    PushPhase::BlindKeys { next: next + 1, saved }
                } else {
                    match saved {
                        Some(t) => PushPhase::BlindRestoring { text: t },
                        None => PushPhase::Done,
                    }
                }
            },
            (PushPhase::BlindRestoring { .. }, Observation::Nothing) => PushPhase::Done,
            (PushPhase::ListingWindows, Observation::WindowTitles(titles)) => {
                match titles {
                    None => PushPhase::CapturingPreField,
                    Some(ts) => {
                        let found = match &dialog_title {
                            Some(want) => find_title(&ts, want.as_str()),
                            None => None,
                        };
                        match found {
                            Some(i) => PushPhase::Raising { index: i },
                            None => PushPhase::RaiseChecking { deadline: now + RAISE_TIMEOUT },
                        }
                    },
                }
            },
            (PushPhase::Raising { .. }, Observation::Nothing) => PushPhase::RaiseChecking {
                deadline: now + RAISE_TIMEOUT,
            },
            (PushPhase::RaiseChecking { deadline }, Observation::FocusedWindowTitle(t)) => {
                let matches = match (&t, &dialog_title) {
                    (Some(t), Some(want)) => text_eq(t.as_str(), want.as_str()),
                    _ => false,
                };
                if matches {
                    PushPhase::CapturingPreField
                } else {
                    PushPhase::RaiseSleeping { deadline }
                }
            },
            (PushPhase::RaiseSleeping { deadline }, Observation::Nothing) => {
                if now < deadline {
                    PushPhase::RaiseChecking { deadline }
                } else {
                    PushPhase::CapturingPreField
                }
            },
            (PushPhase::CapturingPreField, Observation::Focused(role)) => {
                if focused_is_text_input(&role) {
                    PushPhase::PinningPreField
                } else {
                    PushPhase::OpeningSheet { pre_field: false }
                }
            },
            (PushPhase::PinningPreField, Observation::Nothing) => PushPhase::OpeningSheet { pre_field: true },
            (PushPhase::OpeningSheet { pre_field }, Observation::Nothing) => PushPhase::Probing {
                pre_field,
                deadline: now + SHEET_TIMEOUT,
            },
            (PushPhase::Probing { pre_field, deadline }, Observation::Focused(role)) => {
                if focused_is_text_input(&role) {
                    PushPhase::Climbing { pre_field, deadline, depth: 0 }
                } else {
                    PushPhase::ProbeSleeping { pre_field, deadline }
                }
            },
            (PushPhase::Climbing { pre_field, deadline, depth }, Observation::ParentRole(role)) => {
                match in_sheet(depth, &role) {
                    SheetStep::Inside => {
                        if pre_field {
                            PushPhase::Comparing { deadline }
                        } else {
                            PushPhase::Writing
                        }
                    },
                    SheetStep::Outside => PushPhase::ProbeSleeping { pre_field, deadline },
                    SheetStep::Climb => PushPhase::Climbing { pre_field, deadline, depth: depth + 1 },
                }
            },
            (PushPhase::Comparing { deadline }, Observation::SameAsPreField(same)) => {
                if same {
                    PushPhase::ProbeSleeping { pre_field: true, deadline }
                } else {
                    PushPhase::Writing
                }
            },
            (PushPhase::ProbeSleeping { pre_field, deadline }, Observation::Nothing) => {
                if now < deadline {
                    PushPhase::Probing { pre_field, deadline }
                } else {
                    PushPhase::Abandoning
                }
            },
            (PushPhase::Abandoning, Observation::Nothing) => PushPhase::Failed(Failure::NoGoToFolderSheet),
            (PushPhase::Writing, Observation::Written(ok)) => {
                if ok {
                    PushPhase::VerifyPause
                } else {
                    PushPhase::Failed(Failure::WriteFailed)
                }
            },
            (PushPhase::VerifyPause, Observation::Nothing) => PushPhase::Verifying,
            (PushPhase::Verifying, Observation::FieldValue(v)) => {
                if text_eq(v.as_str(), path.as_str()) {
                    PushPhase::Going
                } else {
                    PushPhase::Failed(Failure::VerifyFailed)
                }
            },
            (PushPhase::Going, Observation::Nothing) => PushPhase::Closing { deadline: now + CLOSE_TIMEOUT },
            (PushPhase::Closing { deadline }, Observation::Focused(role)) => {
                if focused_is_text_input(&role) {
                    PushPhase::CloseSleeping { deadline }
                } else {
                    PushPhase::ConfirmPause
                }
            },
            (PushPhase::CloseSleeping { deadline }, Observation::Nothing) => {
                if now < deadline {
                    PushPhase::Closing { deadline }
                } else {
                    PushPhase::ConfirmPause
                }
            },
            (PushPhase::ConfirmPause, Observation::Nothing) => PushPhase::Confirming,
            (PushPhase::Confirming, Observation::Nothing) => PushPhase::Done,
            (phase, _) => phase,
        };
        let next = Push { pid, path, dialog_title, phase };
        let action = next.pending();
        (next, action)
    }
}

/// Whether an observed focused element (its role, if there is one) is a
/// text input.
pub fn focused_is_text_input(role: &Option<String>) -> (b: bool)
    ensures
        b == focused_text_input(*role),
{
    match role {
        Some(r) => is_text_input(r.as_str()),
        None => false,
    }
}

} // verus!
