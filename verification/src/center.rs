//! Centering an application's focused window: wait up to three seconds for
//! a focused window, read its size, move it.
use vstd::prelude::*;

use crate::protocol::{answers, Action, Event, Failure, Observation, CLOCK_LIMIT};

verus! {

/// How long a focused window may take to appear, in nanoseconds.
pub const CENTER_TIMEOUT: u64 = 3_000_000_000;

/// Pause between two looks for a focused window, in milliseconds.
pub const WINDOW_POLL_MILLIS: u64 = 20;

/// Where the centering stands.
#[derive(Clone, Copy, Debug, PartialEq, Eq, Structural)]
pub enum CenterStage {
    /// Asked for `ReadFocusedWindow`.
    Locating,
    /// Asked for a pause.
    Sleeping,
    /// Asked for `ReadWindowSize`.
    Measuring,
    /// Asked for `MoveWindow`.
    Moving,
    /// The window was moved.
    Done,
    /// Gave up, for this reason.
    Failed(Failure),
}

/// The centering of the focused window of an application.
#[derive(Clone, Copy, Debug, PartialEq, Eq, Structural)]
pub struct CenterWindow {
    /// Clock reading after which no focused window is waited for.
    pub deadline: u64,
    pub stage: CenterStage,
}

/// The action that a centering in stage `stage` has asked for.
pub open spec fn center_pending(stage: CenterStage) -> Action {
    match stage {
        CenterStage::Locating => Action::ReadFocusedWindow,
        CenterStage::Sleeping => Action::Sleep(WINDOW_POLL_MILLIS),
        CenterStage::Measuring => Action::ReadWindowSize,
        CenterStage::Moving => Action::MoveWindow,
        CenterStage::Done => Action::Finish,
        CenterStage::Failed(f) => Action::Fail(f),
    }
}

/// The next state and action on event `e`. An observation that does not
/// answer the pending action leaves the state as it is and asks again.
pub open spec fn center_next(c: CenterWindow, e: Event) -> (CenterWindow, Action) {
    let go = |stage: CenterStage| (CenterWindow { stage, ..c }, center_pending(stage));
    match (c.stage, e.seen) {
        (CenterStage::Locating, Observation::FocusedWindow(found)) => if found {
            go(CenterStage::Measuring)
        } else if e.now > c.deadline {
            go(CenterStage::Failed(Failure::NoWindowToCenter))
        } else {
            go(CenterStage::Sleeping)
        },
        (CenterStage::Sleeping, Observation::Nothing) => go(CenterStage::Locating),
        (CenterStage::Measuring, Observation::SizeRead(ok)) => if ok {
            go(CenterStage::Moving)
        } else {
            go(CenterStage::Failed(Failure::CannotReadSize))
        },
        (CenterStage::Moving, Observation::Moved(ok)) => if ok {
            go(CenterStage::Done)
        } else {
            go(CenterStage::Failed(Failure::CannotMoveWindow))
        },
        _ => (c, center_pending(c.stage)),
    }
}

/// The action that a centering in stage `stage` has asked for.
pub fn center_pending_action(stage: CenterStage) -> (a: Action)
    ensures
        a == center_pending(stage),
{
    match stage {
        CenterStage::Locating => Action::ReadFocusedWindow,
        CenterStage::Sleeping => Action::Sleep(WINDOW_POLL_MILLIS),
        CenterStage::Measuring => Action::ReadWindowSize,
        CenterStage::Moving => Action::MoveWindow,
        CenterStage::Done => Action::Finish,
        CenterStage::Failed(f) => Action::Fail(f),
    }
}

/// Starts centering at clock reading `now`: look for the focused window,
/// for at most three seconds.
pub fn center(now: u64) -> (r: (CenterWindow, Action))
    requires
        now < CLOCK_LIMIT,
    ensures
        r == (CenterWindow { deadline: (now + CENTER_TIMEOUT) as u64, stage: CenterStage::Locating },
            Action::ReadFocusedWindow),
{
    (
        CenterWindow { deadline: now + CENTER_TIMEOUT, stage: CenterStage::Locating },
        Action::ReadFocusedWindow,
    )
}

impl CenterWindow {
    /// The next state and action on event `e`: once a focused window is
    /// found, read its size and move it; without one past the deadline,
    /// fail; else pause and look again.
    pub fn step(self, e: Event) -> (r: (CenterWindow, Action))
        ensures
            r == center_next(self, e),
    {
        let c = self;
        let stage = match (c.stage, e.seen) {
            (CenterStage::Locating, Observation::FocusedWindow(found)) => {
                if found {
                    CenterStage::Measuring
                } else if e.now > c.deadline {
                    CenterStage::Failed(Failure::NoWindowToCenter)
                } else {
                    CenterStage::Sleeping
                }
            },
            (CenterStage::Sleeping, Observation::Nothing) => CenterStage::Locating,
            (CenterStage::Measuring, Observation::SizeRead(ok)) => {
                if ok {
                    CenterStage::Moving
                } else {
                    CenterStage::Failed(Failure::CannotReadSize)
                }
            },
            (CenterStage::Moving, Observation::Moved(ok)) => {
                if ok {
                    CenterStage::Done
                } else {
                    CenterStage::Failed(Failure::CannotMoveWindow)
                }
            },
            _ => c.stage,
        };
        (CenterWindow { stage, ..c }, center_pending_action(stage))
    }
}

/// Centering gives up for want of a window only past its deadline, and
/// moves nothing before the window's size was read.
pub proof fn law_center_gives_up_only_after_deadline(c: CenterWindow, e: Event)
    requires
        c.stage == CenterStage::Locating,
        center_next(c, e).0.stage == CenterStage::Failed(Failure::NoWindowToCenter),
    ensures
        e.now > c.deadline,
        e.seen == Observation::FocusedWindow(false),
{
}

/// The window is moved only right after its size was read.
pub proof fn law_move_only_after_size(c: CenterWindow, e: Event)
    requires
        c.stage != CenterStage::Moving,
        center_next(c, e).1 == Action::MoveWindow,
    ensures
        c.stage == CenterStage::Measuring,
        e.seen == Observation::SizeRead(true),
{
}

/// Whether the centering is over, either way.
pub open spec fn center_is_over(c: CenterWindow) -> bool {
    c.stage is Done || c.stage is Failed
}

/// How many answered events, at most, a centering whose deadline has
/// passed still takes to end.
pub open spec fn center_steps_left(stage: CenterStage) -> nat {
    match stage {
        CenterStage::Moving => 1,
        CenterStage::Measuring => 2,
        CenterStage::Locating => 3,
        CenterStage::Sleeping => 4,
        _ => 0,
    }
}

/// The centering after the events `evs`, one after the other.
pub open spec fn center_run(c: CenterWindow, evs: Seq<Event>) -> CenterWindow
    decreases evs.len(),
{
    if evs.len() == 0 {
        c
    } else {
        center_run(center_next(c, evs[0]).0, evs.drop_first())
    }
}

/// Whether, while the centering lasts, each event of `evs` answers the
/// action it asked for and comes past its deadline.
pub open spec fn center_answered_late(c: CenterWindow, evs: Seq<Event>) -> bool
    decreases evs.len(),
{
    evs.len() == 0 || center_is_over(c) || (answers(center_pending(c.stage), evs[0].seen) && evs[0].now
        > c.deadline && center_answered_late(center_next(c, evs[0]).0, evs.drop_first()))
}

/// An ended centering stays as it ended.
pub proof fn law_center_end_is_final(c: CenterWindow, evs: Seq<Event>)
    requires
        center_is_over(c),
    ensures
        center_run(c, evs) == c,
    decreases evs.len(),
{
    if evs.len() > 0 {
        law_center_end_is_final(center_next(c, evs[0]).0, evs.drop_first());
    }
}

/// Once the deadline has passed, the centering ends within four answered
/// events.
pub proof fn law_center_ends_after_deadline(c: CenterWindow, evs: Seq<Event>)
    requires
        center_answered_late(c, evs),
        evs.len() >= center_steps_left(c.stage),
    ensures
        center_is_over(center_run(c, evs)),
    decreases evs.len(),
{
    if center_is_over(c) {
        law_center_end_is_final(c, evs);
    } else {
        law_center_ends_after_deadline(center_next(c, evs[0]).0, evs.drop_first());
    }
}

/// The deadline is set once, three seconds after the start, and never
/// moves: no event changes it.
pub proof fn law_center_deadline_fixed(c: CenterWindow, e: Event)
    ensures
        center_next(c, e).0.deadline == c.deadline,
{
}

/// Over a whole run the deadline stays where it was set, so the centering
/// gives up for want of a window only on a look after its start plus
/// three seconds.
pub proof fn law_center_run_deadline_fixed(c: CenterWindow, evs: Seq<Event>)
    ensures
        center_run(c, evs).deadline == c.deadline,
    decreases evs.len(),
{
    if evs.len() > 0 {
        law_center_run_deadline_fixed(center_next(c, evs[0]).0, evs.drop_first());
    }
}

} // verus!
