//! Bringing an application to the front: activate it, and wait until it
//! owns keyboard focus, asking again now and then, for at most five
//! seconds.
use vstd::prelude::*;

use crate::protocol::{answers, Action, Event, Failure, Observation, CLOCK_LIMIT};

verus! {

/// How long the application has to take focus, in nanoseconds.
pub const FRONTMOST_TIMEOUT: u64 = 5_000_000_000;

/// Activation is asked for again only after this many nanoseconds: asking
/// too often can keep the hand-off from ever settling.
pub const ACTIVATION_INTERVAL: u64 = 400_000_000;

/// Pause between two looks at the focus, in milliseconds.
pub const FOCUS_POLL_MILLIS: u64 = 20;

/// Where the wait stands: which action it last asked for, or how it ended.
#[derive(Clone, Copy, Debug, PartialEq, Eq, Structural)]
pub enum WaitStage {
    /// Asked for `Activate`.
    Activating,
    /// Asked for `ReadFocusedPid`.
    Querying,
    /// Asked for a pause.
    Sleeping,
    /// The application owns focus.
    Arrived,
    /// The deadline passed first.
    TimedOut,
}

/// The wait for application `pid` to own keyboard focus.
#[derive(Clone, Copy, Debug, PartialEq, Eq, Structural)]
pub struct FrontmostWait {
    pub pid: i32,
    /// Clock reading after which the wait gives up.
    pub deadline: u64,
    /// Clock reading right after the last activation, if any.
    pub last_activation: Option<u64>,
    pub stage: WaitStage,
}

/// Whether activation is due at `now`: never asked yet, or asked at least
/// `ACTIVATION_INTERVAL` ago (time runs no backwards here: a reading
/// before the last one counts as no time passed).
pub open spec fn activation_due(last: Option<u64>, now: u64) -> bool {
    match last {
        None => true,
        Some(t) => now >= t && now - t >= ACTIVATION_INTERVAL,
    }
}

/// The action that a wait in stage `stage` has asked for.
pub open spec fn wait_pending(stage: WaitStage) -> Action {
    match stage {
        WaitStage::Activating => Action::Activate,
        WaitStage::Querying => Action::ReadFocusedPid,
        WaitStage::Sleeping => Action::Sleep(FOCUS_POLL_MILLIS),
        WaitStage::Arrived => Action::Finish,
        WaitStage::TimedOut => Action::Fail(Failure::NotFrontmost),
    }
}

/// The wait's next state and action on event `e`. An observation that does
/// not answer the pending action leaves the wait as it is and asks again.
pub open spec fn wait_next(w: FrontmostWait, e: Event) -> (FrontmostWait, Action) {
    match (w.stage, e.seen) {
        (WaitStage::Activating, Observation::Nothing) => (
            FrontmostWait { last_activation: Some(e.now), stage: WaitStage::Querying, ..w },
            Action::ReadFocusedPid,
        ),
        (WaitStage::Querying, Observation::FocusedPid(p)) => if p == w.pid {
            (FrontmostWait { stage: WaitStage::Arrived, ..w }, Action::Finish)
        } else if e.now > w.deadline {
            (FrontmostWait { stage: WaitStage::TimedOut, ..w }, Action::Fail(Failure::NotFrontmost))
        } else {
            (FrontmostWait { stage: WaitStage::Sleeping, ..w }, Action::Sleep(FOCUS_POLL_MILLIS))
        },
        (WaitStage::Sleeping, Observation::Nothing) => if activation_due(w.last_activation, e.now) {
            (FrontmostWait { stage: WaitStage::Activating, ..w }, Action::Activate)
        } else {
            (FrontmostWait { stage: WaitStage::Querying, ..w }, Action::ReadFocusedPid)
        },
        _ => (w, wait_pending(w.stage)),
    }
}

/// The wait as it starts at clock reading `now`: it gives up after `now`
/// plus five seconds, and first asks for activation.
pub open spec fn wait_start(pid: i32, now: u64) -> (FrontmostWait, Action) {
    (
        FrontmostWait {
            pid,
            deadline: (now + FRONTMOST_TIMEOUT) as u64,
            last_activation: None,
            stage: WaitStage::Activating,
        },
        Action::Activate,
    )
}

/// Starts waiting, at clock reading `now`, for application `pid` to own
/// keyboard focus: the first thing to do is to activate it.
pub fn wait_frontmost(pid: i32, now: u64) -> (r: (FrontmostWait, Action))
    requires
        now < CLOCK_LIMIT,
    ensures
        r == wait_start(pid, now),
{
    (
        FrontmostWait {
            pid,
            deadline: now + FRONTMOST_TIMEOUT,
            last_activation: None,
            stage: WaitStage::Activating,
        },
        Action::Activate,
    )
}

impl FrontmostWait {
    /// Whether the wait is over.
    pub open spec fn spec_is_over(&self) -> bool {
        self.stage == WaitStage::Arrived || self.stage == WaitStage::TimedOut
    }

    /// Whether the wait is over, either way.
    pub fn is_over(&self) -> (b: bool)
        ensures
            b == self.spec_is_over(),
    {
        match self.stage {
            WaitStage::Arrived | WaitStage::TimedOut => true,
            _ => false,
        }
    }

    /// The next state and action on event `e`: after an activation, look at
    /// the focus; when `pid` owns it, finish; when the deadline has passed,
    /// fail; else pause, then activate again if the last activation is at
    /// least 400 ms old, and look again.
    pub fn step(self, e: Event) -> (r: (FrontmostWait, Action))
        ensures
            r == wait_next(self, e),
    {
        let w = self;
        match (w.stage, e.seen) {
            (WaitStage::Activating, Observation::Nothing) => (
                FrontmostWait { last_activation: Some(e.now), stage: WaitStage::Querying, ..w },
                Action::ReadFocusedPid,
            ),
            (WaitStage::Querying, Observation::FocusedPid(p)) => {
                if p == w.pid {
                    (FrontmostWait { stage: WaitStage::Arrived, ..w }, Action::Finish)
                } else if e.now > w.deadline {
                    (
                        FrontmostWait { stage: WaitStage::TimedOut, ..w },
                        Action::Fail(Failure::NotFrontmost),
                    )
                } else {
                    (
                        FrontmostWait { stage: WaitStage::Sleeping, ..w },
                        Action::Sleep(FOCUS_POLL_MILLIS),
                    )
                }
            },
            (WaitStage::Sleeping, Observation::Nothing) => {
                let due = match w.last_activation {
                    None => true,
                    Some(t) => e.now >= t && e.now - t >= ACTIVATION_INTERVAL,
                };
                if due {
                    (FrontmostWait { stage: WaitStage::Activating, ..w }, Action::Activate)
                } else {
                    (FrontmostWait { stage: WaitStage::Querying, ..w }, Action::ReadFocusedPid)
                }
            },
            _ => {
                let a = pending_action(w.stage);
                (w, a)
            },
        }
    }
}

/// The action that a wait in stage `stage` has asked for.
pub fn pending_action(stage: WaitStage) -> (a: Action)
    ensures
        a == wait_pending(stage),
{
    match stage {
        WaitStage::Activating => Action::Activate,
        WaitStage::Querying => Action::ReadFocusedPid,
        WaitStage::Sleeping => Action::Sleep(FOCUS_POLL_MILLIS),
        WaitStage::Arrived => Action::Finish,
        WaitStage::TimedOut => Action::Fail(Failure::NotFrontmost),
    }
}

/// The wait ends well only when the application was seen owning focus.
pub proof fn law_arrive_only_when_focused(w: FrontmostWait, e: Event)
    requires
        !w.spec_is_over(),
        wait_next(w, e).0.stage == WaitStage::Arrived,
    ensures
        e.seen == Observation::FocusedPid(w.pid),
        wait_next(w, e).1 == Action::Finish,
{
}

/// The wait gives up only past its deadline, and only after seeing another
/// process own focus.
pub proof fn law_give_up_only_after_deadline(w: FrontmostWait, e: Event)
    requires
        !w.spec_is_over(),
        wait_next(w, e).0.stage == WaitStage::TimedOut,
    ensures
        e.now > w.deadline,
        e.seen matches Observation::FocusedPid(p) && p != w.pid,
        wait_next(w, e).1 == Action::Fail(Failure::NotFrontmost),
{
}

/// Activation is asked for again only when the last one is at least 400 ms
/// old.
pub proof fn law_activation_throttled(w: FrontmostWait, e: Event)
    requires
        wait_next(w, e).1 == Action::Activate,
        w.stage != WaitStage::Activating,
    ensures
        w.last_activation matches Some(t) ==> e.now >= t && e.now - t >= ACTIVATION_INTERVAL,
{
}

/// The wait gives up five seconds after it started, not earlier.
pub proof fn law_deadline_is_five_seconds(pid: i32, now: u64)
    requires
        now < CLOCK_LIMIT,
    ensures
        wait_start(pid, now).0.deadline == now + FRONTMOST_TIMEOUT,
        wait_start(pid, now).1 == Action::Activate,
{
}

/// How many answered events, at most, a wait whose deadline has passed
/// still takes to end.
pub open spec fn wait_steps_left(stage: WaitStage) -> nat {
    match stage {
        WaitStage::Querying => 1,
        WaitStage::Activating => 2,
        WaitStage::Sleeping => 3,
        _ => 0,
    }
}

/// The wait after the events `evs`, one after the other.
pub open spec fn wait_run(w: FrontmostWait, evs: Seq<Event>) -> FrontmostWait
    decreases evs.len(),
{
    if evs.len() == 0 {
        w
    } else {
        wait_run(wait_next(w, evs[0]).0, evs.drop_first())
    }
}

/// Whether, while the wait lasts, each event of `evs` answers the action
/// that the wait asked for and comes past its deadline.
pub open spec fn wait_answered_late(w: FrontmostWait, evs: Seq<Event>) -> bool
    decreases evs.len(),
{
    evs.len() == 0 || w.spec_is_over() || (answers(wait_pending(w.stage), evs[0].seen)
        && evs[0].now > w.deadline && wait_answered_late(wait_next(w, evs[0]).0, evs.drop_first()))
}

/// An answered event past the deadline ends the wait or brings its end
/// nearer.
pub proof fn lemma_wait_late_step(w: FrontmostWait, e: Event)
    requires
        !w.spec_is_over(),
        answers(wait_pending(w.stage), e.seen),
        e.now > w.deadline,
    ensures
        wait_next(w, e).0.spec_is_over() || wait_steps_left(wait_next(w, e).0.stage) < wait_steps_left(
            w.stage,
        ),
        wait_next(w, e).0.deadline == w.deadline,
{
}

/// Once the deadline has passed, the wait ends within three answered
/// events: at most one activation, one look at the focus and one pause
/// after the deadline.
pub proof fn law_wait_ends_after_deadline(w: FrontmostWait, evs: Seq<Event>)
    requires
        wait_answered_late(w, evs),
        evs.len() >= wait_steps_left(w.stage),
    ensures
        wait_run(w, evs).spec_is_over(),
    decreases evs.len(),
{
    if w.spec_is_over() {
        law_wait_end_is_final(w, evs);
    } else {
        lemma_wait_late_step(w, evs[0]);
        law_wait_ends_after_deadline(wait_next(w, evs[0]).0, evs.drop_first());
    }
}

/// An ended wait stays as it ended.
pub proof fn law_wait_end_is_final(w: FrontmostWait, evs: Seq<Event>)
    requires
        w.spec_is_over(),
    ensures
        wait_run(w, evs) == w,
    decreases evs.len(),
{
    if evs.len() > 0 {
        law_wait_end_is_final(wait_next(w, evs[0]).0, evs.drop_first());
    }
}

/// The wait after the first `i` events of `evs`.
pub open spec fn wait_at(w: FrontmostWait, evs: Seq<Event>, i: int) -> FrontmostWait {
    wait_run(w, evs.take(i))
}

/// Whether each event of `evs` answers the action that the wait had asked
/// for when the event came (or the wait was over by then).
pub open spec fn wait_answered(w: FrontmostWait, evs: Seq<Event>) -> bool {
    forall|k: int|
        0 <= k < evs.len() ==> #[trigger] wait_at(w, evs, k).spec_is_over() || answers(
            wait_pending(wait_at(w, evs, k).stage),
            evs[k].seen,
        )
}

/// Running `a` and then `b` is running `a + b`.
pub proof fn lemma_wait_run_append(w: FrontmostWait, a: Seq<Event>, b: Seq<Event>)
    ensures
        wait_run(w, a + b) == wait_run(wait_run(w, a), b),
    decreases a.len(),
{
    if a.len() == 0 {
        assert(a + b =~= b);
    } else {
        assert((a + b)[0] == a[0]);
        assert((a + b).drop_first() =~= a.drop_first() + b);
        lemma_wait_run_append(wait_next(w, a[0]).0, a.drop_first(), b);
    }
}

/// The wait after the first `i + 1` events is one step from the wait after
/// the first `i`.
pub proof fn lemma_wait_prefix_step(w: FrontmostWait, evs: Seq<Event>, i: int)
    requires
        0 <= i < evs.len(),
    ensures
        wait_at(w, evs, i + 1) == wait_next(wait_at(w, evs, i), evs[i]).0,
{
    let one = seq![evs[i]];
    assert(evs.take(i + 1) =~= evs.take(i) + one);
    lemma_wait_run_append(w, evs.take(i), one);
    assert(one.drop_first() =~= Seq::<Event>::empty());
    assert(one[0] == evs[i]);
    let next = wait_next(wait_at(w, evs, i), evs[i]).0;
    assert(wait_run(next, Seq::<Event>::empty()) == next);
    assert(wait_run(wait_at(w, evs, i), one) == wait_run(next, one.drop_first()));
}

/// The wait asks for nothing but activating the application, looking at
/// which process owns focus and pausing 20 ms, until it ends; its first
/// action is the activation.
pub proof fn law_wait_actions(pid: i32, now: u64, evs: Seq<Event>, i: int)
    requires
        0 <= i <= evs.len(),
    ensures
        wait_start(pid, now).1 == Action::Activate,
        wait_pending(wait_at(wait_start(pid, now).0, evs, 0).stage) == Action::Activate,
        ({
            let a = wait_pending(wait_at(wait_start(pid, now).0, evs, i).stage);
            ||| a == Action::Activate
            ||| a == Action::ReadFocusedPid
            ||| a == Action::Sleep(FOCUS_POLL_MILLIS)
            ||| a == Action::Finish
            ||| a == Action::Fail(Failure::NotFrontmost)
        }),
{
    assert(evs.take(0) =~= Seq::<Event>::empty());
}

proof fn lemma_last_activation_kept(w: FrontmostWait, evs: Seq<Event>, i: int, k: int)
    requires
        wait_answered(w, evs),
        0 <= i < k < evs.len(),
        wait_at(w, evs, i).stage == WaitStage::Activating,
        forall|m: int| i < m <= k ==> (#[trigger] wait_at(w, evs, m)).stage != WaitStage::Activating,
    ensures
        wait_at(w, evs, k).last_activation == Some(evs[i].now),
    decreases k - i,
{
    if k == i + 1 {
        assert(!wait_at(w, evs, i).spec_is_over());
        assert(answers(wait_pending(WaitStage::Activating), evs[i].seen));
        lemma_wait_prefix_step(w, evs, i);
    } else {
        lemma_last_activation_kept(w, evs, i, k - 1);
        lemma_wait_prefix_step(w, evs, k - 1);
        assert(wait_at(w, evs, k - 1).stage != WaitStage::Activating);
    }
}

/// Two activations in a row are at least 400 ms apart: when the wait asks
/// for an activation at step `i` and next at step `j`, the clock reading on
/// which it decided the second one is at least 400 ms after the reading
/// taken right after the first.
pub proof fn law_activations_spaced(w: FrontmostWait, evs: Seq<Event>, i: int, j: int)
    requires
        wait_answered(w, evs),
        0 <= i < j <= evs.len(),
        wait_at(w, evs, i).stage == WaitStage::Activating,
        wait_at(w, evs, j).stage == WaitStage::Activating,
        forall|m: int| i < m < j ==> (#[trigger] wait_at(w, evs, m)).stage != WaitStage::Activating,
    ensures
        j >= i + 2,
        evs[j - 1].now >= evs[i].now,
        evs[j - 1].now - evs[i].now >= ACTIVATION_INTERVAL,
{
    assert(!wait_at(w, evs, i).spec_is_over());
    assert(answers(wait_pending(WaitStage::Activating), evs[i].seen));
    lemma_wait_prefix_step(w, evs, i);
    if j == i + 1 {
        assert(false);
    }
    lemma_last_activation_kept(w, evs, i, j - 1);
    lemma_wait_prefix_step(w, evs, j - 1);
}

/// While the wait goes on, a pause after which the last activation is at
/// least 400 ms old is followed by a new activation.
pub proof fn law_activation_when_due(w: FrontmostWait, evs: Seq<Event>, k: int, t: u64)
    requires
        0 <= k < evs.len(),
        wait_at(w, evs, k).stage == WaitStage::Sleeping,
        evs[k].seen == Observation::Nothing,
        wait_at(w, evs, k).last_activation == Some(t),
        evs[k].now >= t,
        evs[k].now - t >= ACTIVATION_INTERVAL,
    ensures
        wait_at(w, evs, k + 1).stage == WaitStage::Activating,
{
    lemma_wait_prefix_step(w, evs, k);
}

/// A wait that is still going has looked at the focus only at or before
/// its deadline: a look at the focus after the deadline ends it. So the
/// wait lasts no longer than its five seconds plus one round of activation,
/// look and pause.
pub proof fn law_wait_going_means_on_time(w: FrontmostWait, evs: Seq<Event>, k: int)
    requires
        wait_answered(w, evs),
        !wait_run(w, evs).spec_is_over(),
        0 <= k < evs.len(),
        wait_at(w, evs, k).stage == WaitStage::Querying,
    ensures
        evs[k].now <= wait_at(w, evs, k).deadline,
{
    let p = wait_at(w, evs, k);
    assert(!wait_at(w, evs, k).spec_is_over());
    assert(answers(wait_pending(p.stage), evs[k].seen));
    lemma_wait_prefix_step(w, evs, k);
    let q = wait_at(w, evs, k + 1);
    if evs[k].now > p.deadline {
        assert(q.spec_is_over());
        assert(evs =~= evs.take(k + 1) + evs.skip(k + 1));
        lemma_wait_run_append(w, evs.take(k + 1), evs.skip(k + 1));
        law_wait_end_is_final(q, evs.skip(k + 1));
    }
}

/// The deadline is set once, five seconds after the start, and never moves:
/// no event, activation or look at the focus changes it.
pub proof fn law_wait_deadline_fixed(w: FrontmostWait, e: Event)
    ensures
        wait_next(w, e).0.deadline == w.deadline,
        wait_next(w, e).0.pid == w.pid,
{
}

/// Over a whole run the deadline stays at the start plus five seconds, so
/// the wait gives up only on a look at the focus after that.
pub proof fn law_wait_run_deadline_fixed(pid: i32, now: u64, evs: Seq<Event>, i: int)
    requires
        now < CLOCK_LIMIT,
        0 <= i <= evs.len(),
    ensures
        wait_at(wait_start(pid, now).0, evs, i).deadline == now + 5_000_000_000,
{
    lemma_wait_run_deadline(wait_start(pid, now).0, evs.take(i));
}

proof fn lemma_wait_run_deadline(w: FrontmostWait, evs: Seq<Event>)
    ensures
        wait_run(w, evs).deadline == w.deadline,
    decreases evs.len(),
{
    if evs.len() > 0 {
        lemma_wait_run_deadline(wait_next(w, evs[0]).0, evs.drop_first());
    }
}

} // verus!
