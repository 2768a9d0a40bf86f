//! What holds of every run of the dialog procedure: of the actions it asks
//! for, whatever the application, the window server and the clock report.
use vstd::prelude::*;

use crate::frontmost::{lemma_wait_late_step, wait_steps_left};
use crate::protocol::{answers, escape_chord, paste_chord, return_chord, select_all_chord, Action, Event, Failure, Observation};
use crate::push::{BLIND_SCRIPT_LEN, focused_text_input, push_advance, push_next, push_pending, Push, PushPhase};
use crate::roles::{law_in_sheet_search, sheet_before_boundary, sheet_search, sheet_step, SheetStep, SHEET_SEARCH_DEPTH};
use crate::text::opt_text;
use crate::windows::window_count;

verus! {

/// The procedure `s` after the events `evs`, one after the other.
pub open spec fn run(s: Push, evs: Seq<Event>) -> Push
    decreases evs.len(),
{
    if evs.len() == 0 {
        s
    } else {
        push_next(run(s, evs.drop_last()), evs.last())
    }
}

/// The procedure as it starts delivering `path` to application `pid`.
pub open spec fn started(s: Push) -> bool {
    s.phase == PushPhase::CheckingTrust
}

/// Whether action `a` puts text into the application or on the pasteboard,
/// or presses a key that selects, pastes or confirms.
pub open spec fn types_text(a: Action) -> bool {
    ||| a is WriteField
    ||| a is SetPasteboard
    ||| a == Action::Press(select_all_chord())
    ||| a == Action::Press(paste_chord())
    ||| a == Action::Press(return_chord())
}

/// Whether the procedure is in its keystroke strategy.
pub open spec fn in_blind_strategy(p: PushPhase) -> bool {
    ||| p is BlindReporting
    ||| p is BlindSaving
    ||| p is BlindKeys
    ||| p is BlindRestoring
}

/// Whether the procedure has read the path back from the field and is on
/// its way to confirm the dialog.
pub open spec fn after_verification(p: PushPhase) -> bool {
    ||| p is Going
    ||| p is Closing
    ||| p is CloseSleeping
    ||| p is ConfirmPause
    ||| p is Confirming
}

/// Whether the procedure is past the point where it could still give up for
/// lack of a Go-to-Folder field.
pub open spec fn committed(p: PushPhase) -> bool {
    ||| in_blind_strategy(p)
    ||| p is Writing
    ||| p is VerifyPause
    ||| p is Verifying
    ||| after_verification(p)
    ||| p is Done
    ||| (p matches PushPhase::Failed(f) && f != Failure::NoGoToFolderSheet)
}

/// Whether `e` reports more windows of `pid` on the window server than in
/// the accessibility tree: a dialog invisible to the accessibility API.
pub open spec fn shows_hidden_dialog(e: Event, pid: i32) -> bool {
    e.seen matches Observation::Windows { accessibility, windows } && window_count(windows@, pid)
        > accessibility
}

/// Whether `e` reports that the field holds exactly `path`.
pub open spec fn reads_back(e: Event, path: Seq<char>) -> bool {
    e.seen matches Observation::FieldValue(v) && v@ == path
}

/// Whether, in phase `p`, event `e` reports a sheet as the ancestor just
/// read of the focused text field, and `p` remembered a field focused before
/// Cmd+Shift+G exactly when `pre_field`.
pub open spec fn finds_sheet(p: PushPhase, e: Event, pre_field: bool) -> bool {
    match p {
        PushPhase::Climbing { pre_field: remembered, depth, .. } => remembered == pre_field && match e.seen {
            Observation::ParentRole(role) => sheet_step(depth as nat, opt_text(role)) == SheetStep::Inside,
            _ => false,
        },
        _ => false,
    }
}

/// Whether phase `p` was looking at the focus, `e` reports a focused text
/// input, and `next` reads the parent of it.
pub open spec fn starts_climb(p: PushPhase, e: Event, next: PushPhase) -> bool {
    &&& p is Probing
    &&& match e.seen {
        Observation::Focused(role) => focused_text_input(role),
        _ => false,
    }
    &&& next matches PushPhase::Climbing { depth, .. } && depth == 0
}

/// Whether phase `p` was climbing, `e` reports an ancestor that decides
/// nothing yet, and `next` reads the ancestor one level up.
pub open spec fn continues_climb(p: PushPhase, e: Event, next: PushPhase) -> bool {
    match (p, next) {
        (PushPhase::Climbing { depth, .. }, PushPhase::Climbing { depth: next_depth, .. }) => {
            &&& next_depth == depth + 1
            &&& match e.seen {
                Observation::ParentRole(role) => sheet_step(depth as nat, opt_text(role)) == SheetStep::Climb,
                _ => false,
            }
        },
        _ => false,
    }
}

/// Whether the procedure's state is one that a run can reach: a wait for
/// focus concerns the procedure's target and is not over, and the climb
/// of ancestors stays within the search depth.
pub open spec fn well_formed(s: Push) -> bool {
    match s.phase {
        PushPhase::Frontmost(w) => w.pid == s.pid && !w.spec_is_over(),
        PushPhase::Climbing { depth, .. } => depth < SHEET_SEARCH_DEPTH,
        _ => true,
    }
}

/// A step keeps the state well formed.
pub proof fn lemma_well_formed_step(s: Push, e: Event)
    requires
        well_formed(s),
    ensures
        well_formed(push_next(s, e)),
{
}

/// Every state that a run reaches from the start is well formed.
pub proof fn law_run_well_formed(s: Push, evs: Seq<Event>)
    requires
        started(s),
    ensures
        well_formed(run(s, evs)),
    decreases evs.len(),
{
    if evs.len() > 0 {
        law_run_well_formed(s, evs.drop_last());
        lemma_well_formed_step(run(s, evs.drop_last()), evs.last());
    }
}

/// A run keeps the target, the path and the dialog title.
pub proof fn lemma_run_keeps_request(s: Push, evs: Seq<Event>)
    ensures
        run(s, evs).pid == s.pid,
        run(s, evs).path == s.path,
        run(s, evs).dialog_title == s.dialog_title,
    decreases evs.len(),
{
    if evs.len() > 0 {
        lemma_run_keeps_request(s, evs.drop_last());
    }
}

/// The state after the first `i + 1` events is one step from the state
/// after the first `i`.
pub proof fn lemma_run_prefix_step(s: Push, evs: Seq<Event>, i: int)
    requires
        0 <= i < evs.len(),
    ensures
        run(s, evs.take(i + 1)) == push_next(run(s, evs.take(i)), evs[i]),
{
    assert(evs.take(i + 1).drop_last() =~= evs.take(i));
}

/// The keystroke strategy is only ever entered from the window count, and
/// only when the window server shows more windows than the accessibility
/// tree.
pub proof fn lemma_blind_entry(s: Push, e: Event)
    requires
        !in_blind_strategy(s.phase),
        in_blind_strategy(push_advance(s, e)),
    ensures
        s.phase == PushPhase::Counting,
        shows_hidden_dialog(e, s.pid),
{
}

/// Keystrokes through the pasteboard are only used after the window
/// server was seen to show more windows of the application than its
/// accessibility tree: the dialog is there, but invisible to the
/// accessibility API.
pub proof fn law_blind_input_only_for_hidden_dialog(s: Push, evs: Seq<Event>, i: int)
    requires
        started(s),
        0 <= i <= evs.len(),
        in_blind_strategy(run(s, evs.take(i)).phase),
    ensures
        exists|j: int|
            0 <= j < i && run(s, evs.take(j)).phase == PushPhase::Counting && #[trigger] shows_hidden_dialog(
                evs[j],
                s.pid,
            ),
    decreases i,
{
    if i == 0 {
        assert(evs.take(0) =~= Seq::<Event>::empty());
    } else {
        let p = run(s, evs.take(i - 1));
        lemma_run_prefix_step(s, evs, i - 1);
        if in_blind_strategy(p.phase) {
            law_blind_input_only_for_hidden_dialog(s, evs, i - 1);
            let j = choose|j: int|
                0 <= j < i - 1 && run(s, evs.take(j)).phase == PushPhase::Counting
                    && #[trigger] shows_hidden_dialog(evs[j], s.pid);
            assert(0 <= j < i);
        } else {
            lemma_blind_entry(p, evs[i - 1]);
            lemma_run_keeps_request(s, evs.take(i - 1));
            assert(shows_hidden_dialog(evs[i - 1], s.pid));
        }
    }
}

/// The way to the confirming keystrokes is only ever entered from reading
/// the field back, and only when it held the path.
pub proof fn lemma_verification_entry(s: Push, e: Event)
    requires
        !after_verification(s.phase),
        after_verification(push_advance(s, e)),
    ensures
        s.phase == PushPhase::Verifying,
        reads_back(e, s.path@),
{
}

/// The path is confirmed with Return (and the dialog with a second Return)
/// only after the field was read back and held exactly the path.
pub proof fn law_confirm_only_after_read_back(s: Push, evs: Seq<Event>, i: int)
    requires
        started(s),
        0 <= i <= evs.len(),
        after_verification(run(s, evs.take(i)).phase),
    ensures
        exists|j: int|
            0 <= j < i && run(s, evs.take(j)).phase == PushPhase::Verifying && #[trigger] reads_back(
                evs[j],
                s.path@,
            ),
    decreases i,
{
    if i == 0 {
        assert(evs.take(0) =~= Seq::<Event>::empty());
    } else {
        let p = run(s, evs.take(i - 1));
        lemma_run_prefix_step(s, evs, i - 1);
        if after_verification(p.phase) {
            law_confirm_only_after_read_back(s, evs, i - 1);
            let j = choose|j: int|
                0 <= j < i - 1 && run(s, evs.take(j)).phase == PushPhase::Verifying
                    && #[trigger] reads_back(evs[j], s.path@);
            assert(0 <= j < i);
        } else {
            lemma_verification_entry(p, evs[i - 1]);
            lemma_run_keeps_request(s, evs.take(i - 1));
            assert(reads_back(evs[i - 1], s.path@));
        }
    }
}

/// Once committed, a step stays committed.
pub proof fn lemma_committed_step(s: Push, e: Event)
    requires
        committed(s.phase),
    ensures
        committed(push_advance(s, e)),
{
}

/// Once committed, a run stays committed.
pub proof fn lemma_committed_run(s: Push, evs: Seq<Event>)
    requires
        committed(s.phase),
    ensures
        committed(run(s, evs).phase),
    decreases evs.len(),
{
    if evs.len() > 0 {
        lemma_committed_run(s, evs.drop_last());
        lemma_committed_step(run(s, evs.drop_last()), evs.last());
    }
}

/// A run over `evs.take(i)` and then the rest is a run over `evs`.
pub proof fn lemma_run_split(s: Push, evs: Seq<Event>, i: int)
    requires
        0 <= i <= evs.len(),
    ensures
        run(run(s, evs.take(i)), evs.skip(i)) == run(s, evs),
    decreases evs.len() - i,
{
    if i == evs.len() {
        assert(evs.take(i) =~= evs);
        assert(evs.skip(i) =~= Seq::<Event>::empty());
    } else {
        lemma_run_split(s, evs, i + 1);
        lemma_run_prefix_step(s, evs, i);
        lemma_run_cons(run(s, evs.take(i)), evs[i], evs.skip(i + 1));
        assert(seq![evs[i]] + evs.skip(i + 1) =~= evs.skip(i));
    }
}

/// Running `e` and then `rest` is running `[e] + rest`.
pub proof fn lemma_run_cons(s: Push, e: Event, rest: Seq<Event>)
    ensures
        run(push_next(s, e), rest) == run(s, seq![e] + rest),
    decreases rest.len(),
{
    let all = seq![e] + rest;
    if rest.len() == 0 {
        assert(all.drop_last() =~= Seq::<Event>::empty());
        assert(all.last() == e);
        assert(run(s, Seq::<Event>::empty()) == s);
        assert(run(s, all) == push_next(run(s, all.drop_last()), all.last()));
    } else {
        lemma_run_cons(s, e, rest.drop_last());
        assert(all.drop_last() =~= seq![e] + rest.drop_last());
        assert(all.last() == rest.last());
        assert(run(s, all) == push_next(run(s, all.drop_last()), all.last()));
    }
}

/// Every action that puts text into the application or on the pasteboard,
/// or presses select all, paste or Return, is asked for in a committed
/// phase.
pub proof fn lemma_typing_is_committed(s: Push)
    requires
        types_text(push_pending(s)),
    ensures
        committed(s.phase),
{
}

/// When no new text field inside a sheet takes focus after Cmd+Shift+G,
/// the procedure gives up without typing: it never writes the path into a
/// field, never touches the pasteboard, and never presses select all,
/// paste or Return.
pub proof fn law_no_typing_without_sheet(s: Push, evs: Seq<Event>, i: int)
    requires
        started(s),
        run(s, evs).phase == PushPhase::Failed(Failure::NoGoToFolderSheet),
        0 <= i <= evs.len(),
    ensures
        !types_text(push_pending(run(s, evs.take(i)))),
{
    if types_text(push_pending(run(s, evs.take(i)))) {
        lemma_typing_is_committed(run(s, evs.take(i)));
        lemma_committed_run(run(s, evs.take(i)), evs.skip(i));
        lemma_run_split(s, evs, i);
    }
}

/// The path is written only into a field that was found to be new and
/// inside a sheet: the write follows either the discovery of a sheet among
/// the ancestors of the focused text field, when no field was focused
/// before Cmd+Shift+G, or the check that the focused field is not the one
/// that was focused before.
pub proof fn law_write_only_into_sheet_field(s: Push, e: Event)
    requires
        !(s.phase is Writing),
        push_advance(s, e) is Writing,
    ensures
        finds_sheet(s.phase, e, false) || (s.phase is Comparing && e.seen
            == Observation::SameAsPreField(false)),
{
}

/// The focused field is compared with the one focused before Cmd+Shift+G
/// only once a sheet was found among its ancestors.
pub proof fn law_compare_only_inside_sheet(s: Push, e: Event)
    requires
        !(s.phase is Comparing),
        push_advance(s, e) is Comparing,
    ensures
        finds_sheet(s.phase, e, true),
{
}

/// The ancestors of a focused element are climbed only from a focused text
/// input, one ancestor at a time.
pub proof fn law_climb_only_from_text_input(s: Push, e: Event)
    requires
        push_advance(s, e) is Climbing,
        push_advance(s, e) != s.phase,
    ensures
        starts_climb(s.phase, e, push_advance(s, e)) || continues_climb(s.phase, e, push_advance(s, e)),
{
}

/// The phase after the first `i` events of `evs`.
pub open spec fn phase_at(s: Push, evs: Seq<Event>, i: int) -> PushPhase {
    run(s, evs.take(i)).phase
}

/// Whether, at step `j` of the run, the focused element was seen to be a
/// text input and the climb of its ancestors began.
pub open spec fn climb_starts_at(s: Push, evs: Seq<Event>, j: int) -> bool {
    starts_climb(phase_at(s, evs, j), evs[j], phase_at(s, evs, j + 1))
}

/// Whether, at step `k` of the run, a sheet was found among the ancestors
/// of the focused text input, a field having been remembered before
/// Cmd+Shift+G exactly when `pre_field`.
pub open spec fn sheet_found_at(s: Push, evs: Seq<Event>, k: int, pre_field: bool) -> bool {
    finds_sheet(phase_at(s, evs, k), evs[k], pre_field)
}

/// Whether, at step `m` of the run, the focused field was found not to be
/// the one remembered before Cmd+Shift+G.
pub open spec fn new_field_at(s: Push, evs: Seq<Event>, m: int) -> bool {
    &&& phase_at(s, evs, m) is Comparing
    &&& evs[m].seen == Observation::SameAsPreField(false)
}

/// Every climb of ancestors began at a focused text input.
pub proof fn law_climb_begins_at_text_input(s: Push, evs: Seq<Event>, i: int)
    requires
        started(s),
        0 <= i <= evs.len(),
        phase_at(s, evs, i) is Climbing,
    ensures
        exists|j: int| 0 <= j < i && #[trigger] climb_starts_at(s, evs, j),
    decreases i,
{
    if i == 0 {
        assert(evs.take(0) =~= Seq::<Event>::empty());
    } else {
        let p = run(s, evs.take(i - 1));
        lemma_run_prefix_step(s, evs, i - 1);
        if p.phase is Climbing {
            law_climb_begins_at_text_input(s, evs, i - 1);
            let j = choose|j: int| 0 <= j < i - 1 && #[trigger] climb_starts_at(s, evs, j);
            assert(0 <= j < i);
        } else {
            law_climb_only_from_text_input(p, evs[i - 1]);
            assert(climb_starts_at(s, evs, i - 1));
        }
    }
}

/// The remembered field is compared with the focused one only after a
/// sheet was found among the ancestors of a focused text input.
pub proof fn law_comparison_follows_sheet(s: Push, evs: Seq<Event>, i: int)
    requires
        started(s),
        0 <= i <= evs.len(),
        phase_at(s, evs, i) is Comparing,
    ensures
        exists|k: int| 0 <= k < i && #[trigger] sheet_found_at(s, evs, k, true),
    decreases i,
{
    if i == 0 {
        assert(evs.take(0) =~= Seq::<Event>::empty());
    } else {
        let p = run(s, evs.take(i - 1));
        lemma_run_prefix_step(s, evs, i - 1);
        if p.phase is Comparing {
            law_comparison_follows_sheet(s, evs, i - 1);
            let k = choose|k: int| 0 <= k < i - 1 && #[trigger] sheet_found_at(s, evs, k, true);
            assert(0 <= k < i);
        } else {
            law_compare_only_inside_sheet(p, evs[i - 1]);
            assert(sheet_found_at(s, evs, i - 1, true));
        }
    }
}

/// A sheet is found only while climbing the ancestors of a focused text
/// input.
pub proof fn lemma_sheet_found_while_climbing(s: Push, evs: Seq<Event>, k: int, pre_field: bool)
    requires
        started(s),
        0 <= k < evs.len(),
        sheet_found_at(s, evs, k, pre_field),
    ensures
        exists|j: int| 0 <= j < k && #[trigger] climb_starts_at(s, evs, j),
{
    law_climb_begins_at_text_input(s, evs, k);
}

/// Whether, between steps `k` and `i` of the run, the focused field was
/// found not to be the one remembered before Cmd+Shift+G.
pub open spec fn new_field_between(s: Push, evs: Seq<Event>, k: int, i: int) -> bool {
    exists|m: int| k < m < i && #[trigger] new_field_at(s, evs, m)
}

/// Whether step `k` of the run is what allows the write at step `i`: a
/// sheet found with no field remembered, or a sheet found with a field
/// remembered and a different field found focused before step `i`.
pub open spec fn write_allowed_by(s: Push, evs: Seq<Event>, k: int, i: int) -> bool {
    ||| sheet_found_at(s, evs, k, false)
    ||| sheet_found_at(s, evs, k, true) && new_field_between(s, evs, k, i)
}

/// The path is written into a field only after a focused text input was
/// seen, a sheet was found among the ancestors of a focused text input,
/// and, when a field had been focused before Cmd+Shift+G, the focused
/// field was found to be another one.
pub proof fn law_write_only_into_new_sheet_field(s: Push, evs: Seq<Event>, i: int)
    requires
        started(s),
        0 <= i <= evs.len(),
        phase_at(s, evs, i) is Writing,
    ensures
        exists|k: int| 0 <= k < i && #[trigger] write_allowed_by(s, evs, k, i),
        exists|j: int| 0 <= j < i && #[trigger] climb_starts_at(s, evs, j),
    decreases i,
{
    if i == 0 {
        assert(evs.take(0) =~= Seq::<Event>::empty());
    } else {
        let p = run(s, evs.take(i - 1));
        lemma_run_prefix_step(s, evs, i - 1);
        if p.phase is Writing {
            law_write_only_into_new_sheet_field(s, evs, i - 1);
            let k = choose|k: int| 0 <= k < i - 1 && #[trigger] write_allowed_by(s, evs, k, i - 1);
            if !sheet_found_at(s, evs, k, false) {
                let m = choose|m: int| k < m < i - 1 && #[trigger] new_field_at(s, evs, m);
                assert(new_field_between(s, evs, k, i));
            }
            assert(write_allowed_by(s, evs, k, i));
            let j = choose|j: int| 0 <= j < i - 1 && #[trigger] climb_starts_at(s, evs, j);
            assert(0 <= j < i);
        } else {
            law_write_only_into_sheet_field(p, evs[i - 1]);
            if sheet_found_at(s, evs, i - 1, false) {
                lemma_sheet_found_while_climbing(s, evs, i - 1, false);
                assert(write_allowed_by(s, evs, i - 1, i));
                let j = choose|j: int| 0 <= j < i - 1 && #[trigger] climb_starts_at(s, evs, j);
                assert(0 <= j < i);
            } else {
                assert(new_field_at(s, evs, i - 1));
                law_comparison_follows_sheet(s, evs, i - 1);
                let k = choose|k: int| 0 <= k < i - 1 && #[trigger] sheet_found_at(s, evs, k, true);
                assert(new_field_between(s, evs, k, i));
                assert(write_allowed_by(s, evs, k, i));
                lemma_sheet_found_while_climbing(s, evs, k, true);
                let j = choose|j: int| 0 <= j < k && #[trigger] climb_starts_at(s, evs, j);
                assert(0 <= j < i);
            }
        }
    }
}

/// The keystroke strategy gives the pasteboard its former text back once
/// the last keystroke was pressed, and then ends.
pub proof fn law_blind_restores_pasteboard(s: Push, e: Event, f: Event, saved: String)
    requires
        s.phase == (PushPhase::BlindKeys { next: BLIND_SCRIPT_LEN, saved: Some(saved) }),
        e.seen == Observation::Nothing,
        f.seen == Observation::Nothing,
    ensures
        push_pending(push_next(s, e)) == Action::SetPasteboard(saved),
        push_next(push_next(s, e), f).phase == PushPhase::Done,
{
}

/// Giving up for lack of a Go-to-Folder field comes right after Escape
/// closed whatever Cmd+Shift+G opened.
pub proof fn law_escape_before_giving_up(s: Push, e: Event)
    requires
        push_advance(s, e) == PushPhase::Failed(Failure::NoGoToFolderSheet),
        s.phase != PushPhase::Failed(Failure::NoGoToFolderSheet),
    ensures
        s.phase == PushPhase::Abandoning,
        push_pending(s) == Action::Press(escape_chord()),
{
}

/// Whether two observations are the same, except that a read-back of the
/// field may differ when each holds its own run's path exactly when the
/// other does.
pub open spec fn same_but_read_back(o1: Observation, o2: Observation, p1: Seq<char>, p2: Seq<char>) -> bool {
    match (o1, o2) {
        (Observation::FieldValue(v1), Observation::FieldValue(v2)) => (v1@ == p1) == (v2@ == p2),
        _ => o1 == o2,
    }
}

/// Whether two events report the same, at the same time, but for the
/// read-back of the field, which echoes each run's own path.
pub open spec fn events_correspond(e1: Event, e2: Event, p1: Seq<char>, p2: Seq<char>) -> bool {
    e1.now == e2.now && same_but_read_back(e1.seen, e2.seen, p1, p2)
}

/// Whether two actions are the same, but for the path that one writes into
/// the field or puts on the pasteboard where the other does the same with
/// its own path.
pub open spec fn same_but_path(a1: Action, a2: Action, p1: String, p2: String) -> bool {
    ||| a1 == a2
    ||| a1 == Action::WriteField(p1) && a2 == Action::WriteField(p2)
    ||| a1 == Action::SetPasteboard(p1) && a2 == Action::SetPasteboard(p2)
}

/// Whether two procedures are the same but for their paths.
pub open spec fn same_but_for_path(s1: Push, s2: Push) -> bool {
    &&& s1.pid == s2.pid
    &&& s1.dialog_title == s2.dialog_title
    &&& s1.phase == s2.phase
}

/// Two procedures that differ only in their path ask for the same actions
/// but for that path.
pub proof fn lemma_pending_same_but_path(s1: Push, s2: Push)
    requires
        same_but_for_path(s1, s2),
    ensures
        same_but_path(push_pending(s1), push_pending(s2), s1.path, s2.path),
{
}

/// A step keeps two procedures that differ only in their path alike, on
/// corresponding events.
pub proof fn lemma_step_same_but_path(s1: Push, s2: Push, e1: Event, e2: Event)
    requires
        same_but_for_path(s1, s2),
        events_correspond(e1, e2, s1.path@, s2.path@),
    ensures
        same_but_for_path(push_next(s1, e1), push_next(s2, e2)),
{
    match (e1.seen, e2.seen) {
        (Observation::FieldValue(v1), Observation::FieldValue(v2)) => {},
        _ => {
            assert(e1 == e2);
        },
    }
}

/// Runs of two procedures that differ only in their path, over
/// corresponding events, stay alike.
pub proof fn lemma_run_same_but_path(s1: Push, s2: Push, evs1: Seq<Event>, evs2: Seq<Event>)
    requires
        same_but_for_path(s1, s2),
        evs1.len() == evs2.len(),
        forall|i: int| 0 <= i < evs1.len() ==> events_correspond(#[trigger] evs1[i], evs2[i], s1.path@, s2.path@),
    ensures
        same_but_for_path(run(s1, evs1), run(s2, evs2)),
    decreases evs1.len(),
{
    if evs1.len() > 0 {
        let n = evs1.len() - 1;
        lemma_run_same_but_path(s1, s2, evs1.drop_last(), evs2.drop_last());
        lemma_run_keeps_request(s1, evs1.drop_last());
        lemma_run_keeps_request(s2, evs2.drop_last());
        assert(events_correspond(evs1[n], evs2[n], s1.path@, s2.path@));
        lemma_step_same_but_path(run(s1, evs1.drop_last()), run(s2, evs2.drop_last()), evs1.last(), evs2.last());
    }
}

/// The path reaches the application only by being written into the field
/// (or put on the pasteboard in the keystroke strategy): two deliveries of
/// different paths to the same application, over events that differ only in
/// a read-back echoing each one's own path, go through the same phases and
/// ask for the same actions, key presses included, except that each writes
/// its own path.
pub proof fn law_path_only_in_field_and_pasteboard(
    s1: Push,
    s2: Push,
    evs1: Seq<Event>,
    evs2: Seq<Event>,
    i: int,
)
    requires
        started(s1),
        started(s2),
        s1.pid == s2.pid,
        s1.dialog_title == s2.dialog_title,
        evs1.len() == evs2.len(),
        forall|j: int| 0 <= j < evs1.len() ==> events_correspond(#[trigger] evs1[j], evs2[j], s1.path@, s2.path@),
        0 <= i <= evs1.len(),
    ensures
        phase_at(s1, evs1, i) == phase_at(s2, evs2, i),
        same_but_path(
            push_pending(run(s1, evs1.take(i))),
            push_pending(run(s2, evs2.take(i))),
            s1.path,
            s2.path,
        ),
{
    let t1 = evs1.take(i);
    let t2 = evs2.take(i);
    assert forall|j: int| 0 <= j < t1.len() implies events_correspond(#[trigger] t1[j], t2[j], s1.path@, s2.path@) by {
        assert(t1[j] == evs1[j]);
        assert(t2[j] == evs2[j]);
    }
    lemma_run_same_but_path(s1, s2, t1, t2);
    lemma_run_keeps_request(s1, t1);
    lemma_run_keeps_request(s2, t2);
    lemma_pending_same_but_path(run(s1, t1), run(s2, t2));
}

/// The polling loop that phase `p` belongs to, with its deadline: 1 for
/// the wait for focus, 2 for the wait for the raised dialog window, 3 for
/// the search of the Go-to-Folder field, 4 for the wait for the sheet to
/// close.
pub open spec fn poll_loop(p: PushPhase) -> Option<(int, u64)> {
    match p {
        PushPhase::Frontmost(w) => Some((1, w.deadline)),
        PushPhase::RaiseChecking { deadline } => Some((2, deadline)),
        PushPhase::RaiseSleeping { deadline } => Some((2, deadline)),
        PushPhase::Probing { deadline, .. } => Some((3, deadline)),
        PushPhase::Climbing { deadline, .. } => Some((3, deadline)),
        PushPhase::Comparing { deadline } => Some((3, deadline)),
        PushPhase::ProbeSleeping { deadline, .. } => Some((3, deadline)),
        PushPhase::Closing { deadline } => Some((4, deadline)),
        PushPhase::CloseSleeping { deadline } => Some((4, deadline)),
        _ => None,
    }
}

/// How many answered events, at most, phase `p` of a polling loop whose
/// deadline has passed still takes to leave the loop.
pub open spec fn poll_steps_left(p: PushPhase) -> nat {
    match p {
        PushPhase::Frontmost(w) => wait_steps_left(w.stage),
        PushPhase::RaiseChecking { .. } => 2,
        PushPhase::RaiseSleeping { .. } => 1,
        PushPhase::Probing { .. } => 15,
        PushPhase::Climbing { depth, .. } => if depth < SHEET_SEARCH_DEPTH {
            (14 - depth) as nat
        } else {
            0
        },
        PushPhase::Comparing { .. } => 2,
        PushPhase::ProbeSleeping { .. } => 1,
        PushPhase::Closing { .. } => 2,
        PushPhase::CloseSleeping { .. } => 1,
        _ => 0,
    }
}

/// Whether, while the procedure stays in polling loop `lp`, each event of
/// `evs` answers the action it asked for and comes past the loop's
/// deadline.
pub open spec fn poll_answered_late(s: Push, evs: Seq<Event>, lp: (int, u64)) -> bool
    decreases evs.len(),
{
    evs.len() == 0 || poll_loop(s.phase) != Some(lp) || (answers(push_pending(s), evs[0].seen)
        && evs[0].now > lp.1 && poll_answered_late(push_next(s, evs[0]), evs.drop_first(), lp))
}

/// Whether the procedure, run over `evs`, leaves polling loop `lp` at some
/// point (or is not in it to begin with).
pub open spec fn poll_left(s: Push, evs: Seq<Event>, lp: (int, u64)) -> bool
    decreases evs.len(),
{
    poll_loop(s.phase) != Some(lp) || (evs.len() > 0 && poll_left(
        push_next(s, evs[0]),
        evs.drop_first(),
        lp,
    ))
}

/// In a polling loop whose deadline has passed, an answered event leaves the
/// loop or brings its end nearer.
pub proof fn lemma_poll_late_step(s: Push, e: Event, lp: (int, u64))
    requires
        well_formed(s),
        poll_loop(s.phase) == Some(lp),
        answers(push_pending(s), e.seen),
        e.now > lp.1,
    ensures
        poll_loop(push_next(s, e).phase) != Some(lp) || poll_steps_left(push_next(s, e).phase)
            < poll_steps_left(s.phase),
        well_formed(push_next(s, e)),
{
    lemma_well_formed_step(s, e);
    match s.phase {
        PushPhase::Frontmost(w) => {
            lemma_wait_late_step(w, e);
        },
        _ => {},
    }
}

/// Once the deadline of a polling loop has passed, the procedure leaves the
/// loop within a fixed number of answered events: three for the wait for
/// focus (then it goes on or fails), two for the wait for the raised
/// window, fifteen for the search of the Go-to-Folder field (one look at
/// the focus, at most twelve ancestors, one comparison, one pause; then it
/// writes or presses Escape), two for the wait for the sheet to close.
pub proof fn law_polling_ends_after_deadline(s: Push, evs: Seq<Event>, lp: (int, u64))
    requires
        well_formed(s),
        poll_answered_late(s, evs, lp),
        evs.len() >= poll_steps_left(s.phase),
    ensures
        poll_left(s, evs, lp),
    decreases evs.len(),
{
    if poll_loop(s.phase) == Some(lp) {
        lemma_poll_late_step(s, evs[0], lp);
        law_polling_ends_after_deadline(push_next(s, evs[0]), evs.drop_first(), lp);
    }
}

/// Whether the procedure is past the write of the path: reading it back,
/// confirming, or ended.
pub open spec fn past_write(p: PushPhase) -> bool {
    ||| p is VerifyPause
    ||| p is Verifying
    ||| after_verification(p)
    ||| p is Done
    ||| p is Failed
}

/// Once past the write, a run stays past it.
pub proof fn lemma_past_write_run(s: Push, evs: Seq<Event>)
    requires
        past_write(s.phase),
    ensures
        past_write(run(s, evs).phase),
    decreases evs.len(),
{
    if evs.len() > 0 {
        lemma_past_write_run(s, evs.drop_last());
    }
}

/// Whether each event of `evs` answers the action that the run had asked for
/// when the event came (or the run was over by then).
pub open spec fn run_answered(s: Push, evs: Seq<Event>) -> bool {
    forall|k: int|
        0 <= k < evs.len() ==> #[trigger] run(s, evs.take(k)).spec_is_over() || answers(
            push_pending(run(s, evs.take(k))),
            evs[k].seen,
        )
}

/// A run writes the path into a field at most once: when every action is
/// answered, no two steps of the run ask for the write. The write is also
/// the only attribute write that the dialog procedure asks for: it never
/// asks to move a window.
pub proof fn law_at_most_one_write(s: Push, evs: Seq<Event>, i: int, j: int)
    requires
        run_answered(s, evs),
        0 <= i < j <= evs.len(),
    ensures
        !(push_pending(run(s, evs.take(i))) is WriteField && push_pending(run(s, evs.take(j))) is WriteField),
        !(push_pending(run(s, evs.take(i))) is MoveWindow),
{
    if push_pending(run(s, evs.take(i))) is WriteField {
        let p = run(s, evs.take(i));
        assert(p.phase is Writing);
        assert(!p.spec_is_over());
        assert(answers(push_pending(p), evs[i].seen));
        lemma_run_prefix_step(s, evs, i);
        let q = run(s, evs.take(i + 1));
        assert(past_write(q.phase));
        let rest = evs.take(j).skip(i + 1);
        lemma_past_write_run(q, rest);
        lemma_run_split(s, evs.take(j), i + 1);
        assert(evs.take(j).take(i + 1) =~= evs.take(i + 1));
        assert(past_write(run(s, evs.take(j)).phase));
    }
}

/// The climb of ancestors run from phase `s` over `evs`, until it stops
/// climbing: the phase it ends in.
pub open spec fn climb_outcome(s: Push, evs: Seq<Event>) -> PushPhase
    decreases evs.len(),
{
    if s.phase is Climbing && evs.len() > 0 {
        climb_outcome(push_next(s, evs[0]), evs.drop_first())
    } else {
        s.phase
    }
}

/// The role at position `k` of `chain`, or `None` past its end.
pub open spec fn chain_at(chain: Seq<Seq<char>>, k: int) -> Option<Seq<char>> {
    if 0 <= k < chain.len() {
        Some(chain[k])
    } else {
        None
    }
}

/// Whether each event of `evs` reports, as the role of the next ancestor,
/// the role at the same position of `chain` (and no ancestor past its end).
pub open spec fn reports_chain(evs: Seq<Event>, chain: Seq<Seq<char>>) -> bool {
    forall|k: int|
        0 <= k < evs.len() ==> match #[trigger] evs[k].seen {
            Observation::ParentRole(role) => opt_text(role) == chain_at(chain, k),
            _ => false,
        }
}

proof fn lemma_climb_from(s: Push, evs: Seq<Event>, chain: Seq<Seq<char>>)
    requires
        s.phase is Climbing,
        s.phase->depth < SHEET_SEARCH_DEPTH,
        evs.len() + s.phase->depth >= SHEET_SEARCH_DEPTH,
        reports_chain(evs, chain),
    ensures
        (climb_outcome(s, evs) is Writing || climb_outcome(s, evs) is Comparing) == sheet_search(
            s.phase->depth as nat,
            chain,
        ),
        climb_outcome(s, evs) is Writing || climb_outcome(s, evs) is Comparing
            || climb_outcome(s, evs) is ProbeSleeping,
    decreases evs.len(),
{
    let d = s.phase->depth;
    let e = evs[0];
    assert(match e.seen {
        Observation::ParentRole(role) => opt_text(role) == chain_at(chain, 0),
        _ => false,
    });
    let next = push_next(s, e);
    if next.phase is Climbing {
        let rest = evs.drop_first();
        let tail = chain.drop_first();
        assert(chain.len() > 0);
        assert forall|k: int| 0 <= k < rest.len() implies match #[trigger] rest[k].seen {
            Observation::ParentRole(role) => opt_text(role) == chain_at(tail, k),
            _ => false,
        } by {
            assert(rest[k] == evs[k + 1]);
            assert(chain_at(tail, k) == chain_at(chain, k + 1));
        }
        lemma_climb_from(next, rest, tail);
    }
}

/// The climb of the ancestors of a focused text input decides as the search
/// for a sheet does: fed the roles of the chain of ancestors, one per step
/// (none past the chain's end), it reaches the write (no field remembered)
/// or the comparison with the remembered field exactly when the search finds
/// a sheet, and otherwise goes back to pausing before the next look at the
/// focus. The search finds one exactly when among the first twelve
/// ancestors a sheet comes before any window or application.
pub proof fn law_climb_decides_like_sheet_search(s: Push, evs: Seq<Event>, chain: Seq<Seq<char>>)
    requires
        s.phase is Climbing,
        s.phase->depth == 0,
        evs.len() >= SHEET_SEARCH_DEPTH,
        reports_chain(evs, chain),
    ensures
        (climb_outcome(s, evs) is Writing || climb_outcome(s, evs) is Comparing) == sheet_search(0, chain),
        sheet_search(0, chain) == sheet_before_boundary(chain),
        climb_outcome(s, evs) is Writing ==> !s.phase->Climbing_pre_field,
        climb_outcome(s, evs) is Comparing ==> s.phase->Climbing_pre_field,
        climb_outcome(s, evs) is Writing || climb_outcome(s, evs) is Comparing
            || climb_outcome(s, evs) is ProbeSleeping,
{
    lemma_climb_from(s, evs, chain);
    law_in_sheet_search(chain);
    lemma_climb_keeps_pre_field(s, evs);
}

proof fn lemma_climb_keeps_pre_field(s: Push, evs: Seq<Event>)
    requires
        s.phase is Climbing,
    ensures
        climb_outcome(s, evs) is Writing ==> !s.phase->Climbing_pre_field,
        climb_outcome(s, evs) is Comparing ==> s.phase->Climbing_pre_field,
    decreases evs.len(),
{
    if evs.len() > 0 {
        let next = push_next(s, evs[0]);
        if next.phase is Climbing {
            lemma_climb_keeps_pre_field(next, evs.drop_first());
        }
    }
}

/// Whether the search for the Go-to-Folder field remembers a field that was
/// focused before Cmd+Shift+G: `Some(true)` or `Some(false)` in the phases of
/// the search, `None` outside it.
pub open spec fn remembers_pre_field(p: PushPhase) -> Option<bool> {
    match p {
        PushPhase::OpeningSheet { pre_field } => Some(pre_field),
        PushPhase::Probing { pre_field, .. } => Some(pre_field),
        PushPhase::Climbing { pre_field, .. } => Some(pre_field),
        PushPhase::ProbeSleeping { pre_field, .. } => Some(pre_field),
        PushPhase::Comparing { .. } => Some(true),
        _ => None,
    }
}

/// A remembered field stays remembered for the whole search: from a phase
/// that remembers one, a step either stays in the search still remembering
/// it, or leaves the search to write (only right after the focused field was
/// found not to be the remembered one) or to give up with Escape.
pub proof fn law_pre_field_stays_remembered(s: Push, e: Event)
    requires
        remembers_pre_field(s.phase) == Some(true) || s.phase is PinningPreField,
    ensures
        remembers_pre_field(push_next(s, e).phase) == Some(true) || push_next(s, e).phase is PinningPreField
            || push_next(s, e).phase is Writing || push_next(s, e).phase is Abandoning,
        push_next(s, e).phase is Writing ==> s.phase is Comparing && e.seen
            == Observation::SameAsPreField(false),
        s.phase is PinningPreField ==> push_next(s, e).phase is PinningPreField || push_next(s, e).phase
            == (PushPhase::OpeningSheet { pre_field: true }),
{
}

/// The phases that a run can reach from remembering a field: the search
/// still remembering it, the write and what follows, or giving up.
pub open spec fn pinned_region(p: PushPhase) -> bool {
    ||| p is PinningPreField
    ||| remembers_pre_field(p) == Some(true)
    ||| p is Writing
    ||| past_write(p)
    ||| p is Abandoning
}

proof fn lemma_pinned_region_run(s: Push, evs: Seq<Event>)
    requires
        pinned_region(s.phase),
    ensures
        pinned_region(run(s, evs).phase),
    decreases evs.len(),
{
    if evs.len() > 0 {
        lemma_pinned_region_run(s, evs.drop_last());
    }
}

/// Once a field focused before Cmd+Shift+G was remembered, the path is
/// written only right after a look at the focus found a field that is not
/// the remembered one: for every step `j` that asks for the write after
/// step `i` that remembered the field, the run entered the write at some
/// step `m` between them on the report that the focused field differs from
/// the remembered one. A report that it is the remembered one never leads
/// to the write.
pub proof fn law_remembered_field_never_written(s: Push, evs: Seq<Event>, i: int, j: int)
    requires
        0 <= i < j <= evs.len(),
        phase_at(s, evs, i) is PinningPreField,
        phase_at(s, evs, j) is Writing,
    ensures
        exists|m: int|
            i < m < j && #[trigger] new_field_at(s, evs, m) && phase_at(s, evs, m + 1) is Writing,
    decreases j,
{
    let p = run(s, evs.take(j - 1));
    lemma_run_prefix_step(s, evs, j - 1);
    let sub = evs.take(j - 1);
    lemma_run_split(s, sub, i);
    assert(sub.take(i) =~= evs.take(i));
    lemma_pinned_region_run(run(s, evs.take(i)), sub.skip(i));
    assert(pinned_region(p.phase));
    if p.phase is Writing {
        law_remembered_field_never_written(s, evs, i, j - 1);
        let m = choose|m: int|
            i < m < j - 1 && #[trigger] new_field_at(s, evs, m) && phase_at(s, evs, m + 1) is Writing;
        assert(i < m < j);
    } else {
        assert(p.phase is Comparing);
        assert(new_field_at(s, evs, j - 1));
        assert(j - 1 != i);
    }
}

/// Nothing happens before the accessibility permission was granted: the
/// first action is the permission check, and a refusal ends the procedure.
pub proof fn law_permission_first(s: Push, e: Event)
    requires
        started(s),
    ensures
        push_pending(s) == Action::CheckTrust,
        e.seen == Observation::Trusted(false) ==> push_advance(s, e) == PushPhase::Failed(
            Failure::PermissionMissing,
        ),
        !(push_advance(s, e) is CheckingTrust) ==> e.seen is Trusted,
{
}

/// The dialog is driven only once the application owns keyboard focus.
pub proof fn law_proceed_only_when_frontmost(s: Push, e: Event)
    requires
        well_formed(s),
        s.phase is Frontmost,
        push_advance(s, e) == PushPhase::Settling,
    ensures
        e.seen == Observation::FocusedPid(s.pid),
{
}

/// An ended procedure stays as it ended.
pub proof fn law_end_is_final(s: Push, evs: Seq<Event>)
    requires
        s.spec_is_over(),
    ensures
        run(s, evs) == s,
    decreases evs.len(),
{
    if evs.len() > 0 {
        law_end_is_final(s, evs.drop_last());
    }
}

} // verus!
