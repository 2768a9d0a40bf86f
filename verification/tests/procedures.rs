use yazi_pick_ax::center::center;
use yazi_pick_ax::frontmost::wait_frontmost;
use yazi_pick_ax::protocol::{chord, Action, Event, Failure, Observation, KEY_A, KEY_ESC, KEY_G, KEY_RETURN, KEY_V};
use yazi_pick_ax::push::{push, Push, PushPhase};
use yazi_pick_ax::windows::{WindowInfo, WindowSize};

const MS: u64 = 1_000_000;

fn ev(now: u64, seen: Observation) -> Event {
    Event { now, seen }
}

fn go() -> Action {
    Action::Press(chord(KEY_G, true, true))
}

fn ret() -> Action {
    Action::Press(chord(KEY_RETURN, false, false))
}

fn big(pid: i32) -> WindowInfo {
    WindowInfo { owner_pid: pid, alpha_positive: true, size: Some(WindowSize { width: 800, height: 600 }) }
}

/// Feeds the observations to a push, one per step, all at the given times;
/// returns every action asked for, the first one included.
fn run_push(p: Push, first: Action, obs: Vec<(u64, Observation)>) -> (Push, Vec<Action>) {
    let mut p = p;
    let mut actions = vec![first];
    for (now, seen) in obs {
        let (q, a) = p.step(ev(now, seen));
        p = q;
        actions.push(a);
    }
    (p, actions)
}

fn until_front(pid: i32) -> Vec<(u64, Observation)> {
    vec![
        (0, Observation::Trusted(true)),
        (1 * MS, Observation::Nothing),
        (2 * MS, Observation::FocusedPid(pid)),
        (152 * MS, Observation::Nothing),
    ]
}

#[test]
fn wait_frontmost_activates_then_finishes_on_focus() {
    let (w, a) = wait_frontmost(7, 1000);
    assert_eq!(a, Action::Activate);
    assert_eq!(w.deadline, 1000 + 5_000_000_000);
    let (w, a) = w.step(ev(1000, Observation::Nothing));
    assert_eq!(a, Action::ReadFocusedPid);
    let (w, a) = w.step(ev(2000, Observation::FocusedPid(3)));
    assert_eq!(a, Action::Sleep(20));
    // 20 ms later: the last activation is not 400 ms old, so only look again.
    let (w, a) = w.step(ev(20 * MS, Observation::Nothing));
    assert_eq!(a, Action::ReadFocusedPid);
    let (w, a) = w.step(ev(21 * MS, Observation::FocusedPid(3)));
    assert_eq!(a, Action::Sleep(20));
    // 401 ms after the activation: activate again.
    let (w, a) = w.step(ev(1000 + 401 * MS, Observation::Nothing));
    assert_eq!(a, Action::Activate);
    let (w, a) = w.step(ev(1000 + 402 * MS, Observation::Nothing));
    assert_eq!(a, Action::ReadFocusedPid);
    let (w, a) = w.step(ev(1000 + 403 * MS, Observation::FocusedPid(7)));
    assert_eq!(a, Action::Finish);
    assert!(w.is_over());
}

#[test]
fn wait_frontmost_gives_up_after_five_seconds() {
    let (w, _) = wait_frontmost(7, 0);
    let (w, _) = w.step(ev(0, Observation::Nothing));
    let (w, a) = w.step(ev(5_000_000_000, Observation::FocusedPid(1)));
    assert_eq!(a, Action::Sleep(20), "at the deadline itself the wait goes on");
    let (w, a) = w.step(ev(5_000_000_001, Observation::Nothing));
    assert_eq!(a, Action::Activate);
    let (w, _) = w.step(ev(5_000_000_002, Observation::Nothing));
    let (w, a) = w.step(ev(5_000_000_003, Observation::FocusedPid(1)));
    assert_eq!(a, Action::Fail(Failure::NotFrontmost));
    assert!(w.is_over());
    assert_eq!(Failure::NotFrontmost.message(), "target app did not come to front");
}

#[test]
fn wait_frontmost_asks_again_on_a_stray_observation() {
    let (w, _) = wait_frontmost(7, 0);
    let (w2, a) = w.step(ev(5, Observation::Trusted(true)));
    assert_eq!(a, Action::Activate);
    assert_eq!(w2, w);
}

#[test]
fn center_finds_measures_and_moves() {
    let (c, a) = center(0);
    assert_eq!(a, Action::ReadFocusedWindow);
    let (c, a) = c.step(ev(MS, Observation::FocusedWindow(false)));
    assert_eq!(a, Action::Sleep(20));
    let (c, a) = c.step(ev(21 * MS, Observation::Nothing));
    assert_eq!(a, Action::ReadFocusedWindow);
    let (c, a) = c.step(ev(22 * MS, Observation::FocusedWindow(true)));
    assert_eq!(a, Action::ReadWindowSize);
    let (c, a) = c.step(ev(23 * MS, Observation::SizeRead(true)));
    assert_eq!(a, Action::MoveWindow);
    let (_, a) = c.step(ev(24 * MS, Observation::Moved(true)));
    assert_eq!(a, Action::Finish);
}

#[test]
fn center_fails_for_each_missing_step() {
    let (c, _) = center(0);
    let (_, a) = c.step(ev(3_000_000_001, Observation::FocusedWindow(false)));
    assert_eq!(a, Action::Fail(Failure::NoWindowToCenter));
    let (c, _) = center(0);
    let (c, _) = c.step(ev(1, Observation::FocusedWindow(true)));
    let (_, a) = c.step(ev(2, Observation::SizeRead(false)));
    assert_eq!(a, Action::Fail(Failure::CannotReadSize));
    let (c, _) = center(0);
    let (c, _) = c.step(ev(1, Observation::FocusedWindow(true)));
    let (c, _) = c.step(ev(2, Observation::SizeRead(true)));
    let (_, a) = c.step(ev(3, Observation::Moved(false)));
    assert_eq!(a, Action::Fail(Failure::CannotMoveWindow));
    assert_eq!(Failure::CannotMoveWindow.message(), "cannot move window");
}

#[test]
fn push_refuses_without_permission() {
    let (p, a) = push(7, "/tmp/f".to_string(), None);
    assert_eq!(a, Action::CheckTrust);
    let (p, a) = p.step(ev(0, Observation::Trusted(false)));
    assert_eq!(a, Action::Fail(Failure::PermissionMissing));
    assert!(p.is_over());
    assert_eq!(Failure::PermissionMissing.message(), "accessibility permission missing for this process");
}

#[test]
fn push_through_the_go_to_folder_sheet() {
    let (p, a) = push(7, "/Users/me/写真.png".to_string(), Some("Open".to_string()));
    let mut obs = until_front(7);
    obs.extend(vec![
        // AX and window server agree: 1 window.
        (153 * MS, Observation::Windows { accessibility: 1, windows: vec![big(7), big(8)] }),
        (154 * MS, Observation::WindowTitles(Some(vec!["Doc".to_string(), "Open".to_string()]))),
        (155 * MS, Observation::Nothing),
        (156 * MS, Observation::FocusedWindowTitle(Some("Doc".to_string()))),
        (176 * MS, Observation::Nothing),
        (177 * MS, Observation::FocusedWindowTitle(Some("Open".to_string()))),
        // A save dialog: the file name field has focus.
        (178 * MS, Observation::Focused(Some("AXTextField".to_string()))),
        (179 * MS, Observation::Nothing),
        (180 * MS, Observation::Nothing),
        // Still the file name field: inside the window, not a sheet.
        (181 * MS, Observation::Focused(Some("AXTextField".to_string()))),
        (182 * MS, Observation::ParentRole(Some("AXWindow".to_string()))),
        (202 * MS, Observation::Nothing),
        // The sheet's field.
        (203 * MS, Observation::Focused(Some("AXTextField".to_string()))),
        (204 * MS, Observation::ParentRole(Some("AXGroup".to_string()))),
        (205 * MS, Observation::ParentRole(Some("AXSheet".to_string()))),
        (206 * MS, Observation::SameAsPreField(false)),
        (207 * MS, Observation::Written(true)),
        (267 * MS, Observation::Nothing),
        (268 * MS, Observation::FieldValue("/Users/me/写真.png".to_string())),
        (269 * MS, Observation::Nothing),
        (270 * MS, Observation::Focused(Some("AXTextField".to_string()))),
        (290 * MS, Observation::Nothing),
        (291 * MS, Observation::Focused(Some("AXOutline".to_string()))),
        (441 * MS, Observation::Nothing),
        (442 * MS, Observation::Nothing),
    ]);
    let (p, actions) = run_push(p, a, obs);
    let expected = vec![
        Action::CheckTrust,
        Action::Activate,
        Action::ReadFocusedPid,
        Action::Sleep(150),
        Action::ReadWindows,
        Action::ListWindowTitles,
        Action::Raise(1),
        Action::ReadFocusedWindowTitle,
        Action::Sleep(20),
        Action::ReadFocusedWindowTitle,
        Action::ReadFocused,
        Action::PinPreField,
        go(),
        Action::ReadFocused,
        Action::ReadParentRole,
        Action::Sleep(20),
        Action::ReadFocused,
        Action::ReadParentRole,
        Action::ReadParentRole,
        Action::CompareWithPreField,
        Action::WriteField("/Users/me/写真.png".to_string()),
        Action::Sleep(60),
        Action::ReadField,
        ret(),
        Action::ReadFocused,
        Action::Sleep(20),
        Action::ReadFocused,
        Action::Sleep(150),
        ret(),
        Action::Finish,
    ];
    assert_eq!(actions, expected);
    assert_eq!(p.phase, PushPhase::Done);
}

#[test]
fn push_without_a_title_skips_the_raise() {
    let (p, a) = push(7, "/p".to_string(), Some(String::new()));
    let mut obs = until_front(7);
    obs.push((153 * MS, Observation::Windows { accessibility: 1, windows: vec![big(7)] }));
    obs.push((154 * MS, Observation::Focused(None)));
    let (_, actions) = run_push(p, a, obs);
    assert_eq!(actions[actions.len() - 1], go());
    assert_eq!(actions[actions.len() - 2], Action::ReadFocused);
}

#[test]
fn push_gives_up_without_a_sheet_and_types_nothing() {
    let (p, a) = push(7, "/p".to_string(), None);
    let mut obs = until_front(7);
    obs.push((153 * MS, Observation::Windows { accessibility: 1, windows: vec![big(7)] }));
    obs.push((154 * MS, Observation::Focused(None)));
    obs.push((155 * MS, Observation::Nothing)); // after Cmd+Shift+G: deadline 2.655 s
    obs.push((156 * MS, Observation::Focused(Some("AXButton".to_string()))));
    obs.push((2_654 * MS, Observation::Nothing));
    obs.push((2_655 * MS, Observation::Focused(Some("AXTextField".to_string()))));
    obs.push((2_656 * MS, Observation::ParentRole(Some("AXWindow".to_string()))));
    obs.push((2_676 * MS, Observation::Nothing)); // past the deadline
    obs.push((2_677 * MS, Observation::Nothing)); // after Escape
    let (p, actions) = run_push(p, a, obs);
    let n = actions.len();
    assert_eq!(actions[n - 3], Action::Sleep(20));
    assert_eq!(actions[n - 2], Action::Press(chord(KEY_ESC, false, false)));
    assert_eq!(actions[n - 1], Action::Fail(Failure::NoGoToFolderSheet));
    assert!(p.is_over());
    for a in &actions {
        assert!(!matches!(a, Action::WriteField(_) | Action::SetPasteboard(_)));
        assert_ne!(*a, ret());
    }
}

#[test]
fn push_stops_when_the_field_refuses_or_changes_the_path() {
    let prefix = |p: Push| {
        let mut obs = until_front(7);
        obs.push((153 * MS, Observation::Windows { accessibility: 2, windows: vec![big(7), big(7)] }));
        obs.push((154 * MS, Observation::Focused(None)));
        obs.push((155 * MS, Observation::Nothing));
        obs.push((156 * MS, Observation::Focused(Some("AXComboBox".to_string()))));
        obs.push((157 * MS, Observation::ParentRole(Some("AXSheet".to_string()))));
        (p, obs)
    };
    let (p, a) = push(7, "/p".to_string(), None);
    let (p, mut obs) = prefix(p);
    obs.push((158 * MS, Observation::Written(false)));
    let (_, actions) = run_push(p, a, obs);
    assert_eq!(actions[actions.len() - 2], Action::WriteField("/p".to_string()));
    assert_eq!(actions[actions.len() - 1], Action::Fail(Failure::WriteFailed));

    let (p, a) = push(7, "/p".to_string(), None);
    let (p, mut obs) = prefix(p);
    obs.push((158 * MS, Observation::Written(true)));
    obs.push((218 * MS, Observation::Nothing));
    obs.push((219 * MS, Observation::FieldValue("/p/p".to_string())));
    let (_, actions) = run_push(p, a, obs);
    assert_eq!(actions[actions.len() - 1], Action::Fail(Failure::VerifyFailed));
    assert!(!actions.contains(&ret()));
}

#[test]
fn push_types_blindly_into_an_invisible_dialog_and_restores_the_pasteboard() {
    let (p, a) = push(7, "/p".to_string(), Some("Open".to_string()));
    let mut obs = until_front(7);
    obs.push((153 * MS, Observation::Windows { accessibility: 1, windows: vec![big(7), big(7)] }));
    obs.push((154 * MS, Observation::Nothing));
    obs.push((155 * MS, Observation::Pasteboard(Some("old".to_string()))));
    for k in 0..12 {
        obs.push((156 * MS + k, Observation::Nothing));
    }
    let (p, actions) = run_push(p, a, obs);
    let mut actions = actions;
    let tail: Vec<Action> = actions.split_off(4);
    assert_eq!(
        tail,
        vec![
            Action::ReadWindows,
            Action::ReportBlindInput { window_server: 2, accessibility: 1 },
            Action::ReadPasteboard,
            Action::SetPasteboard("/p".to_string()),
            go(),
            Action::Sleep(500),
            Action::Press(chord(KEY_A, true, false)),
            Action::Sleep(100),
            Action::Press(chord(KEY_V, true, false)),
            Action::Sleep(300),
            ret(),
            Action::Sleep(600),
            ret(),
            Action::Sleep(200),
            Action::SetPasteboard("old".to_string()),
            Action::Finish,
        ]
    );
    assert_eq!(p.phase, PushPhase::Done);
}

#[test]
fn push_blind_with_an_empty_pasteboard_leaves_it_holding_the_path() {
    let (p, a) = push(7, "/p".to_string(), None);
    let mut obs = until_front(7);
    obs.push((153 * MS, Observation::Windows { accessibility: 0, windows: vec![big(7)] }));
    obs.push((154 * MS, Observation::Nothing));
    obs.push((155 * MS, Observation::Pasteboard(None)));
    for k in 0..11 {
        obs.push((156 * MS + k, Observation::Nothing));
    }
    let (p, actions) = run_push(p, a, obs);
    assert_eq!(actions[actions.len() - 2], Action::Sleep(200));
    assert_eq!(actions[actions.len() - 1], Action::Finish);
    assert!(p.is_over());
}

#[test]
fn push_fails_when_the_app_never_comes_to_front() {
    let (p, a) = push(7, "/p".to_string(), None);
    let obs = vec![
        (0, Observation::Trusted(true)),
        (1, Observation::Nothing),
        (5_000_000_001, Observation::FocusedPid(3)),
    ];
    let (p, actions) = run_push(p, a, obs);
    assert_eq!(actions[actions.len() - 1], Action::Fail(Failure::NotFrontmost));
    assert!(p.is_over());
}

/// The observations of a delivery through the Go-to-Folder sheet whose
/// read-back echoes `path`.
fn sheet_run(path: &str) -> Vec<(u64, Observation)> {
    let mut obs = until_front(7);
    obs.extend(vec![
        (153 * MS, Observation::Windows { accessibility: 1, windows: vec![big(7)] }),
        (154 * MS, Observation::Focused(None)),
        (155 * MS, Observation::Nothing),
        (156 * MS, Observation::Focused(Some("AXTextField".to_string()))),
        (157 * MS, Observation::ParentRole(Some("AXSheet".to_string()))),
        (158 * MS, Observation::Written(true)),
        (218 * MS, Observation::Nothing),
        (219 * MS, Observation::FieldValue(path.to_string())),
        (220 * MS, Observation::Nothing),
        (221 * MS, Observation::Focused(None)),
        (371 * MS, Observation::Nothing),
        (372 * MS, Observation::Nothing),
    ]);
    obs
}

#[test]
fn the_path_only_reaches_the_field_write() {
    let p1 = "/tmp/a";
    let p2 = "/Users/太郎/書類.txt";
    let (s1, a1) = push(7, p1.to_string(), None);
    let (s2, a2) = push(7, p2.to_string(), None);
    let (_, actions1) = run_push(s1, a1, sheet_run(p1));
    let (_, actions2) = run_push(s2, a2, sheet_run(p2));
    assert_eq!(actions1.len(), actions2.len());
    let mut writes = 0;
    for (x, y) in actions1.iter().zip(actions2.iter()) {
        match (x, y) {
            (Action::WriteField(v1), Action::WriteField(v2)) => {
                assert_eq!(v1, p1);
                assert_eq!(v2, p2);
                writes += 1;
            }
            _ => assert_eq!(x, y),
        }
    }
    assert_eq!(writes, 1);
    let presses: Vec<&Action> = actions1.iter().filter(|a| matches!(a, Action::Press(_))).collect();
    assert_eq!(presses, vec![&go(), &ret(), &ret()]);
    assert_eq!(actions1[actions1.len() - 1], Action::Finish);
}

#[test]
fn a_late_wait_ends_within_three_answers() {
    let (w, _) = wait_frontmost(7, 0);
    let late = 5_000_000_001;
    let (w, a) = w.step(ev(late, Observation::Nothing));
    assert_eq!(a, Action::ReadFocusedPid);
    let (w, a) = w.step(ev(late, Observation::FocusedPid(1)));
    assert_eq!(a, Action::Fail(Failure::NotFrontmost));
    assert!(w.is_over());
}

#[test]
fn a_late_sheet_close_wait_goes_on_to_confirm() {
    let p = Push { pid: 7, path: "/p".to_string(), dialog_title: None, phase: PushPhase::Closing { deadline: 10 } };
    let (p, a) = p.step(ev(11, Observation::Focused(Some("AXTextField".to_string()))));
    assert_eq!(a, Action::Sleep(20));
    let (p, a) = p.step(ev(12, Observation::Nothing));
    assert_eq!(a, Action::Sleep(150));
    assert_eq!(p.phase, PushPhase::ConfirmPause);
}

/// Runs the climb from a focused text input over `chain`, one ancestor per
/// step and none past its end; returns the phase the climb ends in.
fn climb(chain: &[&str], pre_field: bool) -> PushPhase {
    let mut p = Push {
        pid: 7,
        path: "/p".to_string(),
        dialog_title: None,
        phase: PushPhase::Climbing { pre_field, deadline: 100, depth: 0 },
    };
    let mut k = 0;
    while matches!(p.phase, PushPhase::Climbing { .. }) {
        let role = chain.get(k).map(|s| s.to_string());
        p = p.step(ev(1, Observation::ParentRole(role))).0;
        k += 1;
    }
    p.phase
}

#[test]
fn the_climb_decides_as_the_sheet_search() {
    assert_eq!(climb(&["AXGroup", "AXSheet", "AXWindow"], false), PushPhase::Writing);
    assert_eq!(climb(&["AXGroup", "AXSheet"], true), PushPhase::Comparing { deadline: 100 });
    assert_eq!(
        climb(&["AXGroup", "AXWindow", "AXSheet"], false),
        PushPhase::ProbeSleeping { pre_field: false, deadline: 100 }
    );
    assert_eq!(climb(&[], true), PushPhase::ProbeSleeping { pre_field: true, deadline: 100 });
    let mut deep = vec!["AXGroup"; 12];
    deep.push("AXSheet");
    assert_eq!(climb(&deep, false), PushPhase::ProbeSleeping { pre_field: false, deadline: 100 });
}

#[test]
fn a_run_writes_once_and_activations_are_spaced() {
    let (s, a) = push(7, "/p".to_string(), None);
    let (_, actions) = run_push(s, a, sheet_run("/p"));
    assert_eq!(actions.iter().filter(|a| matches!(a, Action::WriteField(_))).count(), 1);
    assert!(!actions.contains(&Action::MoveWindow));

    let (mut w, mut a) = wait_frontmost(7, 0);
    let mut activations = vec![];
    let mut now = 0;
    for _ in 0..200 {
        let seen = match a {
            Action::ReadFocusedPid => Observation::FocusedPid(3),
            _ => Observation::Nothing,
        };
        now += 7 * MS;
        let (w2, a2) = w.step(ev(now, seen));
        if a == Action::Activate {
            activations.push(now);
        }
        w = w2;
        a = a2;
    }
    assert!(activations.len() > 2);
    for pair in activations.windows(2) {
        assert!(pair[1] - pair[0] >= 400 * MS);
    }
}
