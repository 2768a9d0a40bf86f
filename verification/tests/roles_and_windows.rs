use yazi_pick_ax::roles::{in_sheet, is_text_input, SheetStep};
use yazi_pick_ax::windows::{cg_window_count, find_title, WindowInfo, WindowSize};

fn some(s: &str) -> Option<String> {
    Some(s.to_string())
}

#[test]
fn text_inputs_are_fields_and_combo_boxes() {
    assert!(is_text_input("AXTextField"));
    assert!(is_text_input("AXComboBox"));
    assert!(!is_text_input("AXTextArea"));
    assert!(!is_text_input(""));
    assert!(!is_text_input("AXButton"));
}

#[test]
fn sheet_search_steps() {
    assert_eq!(in_sheet(0, &some("AXSheet")), SheetStep::Inside);
    assert_eq!(in_sheet(0, &some("AXWindow")), SheetStep::Outside);
    assert_eq!(in_sheet(3, &some("AXApplication")), SheetStep::Outside);
    assert_eq!(in_sheet(0, &None), SheetStep::Outside);
    assert_eq!(in_sheet(0, &some("AXGroup")), SheetStep::Climb);
    assert_eq!(in_sheet(10, &some("AXGroup")), SheetStep::Climb);
    assert_eq!(in_sheet(11, &some("AXGroup")), SheetStep::Outside);
    assert_eq!(in_sheet(11, &some("AXSheet")), SheetStep::Inside);
}

/// Runs the search over a chain of ancestor roles.
fn search(chain: &[&str]) -> bool {
    let mut depth = 0;
    loop {
        let role = chain.get(depth).map(|s| s.to_string());
        match in_sheet(depth, &role) {
            SheetStep::Inside => return true,
            SheetStep::Outside => return false,
            SheetStep::Climb => depth += 1,
        }
    }
}

#[test]
fn sheet_must_come_before_a_window_within_twelve_levels() {
    assert!(search(&["AXGroup", "AXScrollArea", "AXSheet", "AXWindow"]));
    assert!(!search(&["AXGroup", "AXWindow", "AXSheet"]));
    assert!(!search(&["AXGroup", "AXGroup"]));
    let mut deep = vec!["AXGroup"; 11];
    deep.push("AXSheet");
    assert!(search(&deep));
    let mut too_deep = vec!["AXGroup"; 12];
    too_deep.push("AXSheet");
    assert!(!search(&too_deep));
}

fn win(pid: i32, alpha: bool, size: Option<(i64, i64)>) -> WindowInfo {
    WindowInfo { owner_pid: pid, alpha_positive: alpha, size: size.map(|(width, height)| WindowSize { width, height }) }
}

#[test]
fn counts_visible_large_windows_of_the_pid() {
    let ws = vec![
        win(10, true, Some((800, 600))),
        win(10, true, Some((300, 150))),
        win(10, true, Some((299, 600))),
        win(10, true, Some((800, 149))),
        win(10, false, Some((800, 600))),
        win(10, true, None),
        win(11, true, Some((800, 600))),
    ];
    assert_eq!(cg_window_count(&ws, 10), 2);
    assert_eq!(cg_window_count(&ws, 11), 1);
    assert_eq!(cg_window_count(&ws, 12), 0);
    assert_eq!(cg_window_count(&vec![], 10), 0);
}

#[test]
fn finds_the_first_window_with_the_title() {
    let titles = vec!["Doc".to_string(), "Open".to_string(), "Open".to_string()];
    assert_eq!(find_title(&titles, "Open"), Some(1));
    assert_eq!(find_title(&titles, "Doc"), Some(0));
    assert_eq!(find_title(&titles, "Save"), None);
    assert_eq!(find_title(&vec![], "Open"), None);
}

#[test]
fn window_count_ignores_order_and_windows_that_do_not_count() {
    let ws = vec![win(10, true, Some((800, 600))), win(10, true, Some((400, 200))), win(11, true, Some((800, 600)))];
    let permuted = vec![ws[2], ws[1], ws[0]];
    let padded = vec![
        win(10, false, Some((800, 600))),
        ws[1],
        win(12, true, Some((900, 900))),
        win(10, true, Some((100, 900))),
        ws[0],
        win(10, true, None),
    ];
    assert_eq!(cg_window_count(&ws, 10), 2);
    assert_eq!(cg_window_count(&permuted, 10), 2);
    assert_eq!(cg_window_count(&padded, 10), 2);
}
