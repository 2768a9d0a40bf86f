use yazi_pick_ax::cli::{parse_command, CliError, Command};
use yazi_pick_ax::text::{parse_i32, text_eq};

fn args(xs: &[&str]) -> Vec<String> {
    xs.iter().map(|s| s.to_string()).collect()
}

#[test]
fn parse_i32_accepts_decimal_numbers() {
    assert_eq!(parse_i32("42"), Some(42));
    assert_eq!(parse_i32("-42"), Some(-42));
    assert_eq!(parse_i32("+7"), Some(7));
    assert_eq!(parse_i32("0"), Some(0));
    assert_eq!(parse_i32("007"), Some(7));
    assert_eq!(parse_i32("2147483647"), Some(i32::MAX));
    assert_eq!(parse_i32("-2147483648"), Some(i32::MIN));
}

#[test]
fn parse_i32_refuses_what_std_refuses() {
    for bad in ["", "-", "+", " 1", "1 ", "1a", "0x10", "2147483648", "-2147483649", "99999999999999999999", "--1", "+-1"] {
        assert_eq!(parse_i32(bad), None, "{bad:?}");
        assert_eq!(parse_i32(bad), bad.parse::<i32>().ok(), "{bad:?}");
    }
    for good in ["123", "-0", "+0", "65535", "-17"] {
        assert_eq!(parse_i32(good), good.parse::<i32>().ok(), "{good:?}");
    }
}

#[test]
fn text_eq_compares_contents() {
    assert!(text_eq("AXSheet", "AXSheet"));
    assert!(!text_eq("AXSheet", "AXSheets"));
    assert!(!text_eq("", "a"));
    assert!(text_eq("パス", "パス"));
}

#[test]
fn frontmost_takes_any_further_arguments() {
    assert_eq!(parse_command(&args(&["ax", "frontmost"])), Ok(Command::Frontmost));
    assert_eq!(parse_command(&args(&["ax", "frontmost", "x", "y"])), Ok(Command::Frontmost));
}

#[test]
fn activate_and_center_take_exactly_a_pid() {
    assert_eq!(parse_command(&args(&["ax", "activate", "123"])), Ok(Command::Activate(123)));
    assert_eq!(parse_command(&args(&["ax", "center", "9"])), Ok(Command::Center(9)));
    assert_eq!(parse_command(&args(&["ax", "activate"])), Err(CliError::Usage));
    assert_eq!(parse_command(&args(&["ax", "center", "9", "x"])), Err(CliError::Usage));
    assert_eq!(parse_command(&args(&["ax", "activate", "abc"])), Err(CliError::InvalidPid));
}

#[test]
fn push_takes_pid_path_and_maybe_title() {
    assert_eq!(
        parse_command(&args(&["ax", "push", "55", "/tmp/a b"])),
        Ok(Command::Push { pid: 55, path: "/tmp/a b".to_string(), dialog_title: None })
    );
    assert_eq!(
        parse_command(&args(&["ax", "push", "55", "/tmp/x", "Open"])),
        Ok(Command::Push { pid: 55, path: "/tmp/x".to_string(), dialog_title: Some("Open".to_string()) })
    );
    assert_eq!(parse_command(&args(&["ax", "push", "55"])), Err(CliError::Usage));
    assert_eq!(parse_command(&args(&["ax", "push", "x", "/p"])), Err(CliError::InvalidPid));
}

#[test]
fn anything_else_is_a_usage_error() {
    assert_eq!(parse_command(&args(&["ax"])), Err(CliError::Usage));
    assert_eq!(parse_command(&args(&[])), Err(CliError::Usage));
    assert_eq!(parse_command(&args(&["ax", "Frontmost"])), Err(CliError::Usage));
    assert_eq!(CliError::Usage.exit_code(), 2);
    assert_eq!(CliError::InvalidPid.exit_code(), 1);
    assert_eq!(CliError::InvalidPid.message(), "invalid pid");
    assert!(CliError::Usage.message().starts_with("usage: yazi-pick-ax frontmost"));
}
