//! The command line: `frontmost`, `activate <pid>`, `center <pid>`,
//! `push <pid> <path> [dialog-title]`.
use vstd::prelude::*;

use crate::text::{decimal_i32, i32_text, law_decimal_i32_round_trip, parse_i32, text_eq};

verus! {

/// What the command line asks for.
#[derive(Debug, PartialEq, Eq)]
pub enum Command {
    /// Print the frontmost application's pid, name and focused window title.
    Frontmost,
    /// Bring application `pid` to the front.
    Activate(i32),
    /// Center the focused window of application `pid`.
    Center(i32),
    /// Type `path` into the file dialog of application `pid`.
    Push { pid: i32, path: String, dialog_title: Option<String> },
}

/// A command line's meaning, over the text of its arguments.
pub enum CommandView {
    Frontmost,
    Activate(i32),
    Center(i32),
    Push { pid: i32, path: Seq<char>, dialog_title: Option<Seq<char>> },
}

impl View for Command {
    type V = CommandView;

    open spec fn view(&self) -> CommandView {
        match self {
            Command::Frontmost => CommandView::Frontmost,
            Command::Activate(pid) => CommandView::Activate(*pid),
            Command::Center(pid) => CommandView::Center(*pid),
            Command::Push { pid, path, dialog_title } => CommandView::Push {
                pid: *pid,
                path: path@,
                dialog_title: match dialog_title {
                    Some(t) => Some(t@),
                    None => None,
                },
            },
        }
    }
}

/// Why a command line was refused.
#[derive(Clone, Copy, Debug, PartialEq, Eq, Structural)]
pub enum CliError {
    /// The arguments fit no command.
    Usage,
    /// The pid is not a decimal `i32`.
    InvalidPid,
}

impl CliError {
    /// The message that reports this error.
    pub fn message(&self) -> (m: &'static str)
        ensures
            m@ == cli_error_message(*self),
    {
        match self {
            CliError::Usage => "usage: yazi-pick-ax frontmost | activate <pid> | center <pid> | push <pid> <path> [dialog-title]",
            CliError::InvalidPid => "invalid pid",
        }
    }

    /// The exit status that goes with this error.
    pub fn exit_code(&self) -> (c: i32)
        ensures
            c == (if *self == CliError::Usage { 2i32 } else { 1i32 }),
    {
        match self {
            CliError::Usage => 2,
            CliError::InvalidPid => 1,
        }
    }
}

/// The text of the message that reports `e`.
pub open spec fn cli_error_message(e: CliError) -> Seq<char> {
    match e {
        CliError::Usage => "usage: yazi-pick-ax frontmost | activate <pid> | center <pid> | push <pid> <path> [dialog-title]"@,
        CliError::InvalidPid => "invalid pid"@,
    }
}

/// The pid in `arg`, or `InvalidPid`.
pub open spec fn pid_of(arg: Seq<char>) -> Result<i32, CliError> {
    match decimal_i32(arg) {
        Some(p) => Ok(p),
        None => Err(CliError::InvalidPid),
    }
}

/// The meaning of the command line `args` (`args[0]` is the program).
/// `frontmost` takes any further arguments; `activate` and `center` take
/// exactly a pid; `push` takes a pid, a path and maybe a dialog title.
pub open spec fn command_of(args: Seq<Seq<char>>) -> Result<CommandView, CliError> {
    if args.len() < 2 {
        Err(CliError::Usage)
    } else if args[1] == "frontmost"@ {
        Ok(CommandView::Frontmost)
    } else if args[1] == "activate"@ && args.len() == 3 {
        match pid_of(args[2]) {
            Ok(pid) => Ok(CommandView::Activate(pid)),
            Err(e) => Err(e),
        }
    } else if args[1] == "center"@ && args.len() == 3 {
        match pid_of(args[2]) {
            Ok(pid) => Ok(CommandView::Center(pid)),
            Err(e) => Err(e),
        }
    } else if args[1] == "push"@ && (args.len() == 4 || args.len() == 5) {
        match pid_of(args[2]) {
            Ok(pid) => Ok(
                CommandView::Push {
                    pid,
                    path: args[3],
                    dialog_title: if args.len() == 5 { Some(args[4]) } else { None },
                },
            ),
            Err(e) => Err(e),
        }
    } else {
        Err(CliError::Usage)
    }
}

/// A pid argument is accepted exactly when it is a decimal `i32`, whatever
/// its value: every `i32` written in decimal is accepted as itself, and an
/// argument is refused only when it spells no `i32`.
pub proof fn law_pid_accepts_every_i32(v: i32, arg: Seq<char>)
    ensures
        pid_of(i32_text(v)) == Ok::<i32, CliError>(v),
        pid_of(arg) is Err <==> decimal_i32(arg) is None,
        pid_of(arg) is Err ==> pid_of(arg) == Err::<i32, CliError>(CliError::InvalidPid),
{
    law_decimal_i32_round_trip(v);
}

/// `activate` and `center` take any `i32` pid written in decimal, and
/// `push` takes it with any path and dialog title.
pub proof fn law_commands_take_every_pid(
    prog: Seq<char>,
    v: i32,
    path: Seq<char>,
    title: Seq<char>,
)
    ensures
        command_of(seq![prog, "activate"@, i32_text(v)]) == Ok::<CommandView, CliError>(
            CommandView::Activate(v),
        ),
        command_of(seq![prog, "center"@, i32_text(v)]) == Ok::<CommandView, CliError>(
            CommandView::Center(v),
        ),
        command_of(seq![prog, "push"@, i32_text(v), path]) == Ok::<CommandView, CliError>(
            CommandView::Push { pid: v, path, dialog_title: None },
        ),
        command_of(seq![prog, "push"@, i32_text(v), path, title]) == Ok::<CommandView, CliError>(
            CommandView::Push { pid: v, path, dialog_title: Some(title) },
        ),
{
    law_decimal_i32_round_trip(v);
    reveal_strlit("frontmost");
    reveal_strlit("activate");
    reveal_strlit("center");
    reveal_strlit("push");
    assert("activate"@.len() != "frontmost"@.len());
    assert("center"@.len() != "frontmost"@.len());
    assert("center"@.len() != "activate"@.len());
    let a = seq![prog, "activate"@, i32_text(v)];
    assert(a[1] == "activate"@ && a[2] == i32_text(v) && a.len() == 3);
    assert(pid_of(a[2]) == Ok::<i32, CliError>(v));
    let c = seq![prog, "center"@, i32_text(v)];
    assert(c[1] == "center"@ && c[2] == i32_text(v) && c.len() == 3);
    assert(c[1] != "frontmost"@ && c[1] != "activate"@);
    assert(pid_of(c[2]) == Ok::<i32, CliError>(v));
}

/// The text of each argument.
pub open spec fn args_text(args: Seq<String>) -> Seq<Seq<char>> {
    args.map_values(|a: String| a@)
}

/// Reads the pid argument.
fn read_pid(arg: &String) -> (r: Result<i32, CliError>)
    ensures
        r == pid_of(arg@),
{
    match parse_i32(arg.as_str()) {
        Some(p) => Ok(p),
        None => Err(CliError::InvalidPid),
    }
}

/// What the command line `args` asks for (`args[0]` is the program).
pub fn parse_command(args: &Vec<String>) -> (r: Result<Command, CliError>)
    ensures
        match r {
            Ok(c) => command_of(args_text(args@)) == Ok::<CommandView, CliError>(c@),
            Err(e) => command_of(args_text(args@)) == Err::<CommandView, CliError>(e),
        },
{
    let ghost a = args_text(args@);
    let n = args.len();
    if n < 2 {
        return Err(CliError::Usage);
    }
    assert(a[1] == args@[1]@);
    let sub = args[1].as_str();
    if text_eq(sub, "frontmost") {
        return Ok(Command::Frontmost);
    }
    if text_eq(sub, "activate") && n == 3 {
        assert(a[2] == args@[2]@);
        return match read_pid(&args[2]) {
            Ok(pid) => Ok(Command::Activate(pid)),
            Err(e) => Err(e),
        };
    }
    if text_eq(sub, "center") && n == 3 {
        assert(a[2] == args@[2]@);
        return match read_pid(&args[2]) {
            Ok(pid) => Ok(Command::Center(pid)),
            Err(e) => Err(e),
        };
    }
    if text_eq(sub, "push") && (n == 4 || n == 5) {
        assert(a[2] == args@[2]@);
        assert(a[3] == args@[3]@);
        return match read_pid(&args[2]) {
            Ok(pid) => {
                let dialog_title = if n == 5 {
                    assert(a[4] == args@[4]@);
                    Some(args[4].clone())
                } else {
                    None
                };
                Ok(Command::Push { pid, path: args[3].clone(), dialog_title })
            },
            Err(e) => Err(e),
        };
    }
    Err(CliError::Usage)
}

} // verus!
