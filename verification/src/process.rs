//! The external action runner: which operating system commands the bridge
//! runs, and what it makes of the way they end.

use vstd::prelude::*;
use vstd::string::StringExecFns;
use crate::error::{Error, ErrorKind, ErrorView};
use crate::text::{joined, push_joined, push_signed_decimal, signed_decimal, views};

verus! {

/// Bound of the run of one external command, in seconds.
pub const CMD_TIMEOUT_SECS: u64 = 5;

/// An external command: the program, its arguments, and the exit codes
/// besides zero that count as success.
#[derive(Clone, Debug, PartialEq, Eq)]
pub struct ExternalCommand {
    pub program: String,
    pub args: Vec<String>,
    pub exit_ok: Vec<i32>,
}

/// An external command as contracts speak of it.
pub struct ExternalCommandView {
    pub program: Seq<char>,
    pub args: Seq<Seq<char>>,
    pub exit_ok: Seq<i32>,
}

impl View for ExternalCommand {
    type V = ExternalCommandView;

    open spec fn view(&self) -> ExternalCommandView {
        ExternalCommandView {
            program: self.program@,
            args: views(self.args@),
            exit_ok: self.exit_ok@,
        }
    }
}

/// How the run of an external command ended.
#[derive(Clone, Debug, PartialEq, Eq)]
pub enum ProcessOutcome {
    /// The process ended with this exit code and wrote these lines to its
    /// error output.
    Exited { code: i32, err: Vec<String> },
    /// The process was still running when its bound passed.
    TimedOut,
    /// The process could not be started or watched.
    Failed { detail: String },
}

/// The command that switches a monitor on or off.
pub open spec fn display_command(monitor: Seq<char>, on: bool) -> ExternalCommandView {
    ExternalCommandView {
        program: "xrandr"@,
        args: seq![
            "--output"@,
            monitor,
            if on {
                "--auto"@
            } else {
                "--off"@
            },
        ],
        exit_ok: if on {
            Seq::empty()
        } else {
            seq![1i32]
        },
    }
}

/// The command that switches a monitor on or off. Switching off may end with
/// exit code 1, which counts as success.
pub fn set_display(monitor: &str, on: bool) -> (command: ExternalCommand)
    ensures
        command@ == display_command(monitor@, on),
{
    let mut args: Vec<String> = Vec::new();
    args.push(String::from_str("--output"));
    args.push(String::from_str(monitor));
    let mut exit_ok: Vec<i32> = Vec::new();
    if on {
        args.push(String::from_str("--auto"));
    } else {
        args.push(String::from_str("--off"));
        exit_ok.push(1);
    }
    let command = ExternalCommand { program: String::from_str("xrandr"), args, exit_ok };
    assert(command@.args =~= display_command(monitor@, on).args);
    command
}

/// The command that sets the brightness of the backlight to a level written
/// as a number.
pub open spec fn backlight_command(level: Seq<char>) -> ExternalCommandView {
    ExternalCommandView {
        program: "xbacklight"@,
        args: seq!["-set"@, level],
        exit_ok: Seq::empty(),
    }
}

/// The command that sets the brightness of the backlight to a level written
/// as a number.
pub fn brightness_command(level: &str) -> (command: ExternalCommand)
    ensures
        command@ == backlight_command(level@),
{
    let mut args: Vec<String> = Vec::new();
    args.push(String::from_str("-set"));
    args.push(String::from_str(level));
    let command = ExternalCommand {
        program: String::from_str("xbacklight"),
        args,
        exit_ok: Vec::new(),
    };
    assert(command@.args =~= backlight_command(level@).args);
    command
}

/// The command that hands a command line to the shell.
pub open spec fn shell_command(line: Seq<char>) -> ExternalCommandView {
    ExternalCommandView { program: "sh"@, args: seq!["-c"@, line], exit_ok: Seq::empty() }
}

/// The command that reboots the host: the configured command line, handed
/// to the shell.
pub fn reboot_command(line: &str) -> (command: ExternalCommand)
    ensures
        command@ == shell_command(line@),
{
    let mut args: Vec<String> = Vec::new();
    args.push(String::from_str("-c"));
    args.push(String::from_str(line));
    let command = ExternalCommand { program: String::from_str("sh"), args, exit_ok: Vec::new() };
    assert(command@.args =~= shell_command(line@).args);
    command
}

/// Whether an exit code counts as success: it is zero or one of `exit_ok`.
pub open spec fn exit_accepted(code: i32, exit_ok: Seq<i32>) -> bool {
    code == 0 || exit_ok.contains(code)
}

/// The detail of the error for an exit code that is not acceptable: the code,
/// then the lines of the error output, each on a line of its own.
pub open spec fn exit_detail(code: i32, err: Seq<Seq<char>>) -> Seq<char> {
    "process exit code "@ + signed_decimal(code as int) + "\n"@ + joined(err, "\n"@)
}

/// What the runner reports for the way a command ended.
pub open spec fn run_result(outcome: ProcessOutcome, exit_ok: Seq<i32>) -> Result<(), ErrorView> {
    match outcome {
        ProcessOutcome::Exited { code, err } => if exit_accepted(code, exit_ok) {
            Ok(())
        } else {
            Err(
                ErrorView {
                    kind: ErrorKind::ExternalCommandFailed,
                    message: exit_detail(code, views(err@)),
                },
            )
        },
        ProcessOutcome::TimedOut => Err(
            ErrorView { kind: ErrorKind::Timeout, message: Seq::empty() },
        ),
        ProcessOutcome::Failed { detail } => Err(
            ErrorView { kind: ErrorKind::ExternalCommandFailed, message: detail@ },
        ),
    }
}

/// A result with its error as contracts speak of it.
pub open spec fn unit_result_view(result: Result<(), Error>) -> Result<(), ErrorView> {
    match result {
        Ok(()) => Ok(()),
        Err(e) => Err(e@),
    }
}

fn code_accepted(code: i32, exit_ok: &[i32]) -> (accepted: bool)
    ensures
        accepted == exit_accepted(code, exit_ok@),
{
    if code == 0 {
        return true;
    }
    let mut i: usize = 0;
    while i < exit_ok.len()
        invariant
            i <= exit_ok.len(),
            forall|j: int| 0 <= j < i ==> exit_ok@[j] != code,
        decreases exit_ok.len() - i,
    {
        if exit_ok[i] == code {
            return true;
        }
        i = i + 1;
    }
    false
}

/// Judges the way a command ended: success where it exited with zero or with
/// one of the codes in `exit_ok`; a timeout where its bound passed; otherwise
/// a failure that carries the exit code and the error output.
pub fn system_cmd_x(outcome: &ProcessOutcome, exit_ok: &[i32]) -> (result: Result<(), Error>)
    ensures
        unit_result_view(result) == run_result(*outcome, exit_ok@),
{
    match outcome {
        ProcessOutcome::Exited { code, err } => {
            if code_accepted(*code, exit_ok) {
                Ok(())
            } else {
                let mut message = String::from_str("process exit code ");
                push_signed_decimal(&mut message, *code);
                message.append("\n");
                push_joined(&mut message, err, "\n");
                Err(Error { kind: ErrorKind::ExternalCommandFailed, message })
            }
        },
        ProcessOutcome::TimedOut => Err(Error::bare(ErrorKind::Timeout)),
        ProcessOutcome::Failed { detail } => Err(
            Error::new(ErrorKind::ExternalCommandFailed, detail.as_str()),
        ),
    }
}

/// Judges the way a command ended where only the exit code zero counts as
/// success.
pub fn system_cmd(outcome: &ProcessOutcome) -> (result: Result<(), Error>)
    ensures
        unit_result_view(result) == run_result(*outcome, Seq::empty()),
{
    let none: Vec<i32> = Vec::new();
    system_cmd_x(outcome, none.as_slice())
}

} // verus!
