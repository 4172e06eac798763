//! One command of a group: the process to start for it, and the verdict
//! on how that process ended.

use crate::command::{command_args, command_overlay, parse_env_and_command, texts};
use crate::env_overlay::EnvOverlay;
use crate::text::{signed_decimal, signed_decimal_text};
use vstd::prelude::*;
use vstd::string::*;

verus! {

/// One process to start: the program, its arguments, and the environment
/// variables to lay over the inherited ones, with the command string that
/// asked for it.
#[derive(Debug)]
pub struct Invocation {
    pub command: String,
    pub program: String,
    pub args: Vec<String>,
    pub env: EnvOverlay,
}

/// How the execution of one command ended.
#[derive(Clone, Debug, PartialEq, Eq)]
pub enum Outcome {
    /// The process ended normally with code zero.
    Success,
    /// The process ended otherwise; `exit_code` is `None` where it ended
    /// without a code.
    Failure { exit_code: Option<i32>, stdout: String, stderr: String },
    /// The process could not be started.
    SpawnFailure { cause: String },
}

/// The error text for a command string that names no program.
pub open spec fn empty_command_message(command: Seq<char>) -> Seq<char> {
    "Command `"@ + command + "` names no program to run"@
}

/// Whether `r` is what planning gives for the command string `command`
/// with the overlay `overlay` and the argument vector `argv`.
pub open spec fn is_plan_of(
    command: Seq<char>,
    overlay: Map<Seq<char>, Seq<char>>,
    argv: Seq<Seq<char>>,
    r: Result<Invocation, String>,
) -> bool {
    match r {
        Ok(invocation) => {
            &&& argv.len() > 0
            &&& invocation.command@ == command
            &&& invocation.program@ == argv[0]
            &&& texts(invocation.args@) == argv.skip(1)
            &&& invocation.env@ == overlay
        },
        Err(e) => argv.len() == 0 && e@ == empty_command_message(command),
    }
}

/// Turns a parsed command into the process to start: the first argument is
/// the program, the rest are its arguments. An empty argument vector is an
/// error, and no process is to be started for it.
pub fn plan_invocation(command: &str, parts: (EnvOverlay, Vec<String>)) -> (r: Result<
    Invocation,
    String,
>)
    ensures
        is_plan_of(command@, parts.0@, texts(parts.1@), r),
{
    let (env, mut args) = parts;
    if args.len() == 0 {
        let message = String::from_str("Command `").concat(command).concat(
            "` names no program to run",
        );
        assert(message@ =~= empty_command_message(command@));
        return Err(message);
    }
    let ghost argv = texts(args@);
    let program = args.remove(0);
    assert(texts(args@) =~= argv.skip(1));
    Ok(Invocation { command: String::from_str(command), program, args, env })
}

/// Parses the command string and turns it into the process to start.
pub fn plan_task(command: &str) -> (r: Result<Invocation, String>)
    ensures
        is_plan_of(command@, command_overlay(command@), command_args(command@), r),
{
    plan_invocation(command, parse_env_and_command(command))
}

/// How a process that ran to its end is classified: a success where it
/// ended normally with code zero, a failure otherwise.
pub open spec fn ended_as(exit_code: Option<i32>, stdout: String, stderr: String) -> Outcome {
    if exit_code == Some(0i32) {
        Outcome::Success
    } else {
        Outcome::Failure { exit_code, stdout, stderr }
    }
}

/// Classifies a process that ran to its end, by its exit code; `None`
/// stands for an end without a code. What it printed is kept for a failure.
pub fn classify(exit_code: Option<i32>, stdout: String, stderr: String) -> (outcome: Outcome)
    ensures
        outcome == ended_as(exit_code, stdout, stderr),
{
    match exit_code {
        Some(0) => Outcome::Success,
        _ => Outcome::Failure { exit_code, stdout, stderr },
    }
}

/// The text of an exit code as the failure message shows it.
pub open spec fn code_text(code: Option<i32>) -> Seq<char> {
    match code {
        Some(n) => "Some("@ + signed_decimal(n as int) + ")"@,
        None => "None"@,
    }
}

/// The error text for a command that ended with `code`.
pub open spec fn failure_message(command: Seq<char>, code: Option<i32>) -> Seq<char> {
    "Command `"@ + command + "` failed with exit code "@ + code_text(code)
}

/// Whether `r` is the verdict on `outcome` for the command string `command`.
pub open spec fn is_verdict_of(command: Seq<char>, outcome: Outcome, r: Result<(), String>) -> bool {
    match r {
        Ok(_) => outcome is Success,
        Err(e) => match outcome {
            Outcome::Success => false,
            Outcome::Failure { exit_code, .. } => e@ == failure_message(command, exit_code),
            Outcome::SpawnFailure { cause } => e@ == cause@,
        },
    }
}

/// Judges how a command ended: only a normal end with code zero is a
/// success. A failure names the command string and the exit code; a
/// process that could not be started fails with the cause.
pub fn judge(command: &str, outcome: &Outcome) -> (r: Result<(), String>)
    ensures
        is_verdict_of(command@, *outcome, r),
{
    match outcome {
        Outcome::Success => Ok(()),
        Outcome::Failure { exit_code, .. } => {
            let code = match exit_code {
                Some(n) => {
                    let text = String::from_str("Some(").concat(
                        signed_decimal_text(*n).as_str(),
                    ).concat(")");
                    assert(text@ =~= code_text(*exit_code));
                    text
                },
                None => String::from_str("None"),
            };
            let message = String::from_str("Command `").concat(command).concat(
                "` failed with exit code ",
            ).concat(code.as_str());
            assert(message@ =~= failure_message(command@, *exit_code));
            Err(message)
        },
        Outcome::SpawnFailure { cause } => Err(cause.clone()),
    }
}

/// The lines that report what a failed process printed: its standard
/// output and its standard error, each only where it is not empty.
pub open spec fn diagnostic_lines(outcome: Outcome) -> Seq<Seq<char>> {
    match outcome {
        Outcome::Failure { stdout, stderr, .. } => {
            let out = if stdout@.len() > 0 {
                seq!["Stdout: "@ + stdout@]
            } else {
                Seq::<Seq<char>>::empty()
            };
            let err = if stderr@.len() > 0 {
                seq!["Stderr: "@ + stderr@]
            } else {
                Seq::<Seq<char>>::empty()
            };
            out + err
        },
        _ => Seq::<Seq<char>>::empty(),
    }
}

/// The lines to log for a command that failed.
pub fn diagnostics(outcome: &Outcome) -> (lines: Vec<String>)
    ensures
        texts(lines@) == diagnostic_lines(*outcome),
{
    let mut lines: Vec<String> = Vec::new();
    match outcome {
        Outcome::Failure { stdout, stderr, .. } => {
            if !stdout.as_str().is_empty() {
                lines.push(String::from_str("Stdout: ").concat(stdout.as_str()));
            }
            if !stderr.as_str().is_empty() {
                lines.push(String::from_str("Stderr: ").concat(stderr.as_str()));
            }
        },
        _ => {},
    }
    assert(texts(lines@) =~= diagnostic_lines(*outcome));
    lines
}

} // verus!
