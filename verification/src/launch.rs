//! How a launch of the command line program goes: its stages, its exit codes, and what it reports.

use vstd::prelude::*;
use crate::text::{contains, contains_text, decimal, decimal_text, joined, lowercase};
use crate::text::{lowercase_text, signed_decimal, signed_decimal_text};

verus! {

/// What the program tells its caller by its exit code.
#[derive(Debug, Clone, Copy, PartialEq, Eq, Structural)]
pub enum ExitCode {
    Success,
    UnexpectedFailure,
    ProviderMissing,
    ParseError,
    CliTimeout,
    UsageError,
}

/// The subcommands of the program.
#[derive(Debug, Clone, Copy, PartialEq, Eq, Structural)]
pub enum Command {
    Usage,
    Cost,
    Autostart,
    Account,
    Config,
}

/// The stages of a launch, in their order.
#[derive(Debug, Clone, Copy, PartialEq, Eq, Structural)]
pub enum Stage {
    /// Logging is set up.
    Logging,
    /// The runtime for the commands is created.
    Runtime,
    /// A command runs.
    Command(Command),
}

/// What comes after a stage.
#[derive(Debug)]
pub enum Next {
    /// The launch goes on with this stage.
    Enter(Stage),
    /// The program ends, with this exit code and this report to its user, if any.
    Exit(ExitCode, Option<String>),
}

/// A [`Next`] with its report as a sequence of characters.
pub enum NextView {
    Enter(Stage),
    Exit(ExitCode, Option<Seq<char>>),
}

impl View for Next {
    type V = NextView;

    open spec fn view(&self) -> NextView {
        match self {
            Next::Enter(stage) => NextView::Enter(*stage),
            Next::Exit(code, Some(report)) => NextView::Exit(*code, Some(report@)),
            Next::Exit(code, None) => NextView::Exit(*code, None),
        }
    }
}

/// The exit code for an error whose message, in lowercase, is this.
pub open spec fn category(message: Seq<char>) -> ExitCode {
    if contains_text(message, "not installed"@) || contains_text(message, "not found"@)
        || contains_text(message, "binary"@) {
        ExitCode::ProviderMissing
    } else if contains_text(message, "parse"@) || contains_text(message, "format"@)
        || contains_text(message, "invalid"@) {
        ExitCode::ParseError
    } else if contains_text(message, "timeout"@) || contains_text(message, "timed out"@) {
        ExitCode::CliTimeout
    } else {
        ExitCode::UnexpectedFailure
    }
}

/// Whether the message of a command's error decides the exit code.
pub open spec fn is_categorized(command: Command) -> bool {
    command == Command::Usage || command == Command::Cost
}

/// What a user is told who names no command, with one provider taken for the example.
pub open spec fn usage_hint(example_provider: Seq<char>) -> Seq<char> {
    "codexbar is now CLI-only. Run a subcommand (e.g. `codexbar usage -p "@ + example_provider
        + "`) or launch the Tauri desktop shell via `apps/desktop-tauri`.\nUse `codexbar --help` for the full list of subcommands."@
}

/// What comes after a stage, for the command that the user named, if any, and what the stage came
/// to.
pub open spec fn next_stage(
    stage: Stage,
    command: Option<Command>,
    failure: Option<Seq<char>>,
    example_provider: Seq<char>,
) -> NextView {
    match (stage, failure) {
        (Stage::Logging, None) => NextView::Enter(Stage::Runtime),
        (Stage::Logging, Some(reason)) => NextView::Exit(
            ExitCode::UnexpectedFailure,
            Some("Failed to initialize logging: "@ + reason),
        ),
        (Stage::Runtime, None) => match command {
            Some(command) => NextView::Enter(Stage::Command(command)),
            None => NextView::Exit(ExitCode::UsageError, Some(usage_hint(example_provider))),
        },
        (Stage::Runtime, Some(reason)) => NextView::Exit(
            ExitCode::UnexpectedFailure,
            Some("Failed to create runtime: "@ + reason),
        ),
        (Stage::Command(_), None) => NextView::Exit(ExitCode::Success, None),
        (Stage::Command(running), Some(reason)) => NextView::Exit(
            if is_categorized(running) {
                category(lowercase_text(reason))
            } else {
                ExitCode::UnexpectedFailure
            },
            Some("Error: "@ + reason),
        ),
    }
}

/// The reason of a failure, with its text as a sequence of characters.
pub open spec fn failure_view(failure: Option<String>) -> Option<Seq<char>> {
    match failure {
        Some(reason) => Some(reason@),
        None => None,
    }
}

/// The exit code for an error whose message is in lowercase.
pub fn categorize_lowercase(message: &str) -> (code: ExitCode)
    ensures
        code == category(message@),
{
    if contains(message, "not installed") || contains(message, "not found") || contains(
        message,
        "binary",
    ) {
        ExitCode::ProviderMissing
    } else if contains(message, "parse") || contains(message, "format") || contains(
        message,
        "invalid",
    ) {
        ExitCode::ParseError
    } else if contains(message, "timeout") || contains(message, "timed out") {
        ExitCode::CliTimeout
    } else {
        ExitCode::UnexpectedFailure
    }
}

/// The exit code for an error with this message, in whatever case its letters are.
pub fn categorize_error(message: &str) -> (code: ExitCode)
    ensures
        code == category(lowercase_text(message@)),
{
    categorize_lowercase(&lowercase(message))
}

/// What a user is told who names no command, with one provider taken for the example.
fn usage_hint_text(example_provider: &str) -> (hint: String)
    ensures
        hint@ == usage_hint(example_provider@),
{
    joined(
        &joined(
            "codexbar is now CLI-only. Run a subcommand (e.g. `codexbar usage -p ",
            example_provider,
        ),
        "`) or launch the Tauri desktop shell via `apps/desktop-tauri`.\nUse `codexbar --help` for the full list of subcommands.",
    )
}

/// What comes after a stage of the launch. `command` is the command that the user named, if any,
/// and `failure` the reason where the stage failed. Where no command was named, the hint to the
/// user takes `example_provider` for its example.
pub fn run(
    stage: Stage,
    command: Option<Command>,
    failure: Option<String>,
    example_provider: &str,
) -> (next: Next)
    ensures
        next@ == next_stage(stage, command, failure_view(failure), example_provider@),
{
    match (stage, failure) {
        (Stage::Logging, None) => Next::Enter(Stage::Runtime),
        (Stage::Logging, Some(reason)) => Next::Exit(
            ExitCode::UnexpectedFailure,
            Some(joined("Failed to initialize logging: ", &reason)),
        ),
        (Stage::Runtime, None) => match command {
            Some(command) => Next::Enter(Stage::Command(command)),
            None => Next::Exit(ExitCode::UsageError, Some(usage_hint_text(example_provider))),
        },
        (Stage::Runtime, Some(reason)) => Next::Exit(
            ExitCode::UnexpectedFailure,
            Some(joined("Failed to create runtime: ", &reason)),
        ),
        (Stage::Command(_), None) => Next::Exit(ExitCode::Success, None),
        (Stage::Command(running), Some(reason)) => {
            let code = match running {
                Command::Usage | Command::Cost => categorize_error(&reason),
                Command::Autostart | Command::Account | Command::Config =>
                    ExitCode::UnexpectedFailure,
            };
            Next::Exit(code, Some(joined("Error: ", &reason)))
        },
    }
}

/// What the launch log begins with: when the program started, and with how many arguments.
pub fn launch_start_text(started_at: &str, arg_count: usize) -> (text: String)
    ensures
        text@ == "main() started at "@ + started_at@ + "\narg_count="@ + decimal(arg_count as nat)
            + "\n"@,
{
    let head = joined(&joined("main() started at ", started_at), "\narg_count=");
    joined(&joined(&head, &decimal_text(arg_count as u64)), "\n")
}

/// The last line of the launch log.
pub fn launch_exit_text(exit_code: i32) -> (text: String)
    ensures
        text@ == "Exiting with code: "@ + signed_decimal(exit_code as int) + "\n"@,
{
    joined(&joined("Exiting with code: ", &signed_decimal_text(exit_code)), "\n")
}

/// The program reports success only where a command ran to its end, and it then has nothing to
/// tell. Every other end has a report.
pub proof fn law_success_is_silent(
    stage: Stage,
    command: Option<Command>,
    failure: Option<Seq<char>>,
    example_provider: Seq<char>,
)
    ensures
        match next_stage(stage, command, failure, example_provider) {
            NextView::Enter(_) => failure is None && stage !is Command,
            NextView::Exit(code, report) => {
                &&& code == ExitCode::Success <==> stage is Command && failure is None
                &&& code == ExitCode::Success <==> report is None
            },
        },
{
}

/// No stage comes twice, and a launch ends after at most three stages: what comes after a stage is
/// a later stage, or the end.
pub proof fn law_stages_go_forward(
    stage: Stage,
    command: Option<Command>,
    failure: Option<Seq<char>>,
    example_provider: Seq<char>,
)
    ensures
        next_stage(stage, command, failure, example_provider) matches NextView::Enter(later)
            ==> stage_order(stage) < stage_order(later) <= 2,
{
}

/// The place of a stage in the order of a launch.
pub open spec fn stage_order(stage: Stage) -> int {
    match stage {
        Stage::Logging => 0,
        Stage::Runtime => 1,
        Stage::Command(_) => 2,
    }
}

} // verus!
