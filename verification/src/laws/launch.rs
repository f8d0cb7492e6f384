//! What holds of a launch of the program.

use vstd::prelude::*;
use crate::launch::{categorize_error, categorize_lowercase, category, launch_exit_text};
use crate::launch::{launch_start_text, next_stage, run, Command, ExitCode, Next, NextView, Stage};
use crate::laws::text::{law_decimal_reads_back, law_signed_decimal, law_what_is_put_in_is_found};
use crate::laws::text::number_read;
use crate::text::{contains_text, decimal, lowercase_text, signed_decimal};

verus! {

/// Whether a text speaks of a provider that is not there.
pub open spec fn speaks_of_missing(m: Seq<char>) -> bool {
    contains_text(m, "not installed"@) || contains_text(m, "not found"@) || contains_text(
        m,
        "binary"@,
    )
}

/// Whether a text speaks of data that is not understood.
pub open spec fn speaks_of_data(m: Seq<char>) -> bool {
    contains_text(m, "parse"@) || contains_text(m, "format"@) || contains_text(m, "invalid"@)
}

/// Words that tell of a missing provider decide wherever they stand and whatever is around them.
pub proof fn law_words_of_missing_decide(a: Seq<char>, b: Seq<char>)
    ensures
        category(a + "not installed"@ + b) == ExitCode::ProviderMissing,
        category(a + "not found"@ + b) == ExitCode::ProviderMissing,
        category(a + "binary"@ + b) == ExitCode::ProviderMissing,
{
    law_what_is_put_in_is_found(a, "not installed"@, b);
    law_what_is_put_in_is_found(a, "not found"@, b);
    law_what_is_put_in_is_found(a, "binary"@, b);
}

/// Words that tell of data that is not understood decide wherever they stand, but for words that
/// tell of a missing provider.
pub proof fn law_words_of_data_decide(a: Seq<char>, b: Seq<char>)
    ensures
        category(a + "parse"@ + b) == (if speaks_of_missing(a + "parse"@ + b) {
            ExitCode::ProviderMissing
        } else {
            ExitCode::ParseError
        }),
        category(a + "format"@ + b) == (if speaks_of_missing(a + "format"@ + b) {
            ExitCode::ProviderMissing
        } else {
            ExitCode::ParseError
        }),
        category(a + "invalid"@ + b) == (if speaks_of_missing(a + "invalid"@ + b) {
            ExitCode::ProviderMissing
        } else {
            ExitCode::ParseError
        }),
{
    law_what_is_put_in_is_found(a, "parse"@, b);
    law_what_is_put_in_is_found(a, "format"@, b);
    law_what_is_put_in_is_found(a, "invalid"@, b);
}

/// Words that tell of a timeout decide wherever they stand, but for words that tell of a missing
/// provider or of data that is not understood.
pub proof fn law_words_of_timeout_decide(a: Seq<char>, b: Seq<char>)
    ensures
        category(a + "timeout"@ + b) == (if speaks_of_missing(a + "timeout"@ + b) {
            ExitCode::ProviderMissing
        } else if speaks_of_data(a + "timeout"@ + b) {
            ExitCode::ParseError
        } else {
            ExitCode::CliTimeout
        }),
        category(a + "timed out"@ + b) == (if speaks_of_missing(a + "timed out"@ + b) {
            ExitCode::ProviderMissing
        } else if speaks_of_data(a + "timed out"@ + b) {
            ExitCode::ParseError
        } else {
            ExitCode::CliTimeout
        }),
{
    law_what_is_put_in_is_found(a, "timeout"@, b);
    law_what_is_put_in_is_found(a, "timed out"@, b);
}

/// An exit code comes only of the words that tell of it, and without any such word the failure is
/// an unexpected one. No message makes an error a success or a matter of usage.
pub proof fn law_no_code_without_its_word(message: &str, code: ExitCode)
    requires
        call_ensures(categorize_lowercase, (message,), code),
    ensures
        code == ExitCode::ProviderMissing <==> contains_text(message@, "not installed"@)
            || contains_text(message@, "not found"@) || contains_text(message@, "binary"@),
        code == ExitCode::ParseError <==> !speaks_of_missing(message@) && (contains_text(
            message@,
            "parse"@,
        ) || contains_text(message@, "format"@) || contains_text(message@, "invalid"@)),
        code == ExitCode::CliTimeout <==> !speaks_of_missing(message@) && !speaks_of_data(message@)
            && (contains_text(message@, "timeout"@) || contains_text(message@, "timed out"@)),
        code == ExitCode::UnexpectedFailure <==> !contains_text(message@, "not installed"@)
            && !contains_text(message@, "not found"@) && !contains_text(message@, "binary"@)
            && !contains_text(message@, "parse"@) && !contains_text(message@, "format"@)
            && !contains_text(message@, "invalid"@) && !contains_text(message@, "timeout"@)
            && !contains_text(message@, "timed out"@),
        code != ExitCode::Success,
        code != ExitCode::UsageError,
{
}

/// A word that stands in the message of an error counts in whatever case it is: the exit code is
/// that of the message in lowercase.
pub proof fn law_case_does_not_count(
    message: &str,
    lower: &str,
    code: ExitCode,
    lower_code: ExitCode,
)
    requires
        lower@ == lowercase_text(message@),
        call_ensures(categorize_error, (message,), code),
        call_ensures(categorize_lowercase, (lower,), lower_code),
    ensures
        code == lower_code,
{
}

/// A launch goes on with the runtime once logging is set up, and with the command that the user
/// named, and no other, once the runtime is there.
pub proof fn law_the_named_command_runs(
    stage: Stage,
    command: Option<Command>,
    failure: Option<String>,
    example_provider: &str,
    next: Next,
)
    requires
        call_ensures(run, (stage, command, failure, example_provider), next),
    ensures
        next == Next::Enter(Stage::Runtime) <==> stage is Logging && failure is None,
        next matches Next::Enter(Stage::Command(entered)) ==> command == Some(entered) && stage
            is Runtime && failure is None,
        stage is Runtime && failure is None && command is Some ==> next == Next::Enter(
            Stage::Command(command->0),
        ),
        next != Next::Enter(Stage::Logging),
{
}

/// Whatever command is named, it is the one that the runtime is entered for.
pub proof fn law_no_command_takes_the_place_of_another(
    named: Command,
    entered: Command,
    stage: Stage,
    command: Option<Command>,
    failure: Option<Seq<char>>,
    example_provider: Seq<char>,
)
    ensures
        next_stage(Stage::Runtime, Some(named), None, example_provider) == NextView::Enter(
            Stage::Command(named),
        ),
        next_stage(stage, command, failure, example_provider) == NextView::Enter(
            Stage::Command(entered),
        ) ==> command == Some(entered),
{
}

/// A stage that fails ends the launch, with a report that names what failed and ends in the reason.
pub proof fn law_failures_are_reported(
    stage: Stage,
    command: Option<Command>,
    reason: String,
    example_provider: &str,
    next: Next,
)
    requires
        call_ensures(run, (stage, command, Some(reason), example_provider), next),
    ensures
        next matches Next::Exit(code, Some(report)) && {
            &&& stage is Logging ==> code == ExitCode::UnexpectedFailure && report@
                == "Failed to initialize logging: "@ + reason@
            &&& stage is Runtime ==> code == ExitCode::UnexpectedFailure && report@
                == "Failed to create runtime: "@ + reason@
            &&& stage is Command ==> report@ == "Error: "@ + reason@
        },
{
}

/// The exit code of a failed command goes by the message for the commands that ask providers, and
/// for no other.
pub proof fn law_commands_that_ask_providers(
    running: Command,
    command: Option<Command>,
    reason: String,
    message: &str,
    example_provider: &str,
    next: Next,
    by_message: ExitCode,
)
    requires
        message@ == reason@,
        call_ensures(
            run,
            (Stage::Command(running), command, Some(reason), example_provider),
            next,
        ),
        call_ensures(categorize_error, (message,), by_message),
    ensures
        next matches Next::Exit(code, _) && code == (match running {
            Command::Usage => by_message,
            Command::Cost => by_message,
            Command::Autostart => ExitCode::UnexpectedFailure,
            Command::Account => ExitCode::UnexpectedFailure,
            Command::Config => ExitCode::UnexpectedFailure,
        }),
{
}

/// A command that runs to its end ends the program with success and without a report, whichever it
/// is; and nothing else does.
pub proof fn law_a_finished_command_is_a_success(
    stage: Stage,
    command: Option<Command>,
    failure: Option<String>,
    example_provider: &str,
    next: Next,
)
    requires
        call_ensures(run, (stage, command, failure, example_provider), next),
    ensures
        next == Next::Exit(ExitCode::Success, None) <==> stage is Command && failure is None,
        next matches Next::Exit(code, report) ==> (code == ExitCode::Success <==> report is None),
{
}

/// Without a command, and only then, the user is told how to name one.
pub proof fn law_a_command_is_asked_for(
    stage: Stage,
    command: Option<Command>,
    failure: Option<String>,
    example_provider: &str,
    next: Next,
)
    requires
        call_ensures(run, (stage, command, failure, example_provider), next),
    ensures
        (next matches Next::Exit(code, _) && code == ExitCode::UsageError) <==> stage is Runtime
            && command is None && failure is None,
        next matches Next::Exit(ExitCode::UsageError, report) ==> (report matches Some(hint)
            && hint@ == "codexbar is now CLI-only. Run a subcommand (e.g. `codexbar usage -p "@
            + example_provider@
            + "`) or launch the Tauri desktop shell via `apps/desktop-tauri`.\nUse `codexbar --help` for the full list of subcommands."@),
{
}

/// The launch log begins with the time of the start and the number of arguments.
pub proof fn law_log_begins_with_the_start(started_at: &str, arg_count: usize, text: String)
    requires
        call_ensures(launch_start_text, (started_at, arg_count), text),
    ensures
        exists|count: Seq<char>|
            number_read(count) == arg_count && text@ == #[trigger] ("main() started at "@
                + started_at@ + "\narg_count="@ + count + "\n"@),
{
    law_decimal_reads_back(arg_count as nat);
    let count = decimal(arg_count as nat);
    assert(text@ == "main() started at "@ + started_at@ + "\narg_count="@ + count + "\n"@);
}

/// The launch log ends with the exit code, with its sign where it is negative.
pub proof fn law_log_ends_with_the_exit_code(exit_code: i32, text: String)
    requires
        call_ensures(launch_exit_text, (exit_code,), text),
    ensures
        exists|code: Seq<char>|
            (if exit_code < 0 {
                code[0] == '-' && number_read(code.skip(1)) == -exit_code
            } else {
                number_read(code) == exit_code
            }) && text@ == #[trigger] ("Exiting with code: "@ + code + "\n"@),
{
    law_signed_decimal(exit_code as int);
    let code = signed_decimal(exit_code as int);
    assert(text@ == "Exiting with code: "@ + code + "\n"@);
}

} // verus!
