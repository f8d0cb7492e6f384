//! The launch of the program.

use secure_file::launch::{
    categorize_error, categorize_lowercase, launch_exit_text, launch_start_text, run, Command,
    ExitCode, Next, Stage,
};
use secure_file::text::{contains, decimal_text, joined, same_text, signed_decimal_text};

fn exit(next: Next) -> (ExitCode, Option<String>) {
    match next {
        Next::Exit(code, report) => (code, report),
        Next::Enter(stage) => panic!("{:?}", stage),
    }
}

#[test]
fn messages_are_sorted_into_exit_codes() {
    for (message, code) in [
        ("Codex is not installed", ExitCode::ProviderMissing),
        ("File NOT FOUND", ExitCode::ProviderMissing),
        ("no such Binary", ExitCode::ProviderMissing),
        ("cannot parse reply", ExitCode::ParseError),
        ("bad FORMAT", ExitCode::ParseError),
        ("Invalid header", ExitCode::ParseError),
        ("Timeout", ExitCode::CliTimeout),
        ("request timed out", ExitCode::CliTimeout),
        ("timed  out", ExitCode::UnexpectedFailure),
        ("", ExitCode::UnexpectedFailure),
        ("invalid path: not found after timeout", ExitCode::ProviderMissing),
        ("timeout in parse", ExitCode::ParseError),
    ] {
        assert_eq!(categorize_error(message), code);
    }
}

#[test]
fn capitals_are_not_lowercase() {
    assert_eq!(categorize_lowercase("NOT FOUND"), ExitCode::UnexpectedFailure);
    assert_eq!(categorize_lowercase("not found"), ExitCode::ProviderMissing);
    assert_eq!(categorize_error("\u{212a}: B\u{130}NARY"), ExitCode::UnexpectedFailure);
}

#[test]
fn a_launch_goes_through_its_stages() {
    let command = Some(Command::Cost);
    assert!(matches!(run(Stage::Logging, command, None, "codex"), Next::Enter(Stage::Runtime)));
    assert!(matches!(
        run(Stage::Runtime, command, None, "codex"),
        Next::Enter(Stage::Command(Command::Cost))
    ));
    assert_eq!(
        exit(run(Stage::Command(Command::Cost), command, None, "codex")),
        (ExitCode::Success, None)
    );
}

#[test]
fn a_launch_ends_where_a_stage_fails() {
    assert_eq!(
        exit(run(Stage::Logging, None, Some("disk full".to_string()), "codex")),
        (
            ExitCode::UnexpectedFailure,
            Some("Failed to initialize logging: disk full".to_string())
        )
    );
    assert_eq!(
        exit(run(Stage::Runtime, None, Some("no threads".to_string()), "codex")),
        (ExitCode::UnexpectedFailure, Some("Failed to create runtime: no threads".to_string()))
    );
}

#[test]
fn a_command_is_asked_for() {
    for (provider, hint) in [
        (
            "codex",
            "codexbar is now CLI-only. Run a subcommand (e.g. `codexbar usage -p codex`) \
             or launch the Tauri desktop shell via `apps/desktop-tauri`.\n\
             Use `codexbar --help` for the full list of subcommands.",
        ),
        (
            "",
            "codexbar is now CLI-only. Run a subcommand (e.g. `codexbar usage -p `) \
             or launch the Tauri desktop shell via `apps/desktop-tauri`.\n\
             Use `codexbar --help` for the full list of subcommands.",
        ),
    ] {
        assert_eq!(
            exit(run(Stage::Runtime, None, None, provider)),
            (ExitCode::UsageError, Some(hint.to_string()))
        );
    }
}

#[test]
fn only_usage_and_cost_sort_their_errors() {
    let reason = || Some("Provider NOT FOUND".to_string());
    let report = Some("Error: Provider NOT FOUND".to_string());
    for (command, code) in [
        (Command::Usage, ExitCode::ProviderMissing),
        (Command::Cost, ExitCode::ProviderMissing),
        (Command::Autostart, ExitCode::UnexpectedFailure),
        (Command::Account, ExitCode::UnexpectedFailure),
        (Command::Config, ExitCode::UnexpectedFailure),
    ] {
        let next = run(Stage::Command(command), Some(command), reason(), "codex");
        assert_eq!(exit(next), (code, report.clone()));
    }
}

#[test]
fn launch_log_has_its_text() {
    assert_eq!(
        launch_start_text("SystemTime { tv_sec: 1 }", 12),
        "main() started at SystemTime { tv_sec: 1 }\narg_count=12\n"
    );
    assert_eq!(launch_exit_text(0), "Exiting with code: 0\n");
    assert_eq!(launch_exit_text(-2147483648), "Exiting with code: -2147483648\n");
}

#[test]
fn numbers_are_decimal() {
    for n in [0, 1, 9, 10, 99, 100, 1234567890, u64::MAX] {
        assert_eq!(decimal_text(n), n.to_string());
    }
    for n in [0, 7, -1, -10, i32::MAX, i32::MIN] {
        assert_eq!(signed_decimal_text(n), n.to_string());
    }
}

#[test]
fn texts_are_searched_and_joined() {
    assert!(contains("", ""));
    assert!(contains("abc", ""));
    assert!(contains("abc", "abc"));
    assert!(contains("aab", "ab"));
    assert!(contains("h\u{e9}llo", "\u{e9}l"));
    assert!(!contains("ab", "abc"));
    assert!(!contains("abab", "bb"));
    assert_eq!(joined("a", "b"), "ab");
    assert!(same_text("x", "x"));
    assert!(!same_text("x", "xx"));
}
