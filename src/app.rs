//! The decisions of one invocation around the command: its checks, its start
//! and final messages, its exit code, and the lines of an interactive session.
use crate::cli::Args;
use crate::error::AppError;
use crate::text::{
    decimal, i32_to_decimal, join_with, joined, string_views, titled, trim_whitespace, trimmed,
    with_title,
};
use vstd::prelude::*;

verus! {

/// Whether `args` lets an invocation go ahead: it needs an endpoint or dry-run
/// mode.
pub open spec fn can_run(args: Args) -> bool {
    args.webhook_url is Some || args.dry_run
}

/// Checks that an endpoint or dry-run mode is set, before anything is spawned
/// or sent.
pub fn validate_args(args: &Args) -> (r: Result<(), AppError>)
    ensures
        r is Ok <==> can_run(*args),
        r is Err ==> r == Err::<(), AppError>(AppError::MissingWebhookUrl),
{
    if args.webhook_url.is_none() && !args.dry_run {
        Err(AppError::MissingWebhookUrl)
    } else {
        Ok(())
    }
}

/// Puts `[title] ` in front of `message` when `args` sets a title.
pub fn format_with_title(args: &Args, message: &str) -> (r: String)
    ensures
        r@ == titled(args.title, message@),
{
    with_title(&args.title, message)
}

/// The command line as one string, its words joined by spaces.
pub open spec fn command_text(args: Args) -> Seq<char> {
    joined(string_views(args.command@), seq![' '])
}

/// The text of the start notification for `command`.
pub open spec fn start_text(command: Seq<char>) -> Seq<char> {
    "🚀 Starting command: `"@ + command + "`"@
}

/// The start notification, sent before the command is spawned.
pub fn start_message(args: &Args) -> (r: String)
    ensures
        r@ == titled(args.title, start_text(command_text(*args))),
{
    let command = join_with(&args.command, " ");
    proof {
        reveal_strlit(" ");
        assert(" "@ =~= seq![' ']);
    }
    let mut text = String::from_str("🚀 Starting command: `");
    text.append(command.as_str());
    text.append("`");
    format_with_title(args, text.as_str())
}

/// How the command ended, as the process layer reports it.
#[derive(Clone, Debug)]
pub enum CommandOutcome {
    /// The command exited with this code.
    Exited(i32),
    /// The command was killed by a signal.
    Signaled,
    /// The command could not be started; `not_found` when the executable was
    /// missing, and `reason` says why.
    SpawnFailed { not_found: bool, reason: String },
}

/// The end of an invocation: the final notification and the exit code.
#[derive(Clone, Debug)]
pub struct FinalStatus {
    /// The final notification, title included.
    pub message: String,
    /// The notification reports a failure (and goes to stderr locally).
    pub is_error: bool,
    /// The code the process exits with.
    pub exit_code: i32,
}

/// The default text for a successful command.
pub open spec fn success_text() -> Seq<char> {
    "✅ Command finished successfully."@
}

/// The default text for a command that exited with `code`.
pub open spec fn failure_text(code: int) -> Seq<char> {
    "❌ Command failed with exit code "@ + decimal(code) + "."@
}

/// The text for a command killed by a signal.
pub open spec fn signal_text() -> Seq<char> {
    "❌ Command was terminated by a signal."@
}

/// The default text for a command that could not be started.
pub open spec fn start_failure_text(reason: Seq<char>) -> Seq<char> {
    "❌ Command failed to start: "@ + reason + "."@
}

/// `text` when set, `default` otherwise.
pub open spec fn or_default(text: Option<String>, default: Seq<char>) -> Seq<char> {
    match text {
        Some(t) => t@,
        None => default,
    }
}

/// The final notification's text before the title: the configured override
/// where there is one, the default text otherwise.
pub open spec fn outcome_text(args: Args, outcome: CommandOutcome) -> Seq<char> {
    match outcome {
        CommandOutcome::Exited(code) => if code == 0 {
            or_default(args.on_success, success_text())
        } else {
            or_default(args.on_failure, failure_text(code as int))
        },
        CommandOutcome::Signaled => signal_text(),
        CommandOutcome::SpawnFailed { reason, .. } => or_default(
            args.on_failure,
            start_failure_text(reason@),
        ),
    }
}

/// The exit code of the invocation: the command's own code; 127 for a missing
/// executable; 1 for a signal or another start failure.
pub open spec fn exit_code_of(outcome: CommandOutcome) -> i32 {
    match outcome {
        CommandOutcome::Exited(code) => code,
        CommandOutcome::Signaled => 1,
        CommandOutcome::SpawnFailed { not_found, .. } => if not_found {
            127
        } else {
            1
        },
    }
}

/// Whether the outcome is a failure.
pub open spec fn is_failure(outcome: CommandOutcome) -> bool {
    !(outcome matches CommandOutcome::Exited(code) && code == 0)
}

/// The owned copy of an optional string.
fn copy_text(text: &Option<String>) -> (r: Option<String>)
    ensures
        r == *text,
{
    match text {
        Some(t) => Some(t.clone()),
        None => None,
    }
}

/// The final notification and exit code for a command that ended as
/// `outcome`. Neither depends on dry-run mode or on the endpoint.
pub fn handle_command_result(args: &Args, outcome: &CommandOutcome) -> (r: FinalStatus)
    ensures
        r.message@ == titled(args.title, outcome_text(*args, *outcome)),
        r.is_error == is_failure(*outcome),
        r.exit_code == exit_code_of(*outcome),
{
    match outcome {
        CommandOutcome::Exited(code) => {
            if *code == 0 {
                let base = match copy_text(&args.on_success) {
                    Some(t) => t,
                    None => String::from_str("✅ Command finished successfully."),
                };
                let message = format_with_title(args, base.as_str());
                FinalStatus { message, is_error: false, exit_code: 0 }
            } else {
                let base = match copy_text(&args.on_failure) {
                    Some(t) => t,
                    None => {
                        let mut t = String::from_str("❌ Command failed with exit code ");
                        let digits = i32_to_decimal(*code);
                        t.append(digits.as_str());
                        t.append(".");
                        t
                    },
                };
                let message = format_with_title(args, base.as_str());
                FinalStatus { message, is_error: true, exit_code: *code }
            }
        },
        CommandOutcome::Signaled => {
            let message = format_with_title(args, "❌ Command was terminated by a signal.");
            FinalStatus { message, is_error: true, exit_code: 1 }
        },
        CommandOutcome::SpawnFailed { not_found, reason } => {
            let base = match copy_text(&args.on_failure) {
                Some(t) => t,
                None => {
                    let mut t = String::from_str("❌ Command failed to start: ");
                    t.append(reason.as_str());
                    t.append(".");
                    t
                },
            };
            let message = format_with_title(args, base.as_str());
            let exit_code: i32 = if *not_found {
                127
            } else {
                1
            };
            FinalStatus { message, is_error: true, exit_code }
        },
    }
}

/// What one line typed in an interactive session asks for.
#[derive(Clone, Debug)]
pub enum ShellInput {
    /// Nothing but whitespace: prompt again.
    Blank,
    /// `exit`: end the session.
    Exit,
    /// A command line to run.
    Command(String),
}

/// Reads a line from which surrounding whitespace is already gone: an empty
/// line is blank, `exit` ends the session, and anything else is a command.
pub fn classify_shell_line(line: &str) -> (r: ShellInput)
    ensures
        line@.len() == 0 ==> r is Blank,
        line@.len() > 0 && line@ == "exit"@ ==> r is Exit,
        line@.len() > 0 && line@ != "exit"@ ==> (r matches ShellInput::Command(c) && c@ == line@),
{
    let text = line.to_owned();
    let exit = String::from_str("exit");
    if line.is_empty() {
        ShellInput::Blank
    } else if text == exit {
        ShellInput::Exit
    } else {
        ShellInput::Command(text)
    }
}

/// Reads one line typed in an interactive session, ignoring the whitespace
/// around it.
pub fn parse_shell_line(line: &str) -> (r: ShellInput)
    ensures
        trimmed(line@).len() == 0 ==> r is Blank,
        trimmed(line@).len() > 0 && trimmed(line@) == "exit"@ ==> r is Exit,
        trimmed(line@).len() > 0 && trimmed(line@) != "exit"@ ==> (r matches ShellInput::Command(c)
            && c@ == trimmed(line@)),
{
    classify_shell_line(trim_whitespace(line))
}

/// The settings for one command typed in an interactive session: those of the
/// session, with `command` as the whole command line, no override texts and
/// output forwarded.
pub fn shell_line_args(session: &Args, command: String) -> (r: Args)
    ensures
        r.command@.len() == 1,
        r.command@[0] == command,
        r.on_success is None,
        r.on_failure is None,
        !r.quiet,
        r.webhook_url == session.webhook_url,
        r.title == session.title,
        r.dry_run == session.dry_run,
        r.format == session.format,
        r.buffer_size == session.buffer_size,
        r.buffer_timeout_ms == session.buffer_timeout_ms,
{
    let mut words: Vec<String> = Vec::new();
    words.push(command);
    Args {
        webhook_url: copy_text(&session.webhook_url),
        on_success: None,
        on_failure: None,
        quiet: false,
        title: copy_text(&session.title),
        dry_run: session.dry_run,
        format: session.format,
        buffer_size: session.buffer_size,
        buffer_timeout_ms: session.buffer_timeout_ms,
        command: words,
    }
}

} // verus!
