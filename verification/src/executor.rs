//! The decisions of the command executor.
//!
//! The executor itself starts processes and reads their output; that is left
//! to the caller. Here stands what it decides on the way: whether a command
//! is a `cd` or is to be run, whether it is a download-style command, how the
//! shell is invoked, and what is reported when the command has ended.

use crate::output::{
    channel_name, Channel, CommandOutput, CommandOutputView, CompletionEvent, CompletionEventView,
    StreamOutput, StreamOutputView,
};
use crate::text::{contains, contains_text, decode_lossy, utf8_lossy};
use crate::workdir::{cd_argument, cd_command, is_cd_command, parse_cd_argument};
use vstd::prelude::*;
use vstd::string::*;

verus! {

/// A command is taken for a download when its text names one of the tools
/// `ollama`, `curl` or `wget`, wherever in the text the name stands.
pub open spec fn is_download(command: Seq<char>) -> bool {
    contains_text(command, "ollama"@) || contains_text(command, "curl"@) || contains_text(
        command,
        "wget"@,
    )
}

/// Whether `command` is a download-style command.
pub fn is_download_command(command: &str) -> (b: bool)
    ensures
        b == is_download(command@),
{
    contains(command, "ollama") || contains(command, "curl") || contains(command, "wget")
}

/// What is to be done with a command.
#[derive(Clone, Debug, PartialEq, Eq)]
pub enum Dispatch {
    /// The command is a `cd`: the working-directory tracker serves it, and no
    /// process is started.
    ChangeDirectory { argument: String },
    /// The command is to be run by the shell.
    Spawn { download: bool },
}

/// What a `Dispatch` holds.
pub ghost enum DispatchView {
    ChangeDirectory { argument: Seq<char> },
    Spawn { download: bool },
}

impl View for Dispatch {
    type V = DispatchView;

    open spec fn view(&self) -> DispatchView {
        match self {
            Dispatch::ChangeDirectory { argument } => DispatchView::ChangeDirectory {
                argument: argument@,
            },
            Dispatch::Spawn { download } => DispatchView::Spawn { download: *download },
        }
    }
}

/// What is to be done with `command`.
pub open spec fn dispatch_of(command: Seq<char>) -> DispatchView {
    if is_cd_command(command) {
        DispatchView::ChangeDirectory { argument: cd_argument(command) }
    } else {
        DispatchView::Spawn { download: is_download(command) }
    }
}

/// Decides what is to be done with `command`.
pub fn dispatch(command: &str) -> (d: Dispatch)
    ensures
        d@ == dispatch_of(command@),
{
    if cd_command(command) {
        Dispatch::ChangeDirectory { argument: parse_cd_argument(command) }
    } else {
        Dispatch::Spawn { download: is_download_command(command) }
    }
}

/// A program and the arguments it is started with.
#[derive(Clone, Debug, PartialEq, Eq)]
pub struct Invocation {
    pub program: String,
    pub args: Vec<String>,
}

/// What an `Invocation` holds.
pub ghost struct InvocationView {
    pub program: Seq<char>,
    pub args: Seq<Seq<char>>,
}

impl View for Invocation {
    type V = InvocationView;

    open spec fn view(&self) -> InvocationView {
        InvocationView { program: self.program@, args: self.args.deep_view() }
    }
}

/// The invocation of a command that runs to its end before anything is
/// reported: the shell, told to run the command.
pub open spec fn one_shot(command: Seq<char>) -> InvocationView {
    InvocationView { program: "zsh"@, args: seq!["-c"@, command] }
}

/// The invocation of a streamed command. The shell runs under a helper that
/// gives it a terminal, so that programs keep redrawing their progress:
/// `unbuffer` where it is installed, `script` otherwise.
pub open spec fn streamed(command: Seq<char>, has_unbuffer: bool) -> InvocationView {
    if has_unbuffer {
        InvocationView { program: "unbuffer"@, args: seq!["zsh"@, "-c"@, command] }
    } else {
        InvocationView {
            program: "script"@,
            args: seq!["-q"@, "/dev/null"@, "zsh"@, "-c"@, command],
        }
    }
}

/// The shell of an idle session: `zsh` on macOS, `bash` elsewhere.
pub open spec fn session_shell_name(macos: bool) -> Seq<char> {
    if macos {
        "zsh"@
    } else {
        "bash"@
    }
}

/// The invocation for the one-shot command `command`.
pub fn one_shot_invocation(command: &str) -> (r: Invocation)
    ensures
        r@ == one_shot(command@),
{
    let mut args: Vec<String> = Vec::new();
    args.push(String::from_str("-c"));
    args.push(command.to_owned());
    proof {
        assert(args.deep_view() =~= seq!["-c"@, command@]);
    }
    Invocation { program: String::from_str("zsh"), args }
}

/// The invocation for the streamed command `command`. `has_unbuffer` says
/// whether the helper `unbuffer` is installed.
pub fn stream_invocation(command: &str, has_unbuffer: bool) -> (r: Invocation)
    ensures
        r@ == streamed(command@, has_unbuffer),
{
    let mut args: Vec<String> = Vec::new();
    if has_unbuffer {
        args.push(String::from_str("zsh"));
        args.push(String::from_str("-c"));
        args.push(command.to_owned());
        proof {
            assert(args.deep_view() =~= seq!["zsh"@, "-c"@, command@]);
        }
        Invocation { program: String::from_str("unbuffer"), args }
    } else {
        args.push(String::from_str("-q"));
        args.push(String::from_str("/dev/null"));
        args.push(String::from_str("zsh"));
        args.push(String::from_str("-c"));
        args.push(command.to_owned());
        proof {
            assert(args.deep_view() =~= seq!["-q"@, "/dev/null"@, "zsh"@, "-c"@, command@]);
        }
        Invocation { program: String::from_str("script"), args }
    }
}

/// The shell of an idle session.
pub fn session_shell(macos: bool) -> (shell: String)
    ensures
        shell@ == session_shell_name(macos),
{
    if macos {
        String::from_str("zsh")
    } else {
        String::from_str("bash")
    }
}

/// The result of a `cd`: nothing on success, the message on failure.
pub open spec fn cd_message(result: Result<(), String>) -> Seq<char> {
    match result {
        Ok(_) => Seq::empty(),
        Err(message) => message@,
    }
}

/// The result of a one-shot command whose process wrote `stdout` and
/// `stderr`, with the working directory as it is displayed.
pub fn command_output(stdout: &[u8], stderr: &[u8], current_dir: String) -> (r: CommandOutput)
    ensures
        r@ == (CommandOutputView {
            stdout: utf8_lossy(stdout@),
            stderr: utf8_lossy(stderr@),
            current_dir: current_dir@,
        }),
{
    CommandOutput { stdout: decode_lossy(stdout), stderr: decode_lossy(stderr), current_dir }
}

/// The result of a one-shot `cd`. A `cd` that fails is no failure of the
/// executor: its message is reported as error output.
pub fn cd_command_output(result: &Result<(), String>, current_dir: String) -> (r: CommandOutput)
    ensures
        r@ == (CommandOutputView {
            stdout: Seq::empty(),
            stderr: cd_message(*result),
            current_dir: current_dir@,
        }),
{
    let stderr = match result {
        Ok(_) => String::new(),
        Err(message) => message.clone(),
    };
    CommandOutput { stdout: String::new(), stderr, current_dir }
}

/// The one output of a streamed `cd`: empty standard output on success, the
/// message as error output on failure.
pub open spec fn cd_output(
    result: Result<(), String>,
    current_dir: Seq<char>,
    terminal_id: Seq<char>,
) -> StreamOutputView {
    StreamOutputView {
        content: cd_message(result),
        output_type: channel_name(
            if result is Ok {
                Channel::Stdout
            } else {
                Channel::Stderr
            },
        ),
        current_dir,
        should_replace_last: false,
        terminal_id,
    }
}

/// The one output of a streamed `cd`.
pub fn cd_stream_output(result: &Result<(), String>, current_dir: String, terminal_id: String) -> (r:
    StreamOutput)
    ensures
        r@ == cd_output(*result, current_dir@, terminal_id@),
{
    match result {
        Ok(_) => StreamOutput {
            content: String::new(),
            output_type: Channel::Stdout.name(),
            current_dir,
            should_replace_last: false,
            terminalId: terminal_id,
        },
        Err(message) => StreamOutput {
            content: message.clone(),
            output_type: Channel::Stderr.name(),
            current_dir,
            should_replace_last: false,
            terminalId: terminal_id,
        },
    }
}

/// The notice that the streamed command of the session `terminal_id` has
/// ended. `code` is the exit code of its process, or `None` where the process
/// ended without one.
pub fn completion_event(terminal_id: String, code: Option<i32>) -> (r: CompletionEvent)
    ensures
        r@ == (CompletionEventView { terminal_id: terminal_id@, code }),
{
    CompletionEvent { terminalId: terminal_id, code }
}

/// A `cd` command is never handed to the shell.
pub proof fn cd_is_never_spawned(command: Seq<char>)
    ensures
        is_cd_command(command) <==> dispatch_of(command) is ChangeDirectory,
{
}

} // verus!
