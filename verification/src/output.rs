//! The values that leave the backend: the result of a one-shot command, the
//! events of a streamed one, and the notice that ends a stream.

use vstd::prelude::*;
use vstd::string::*;

verus! {

/// The two output channels of a child process.
#[derive(Clone, Copy, Debug, PartialEq, Eq, Structural)]
pub enum Channel {
    Stdout,
    Stderr,
}

/// The name under which a channel is reported.
pub open spec fn channel_name(channel: Channel) -> Seq<char> {
    match channel {
        Channel::Stdout => "stdout"@,
        Channel::Stderr => "stderr"@,
    }
}

impl Channel {
    /// The name under which this channel is reported: `stdout` or `stderr`.
    pub fn name(&self) -> (s: String)
        ensures
            s@ == channel_name(*self),
    {
        match self {
            Channel::Stdout => String::from_str("stdout"),
            Channel::Stderr => String::from_str("stderr"),
        }
    }
}

/// The result of a command that ran to its end before anything was reported.
#[derive(Clone, Debug, PartialEq, Eq)]
pub struct CommandOutput {
    pub stdout: String,
    pub stderr: String,
    pub current_dir: String,
}

/// What a `CommandOutput` holds.
pub ghost struct CommandOutputView {
    pub stdout: Seq<char>,
    pub stderr: Seq<char>,
    pub current_dir: Seq<char>,
}

impl View for CommandOutput {
    type V = CommandOutputView;

    open spec fn view(&self) -> CommandOutputView {
        CommandOutputView {
            stdout: self.stdout@,
            stderr: self.stderr@,
            current_dir: self.current_dir@,
        }
    }
}

/// One piece of output of a streamed command, as the display receives it.
#[allow(non_snake_case)]
#[derive(Clone, Debug, PartialEq, Eq)]
pub struct StreamOutput {
    pub content: String,
    pub output_type: String,
    pub current_dir: String,
    pub should_replace_last: bool,
    pub terminalId: String,
}

/// What a `StreamOutput` holds.
pub ghost struct StreamOutputView {
    pub content: Seq<char>,
    pub output_type: Seq<char>,
    pub current_dir: Seq<char>,
    pub should_replace_last: bool,
    pub terminal_id: Seq<char>,
}

impl View for StreamOutput {
    type V = StreamOutputView;

    open spec fn view(&self) -> StreamOutputView {
        StreamOutputView {
            content: self.content@,
            output_type: self.output_type@,
            current_dir: self.current_dir@,
            should_replace_last: self.should_replace_last,
            terminal_id: self.terminalId@,
        }
    }
}

impl DeepView for StreamOutput {
    type V = StreamOutputView;

    open spec fn deep_view(&self) -> StreamOutputView {
        self@
    }
}

/// The notice that a streamed command has ended, with the exit code of its
/// process where the process had one.
#[allow(non_snake_case)]
#[derive(Clone, Debug, PartialEq, Eq)]
pub struct CompletionEvent {
    pub terminalId: String,
    pub code: Option<i32>,
}

/// What a `CompletionEvent` holds.
pub ghost struct CompletionEventView {
    pub terminal_id: Seq<char>,
    pub code: Option<i32>,
}

impl View for CompletionEvent {
    type V = CompletionEventView;

    open spec fn view(&self) -> CompletionEventView {
        CompletionEventView { terminal_id: self.terminalId@, code: self.code }
    }
}

} // verus!
