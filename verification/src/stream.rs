//! One output channel of a streamed command, from the first read to the last.
//!
//! The caller reads the channel and reports each read as an event: data, the
//! end of the stream, or a failure. The reader answers each event with the
//! outputs to display, in order. After the end or a failure the channel is
//! closed and yields nothing more.

use crate::classify::{ClassifiedLine, LineView};
use crate::output::{channel_name, Channel, StreamOutput, StreamOutputView};
use crate::pattern::{cleaned, LinePatterns, PatternTexts};
use crate::reassemble::{
    end_line, scan, scan_from, state_after, LineReassembler, ReassemblerView,
};
use crate::text::utf8_lossy;
use vstd::prelude::*;
use vstd::string::*;

verus! {

/// What a read of a channel brought.
#[derive(Clone, Debug, PartialEq, Eq)]
pub enum ReadEvent {
    /// The bytes that were read.
    Data(Vec<u8>),
    /// The stream has ended.
    End,
    /// The read failed, with the text of the failure.
    Failed(String),
}

/// What a `ReadEvent` holds.
pub ghost enum ReadEventView {
    Data(Seq<u8>),
    End,
    Failed(Seq<char>),
}

impl View for ReadEvent {
    type V = ReadEventView;

    open spec fn view(&self) -> ReadEventView {
        match self {
            ReadEvent::Data(bytes) => ReadEventView::Data(bytes@),
            ReadEvent::End => ReadEventView::End,
            ReadEvent::Failed(message) => ReadEventView::Failed(message@),
        }
    }
}

/// What a `ChannelReader` holds.
pub ghost struct ReaderView {
    pub channel: Channel,
    pub current_dir: Seq<char>,
    pub terminal_id: Seq<char>,
    pub lines: ReassemblerView,
    pub open: bool,
}

/// The reader of one output channel of one streamed command.
pub struct ChannelReader {
    channel: Channel,
    current_dir: String,
    terminal_id: String,
    lines: LineReassembler,
    open: bool,
}

impl View for ChannelReader {
    type V = ReaderView;

    closed spec fn view(&self) -> ReaderView {
        ReaderView {
            channel: self.channel,
            current_dir: self.current_dir@,
            terminal_id: self.terminal_id@,
            lines: self.lines@,
            open: self.open,
        }
    }
}

/// A line as the display receives it: tagged with its channel, with the
/// working directory and with the session it belongs to.
pub open spec fn stream_output(
    line: LineView,
    channel: Channel,
    current_dir: Seq<char>,
    terminal_id: Seq<char>,
) -> StreamOutputView {
    StreamOutputView {
        content: line.content,
        output_type: channel_name(channel),
        current_dir,
        should_replace_last: line.replace_last,
        terminal_id,
    }
}

/// The lines `lines` as the display receives them, one for one and in order.
pub open spec fn stream_outputs(
    lines: Seq<LineView>,
    channel: Channel,
    current_dir: Seq<char>,
    terminal_id: Seq<char>,
) -> Seq<StreamOutputView> {
    Seq::new(lines.len(), |i: int| stream_output(lines[i], channel, current_dir, terminal_id))
}

/// The text that reports a failed read of `channel`.
pub open spec fn read_error_text(channel: Channel, message: Seq<char>) -> Seq<char> {
    "Error reading "@ + channel_name(channel) + ": "@ + message
}

/// The output that reports a failed read of `channel`. It is displayed as
/// error output, whichever channel failed.
pub open spec fn read_error_output(
    channel: Channel,
    message: Seq<char>,
    current_dir: Seq<char>,
    terminal_id: Seq<char>,
) -> StreamOutputView {
    StreamOutputView {
        content: read_error_text(channel, message),
        output_type: channel_name(Channel::Stderr),
        current_dir,
        should_replace_last: false,
        terminal_id,
    }
}

/// A reader after an event, and the outputs that the event yields.
pub ghost struct ReadStep {
    pub reader: ReaderView,
    pub outputs: Seq<StreamOutputView>,
}

/// What the event `event` does to the reader `v`.
pub open spec fn read_step(texts: PatternTexts, v: ReaderView, event: ReadEventView) -> ReadStep {
    if !v.open {
        ReadStep { reader: v, outputs: Seq::empty() }
    } else {
        match event {
            ReadEventView::Data(bytes) => {
                let s = scan(
                    texts,
                    v.lines.download,
                    scan_from(v.lines),
                    cleaned(texts, utf8_lossy(bytes)),
                );
                ReadStep {
                    reader: ReaderView {
                        channel: v.channel,
                        current_dir: v.current_dir,
                        terminal_id: v.terminal_id,
                        lines: state_after(v.lines.download, s),
                        open: true,
                    },
                    outputs: stream_outputs(s.lines, v.channel, v.current_dir, v.terminal_id),
                }
            },
            ReadEventView::End => {
                let s = end_line(texts, v.lines.download, scan_from(v.lines));
                ReadStep {
                    reader: ReaderView {
                        channel: v.channel,
                        current_dir: v.current_dir,
                        terminal_id: v.terminal_id,
                        lines: state_after(v.lines.download, s),
                        open: false,
                    },
                    outputs: stream_outputs(s.lines, v.channel, v.current_dir, v.terminal_id),
                }
            },
            ReadEventView::Failed(message) => ReadStep {
                reader: ReaderView {
                    channel: v.channel,
                    current_dir: v.current_dir,
                    terminal_id: v.terminal_id,
                    lines: v.lines,
                    open: false,
                },
                outputs: seq![
                    read_error_output(v.channel, message, v.current_dir, v.terminal_id),
                ],
            },
        }
    }
}

/// A closed channel yields nothing and stays as it is, whatever is reported
/// of it.
pub proof fn closed_channel_is_silent(texts: PatternTexts, v: ReaderView, event: ReadEventView)
    requires
        !v.open,
    ensures
        read_step(texts, v, event) == (ReadStep { reader: v, outputs: Seq::empty() }),
{
}

/// The end of the stream and a failed read close the channel; data leaves it
/// open.
pub proof fn channel_closes_at_end(texts: PatternTexts, v: ReaderView, event: ReadEventView)
    requires
        v.open,
    ensures
        read_step(texts, v, event).reader.open == (event is Data),
        event is Failed ==> read_step(texts, v, event).outputs.len() == 1,
{
}

/// The outputs of a channel carry the channel, the working directory and the
/// session identifier of that channel's reader.
pub proof fn outputs_are_tagged(
    lines: Seq<LineView>,
    channel: Channel,
    current_dir: Seq<char>,
    terminal_id: Seq<char>,
    i: int,
)
    requires
        0 <= i < lines.len(),
    ensures
        stream_outputs(lines, channel, current_dir, terminal_id).len() == lines.len(),
        stream_outputs(lines, channel, current_dir, terminal_id)[i].content == lines[i].content,
        stream_outputs(lines, channel, current_dir, terminal_id)[i].should_replace_last
            == lines[i].replace_last,
        stream_outputs(lines, channel, current_dir, terminal_id)[i].output_type == channel_name(
            channel,
        ),
        stream_outputs(lines, channel, current_dir, terminal_id)[i].current_dir == current_dir,
        stream_outputs(lines, channel, current_dir, terminal_id)[i].terminal_id == terminal_id,
{
}

/// The lines `lines` as the display receives them.
pub fn to_stream_outputs(
    lines: &Vec<ClassifiedLine>,
    channel: Channel,
    current_dir: &str,
    terminal_id: &str,
) -> (r: Vec<StreamOutput>)
    ensures
        r.deep_view() == stream_outputs(lines.deep_view(), channel, current_dir@, terminal_id@),
{
    let mut out: Vec<StreamOutput> = Vec::new();
    let mut i: usize = 0;
    while i < lines.len()
        invariant
            i <= lines.len(),
            out.len() == i,
            forall|j: int|
                0 <= j < i ==> (#[trigger] out@[j])@ == stream_output(
                    lines@[j]@,
                    channel,
                    current_dir@,
                    terminal_id@,
                ),
        decreases lines.len() - i,
    {
        out.push(
            StreamOutput {
                content: lines[i].content.clone(),
                output_type: channel.name(),
                current_dir: current_dir.to_owned(),
                should_replace_last: lines[i].replace_last,
                terminalId: terminal_id.to_owned(),
            },
        );
        i += 1;
    }
    proof {
        assert(out.deep_view() =~= stream_outputs(
            lines.deep_view(),
            channel,
            current_dir@,
            terminal_id@,
        ));
    }
    out
}

/// The output that reports a failed read of `channel`, whose failure reads
/// `message`.
pub fn read_error(channel: Channel, message: &str, current_dir: &str, terminal_id: &str) -> (r:
    StreamOutput)
    ensures
        r@ == read_error_output(channel, message@, current_dir@, terminal_id@),
{
    let mut content = String::from_str("Error reading ");
    let name = channel.name();
    content.append(name.as_str());
    content.append(": ");
    content.append(message);
    StreamOutput {
        content,
        output_type: Channel::Stderr.name(),
        current_dir: current_dir.to_owned(),
        should_replace_last: false,
        terminalId: terminal_id.to_owned(),
    }
}

impl ChannelReader {
    /// A reader for the channel `channel` of a command that runs in the
    /// session `terminal_id`. `download` says whether the command is a
    /// download-style command, and `current_dir` is the working directory as
    /// it is displayed.
    pub fn new(channel: Channel, download: bool, current_dir: String, terminal_id: String) -> (r:
        ChannelReader)
        ensures
            r@ == (ReaderView {
                channel,
                current_dir: current_dir@,
                terminal_id: terminal_id@,
                lines: ReassemblerView {
                    download,
                    pending: Seq::empty(),
                    last_status: Seq::empty(),
                },
                open: true,
            }),
    {
        ChannelReader {
            channel,
            current_dir,
            terminal_id,
            lines: LineReassembler::new(download),
            open: true,
        }
    }

    /// Whether the channel is still to be read.
    pub fn is_open(&self) -> (b: bool)
        ensures
            b == self@.open,
    {
        self.open
    }

    /// Takes in what a read of the channel brought and hands out the outputs
    /// that it yields, in order.
    pub fn on_read(&mut self, patterns: &LinePatterns, event: &ReadEvent) -> (r: Vec<StreamOutput>)
        ensures
            final(self)@ == read_step(patterns@, old(self)@, event@).reader,
            r.deep_view() == read_step(patterns@, old(self)@, event@).outputs,
    {
        if !self.open {
            let out: Vec<StreamOutput> = Vec::new();
            proof {
                assert(out.deep_view() =~= Seq::<StreamOutputView>::empty());
            }
            return out;
        }
        match event {
            ReadEvent::Data(bytes) => {
                let lines = self.lines.feed(patterns, bytes.as_slice());
                to_stream_outputs(
                    &lines,
                    self.channel,
                    self.current_dir.as_str(),
                    self.terminal_id.as_str(),
                )
            },
            ReadEvent::End => {
                let lines = self.lines.finish(patterns);
                self.open = false;
                to_stream_outputs(
                    &lines,
                    self.channel,
                    self.current_dir.as_str(),
                    self.terminal_id.as_str(),
                )
            },
            ReadEvent::Failed(message) => {
                self.open = false;
                let mut out: Vec<StreamOutput> = Vec::new();
                out.push(
                    read_error(
                        self.channel,
                        message.as_str(),
                        self.current_dir.as_str(),
                        self.terminal_id.as_str(),
                    ),
                );
                proof {
                    assert(out.deep_view() =~= seq![
                        read_error_output(
                            self.channel,
                            message@,
                            self.current_dir@,
                            self.terminal_id@,
                        ),
                    ]);
                }
                out
            },
        }
    }
}

} // verus!
