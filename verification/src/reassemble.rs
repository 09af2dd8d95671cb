//! Reassembly of a stream of output into lines.
//!
//! Output arrives in chunks that end anywhere. Each chunk is decoded, cleaned
//! of control sequences, and cut at carriage returns and line feeds. What
//! stands after the last delimiter waits for the next chunk; at the end of the
//! stream it is flushed as a last line.

use crate::classify::{classify, classify_line, Classified, ClassifiedLine, LineView};
use crate::pattern::{cleaned, regex_all_matches, regex_first_match, LinePatterns, PatternTexts};
use crate::text::{decode_lossy, from_chars, to_chars, utf8_lossy};
use vstd::prelude::*;

verus! {

/// A carriage return or a line feed ends a line.
pub open spec fn is_line_break(c: char) -> bool {
    c == '\r' || c == '\n'
}

/// The state of a scan: the line begun and not yet ended, the status shown
/// last, and the lines made ready so far.
pub ghost struct Scan {
    pub pending: Seq<char>,
    pub last_status: Seq<char>,
    pub lines: Seq<LineView>,
}

/// The classification of the complete line `line` under the patterns `texts`.
pub open spec fn line_result(
    texts: PatternTexts,
    download: bool,
    line: Seq<char>,
    last_status: Seq<char>,
) -> Classified {
    classify(
        download,
        line,
        regex_all_matches(texts.progress, line),
        regex_first_match(texts.status, line),
        last_status,
    )
}

/// The scan after the line begun has ended. An empty line yields nothing.
pub open spec fn end_line(texts: PatternTexts, download: bool, s: Scan) -> Scan {
    if s.pending.len() == 0 {
        s
    } else {
        let c = line_result(texts, download, s.pending, s.last_status);
        Scan { pending: Seq::empty(), last_status: c.last_status, lines: s.lines + c.lines }
    }
}

/// The scan after one more character.
pub open spec fn scan_char(texts: PatternTexts, download: bool, s: Scan, c: char) -> Scan {
    if is_line_break(c) {
        end_line(texts, download, s)
    } else {
        Scan { pending: s.pending.push(c), last_status: s.last_status, lines: s.lines }
    }
}

/// The scan after the characters of `text`, taken in order.
pub open spec fn scan(texts: PatternTexts, download: bool, s: Scan, text: Seq<char>) -> Scan
    decreases text.len(),
{
    if text.len() == 0 {
        s
    } else {
        scan_char(texts, download, scan(texts, download, s, text.drop_last()), text.last())
    }
}

/// A line as a stream carries it: not empty, and free of delimiters.
pub open spec fn is_line(line: Seq<char>) -> bool {
    line.len() > 0 && forall|i: int| 0 <= i < line.len() ==> !is_line_break(#[trigger] line[i])
}

/// The text of a stream that carries `lines`, each followed by the delimiter
/// of the same index in `breaks`.
pub open spec fn terminated(lines: Seq<Seq<char>>, breaks: Seq<char>) -> Seq<char>
    decreases lines.len(),
{
    if lines.len() == 0 {
        Seq::empty()
    } else {
        terminated(lines.drop_last(), breaks.drop_last()) + lines.last() + seq![breaks.last()]
    }
}

/// The scan after the complete lines `lines`, classified one after the other.
pub open spec fn scan_lines(
    texts: PatternTexts,
    download: bool,
    s: Scan,
    lines: Seq<Seq<char>>,
) -> Scan
    decreases lines.len(),
{
    if lines.len() == 0 {
        s
    } else {
        let before = scan_lines(texts, download, s, lines.drop_last());
        let c = line_result(texts, download, lines.last(), before.last_status);
        Scan {
            pending: Seq::empty(),
            last_status: c.last_status,
            lines: before.lines + c.lines,
        }
    }
}

/// The lines `lines` as they are displayed when nothing is classified: each
/// as it is, none overwriting another.
pub open spec fn plain_lines(lines: Seq<Seq<char>>) -> Seq<LineView> {
    Seq::new(lines.len(), |i: int| LineView { content: lines[i], replace_last: false })
}

/// Where a stream is cut into chunks makes no difference: scanning two texts
/// one after the other is scanning the two joined.
pub proof fn scan_is_chunk_independent(
    texts: PatternTexts,
    download: bool,
    s: Scan,
    first: Seq<char>,
    second: Seq<char>,
)
    ensures
        scan(texts, download, s, first + second) == scan(
            texts,
            download,
            scan(texts, download, s, first),
            second,
        ),
    decreases second.len(),
{
    if second.len() == 0 {
        assert(first + second =~= first);
    } else {
        assert((first + second).drop_last() =~= first + second.drop_last());
        assert((first + second).last() == second.last());
        scan_is_chunk_independent(texts, download, s, first, second.drop_last());
    }
}

/// Text without a delimiter yields no line: it is added to the line begun.
pub proof fn scan_without_break(texts: PatternTexts, download: bool, s: Scan, text: Seq<char>)
    requires
        forall|i: int| 0 <= i < text.len() ==> !is_line_break(#[trigger] text[i]),
    ensures
        scan(texts, download, s, text) == (Scan {
            pending: s.pending + text,
            last_status: s.last_status,
            lines: s.lines,
        }),
    decreases text.len(),
{
    if text.len() == 0 {
        assert(s.pending + text =~= s.pending);
    } else {
        scan_without_break(texts, download, s, text.drop_last());
        assert(!is_line_break(text[text.len() - 1]));
        assert((s.pending + text.drop_last()).push(text.last()) =~= s.pending + text);
    }
}

/// A stream that carries complete lines, each followed by one delimiter,
/// yields what the lines yield when they are classified one after the
/// other, and leaves no line begun.
pub proof fn scan_of_complete_lines(
    texts: PatternTexts,
    download: bool,
    s: Scan,
    lines: Seq<Seq<char>>,
    breaks: Seq<char>,
)
    requires
        s.pending.len() == 0,
        breaks.len() == lines.len(),
        forall|i: int| 0 <= i < lines.len() ==> is_line(#[trigger] lines[i]),
        forall|i: int| 0 <= i < breaks.len() ==> is_line_break(#[trigger] breaks[i]),
    ensures
        scan(texts, download, s, terminated(lines, breaks)) == scan_lines(
            texts,
            download,
            s,
            lines,
        ),
        scan_lines(texts, download, s, lines).pending.len() == 0,
    decreases lines.len(),
{
    if lines.len() > 0 {
        let init = lines.drop_last();
        let init_breaks = breaks.drop_last();
        let line = lines.last();
        let stop = seq![breaks.last()];
        scan_of_complete_lines(texts, download, s, init, init_breaks);
        let before = scan(texts, download, s, terminated(init, init_breaks));
        scan_is_chunk_independent(texts, download, s, terminated(init, init_breaks) + line, stop);
        scan_is_chunk_independent(texts, download, s, terminated(init, init_breaks), line);
        assert(is_line(line));
        scan_without_break(texts, download, before, line);
        let begun = scan(texts, download, before, line);
        assert(begun.pending =~= line);
        assert(stop.drop_last() =~= Seq::<char>::empty());
        assert(stop.last() == breaks.last());
        assert(is_line_break(breaks[breaks.len() - 1]));
        assert(scan(texts, download, begun, stop.drop_last()) == begun);
        assert(scan(texts, download, begun, stop) == end_line(texts, download, begun));
    } else {
        assert(s.pending =~= Seq::<char>::empty());
    }
}

/// The complete lines of an ordinary command are displayed one for one, as
/// they are and in the order of the stream.
pub proof fn ordinary_lines_pass_in_order(texts: PatternTexts, s: Scan, lines: Seq<Seq<char>>)
    ensures
        scan_lines(texts, false, s, lines).lines == s.lines + plain_lines(lines),
        scan_lines(texts, false, s, lines).last_status == s.last_status,
        plain_lines(lines).len() == lines.len(),
    decreases lines.len(),
{
    if lines.len() == 0 {
        assert(s.lines + plain_lines(lines) =~= s.lines);
    } else {
        ordinary_lines_pass_in_order(texts, s, lines.drop_last());
        assert(s.lines + plain_lines(lines) =~= s.lines + plain_lines(lines.drop_last()) + seq![
            LineView { content: lines.last(), replace_last: false },
        ]);
    }
}

/// A stream of an ordinary command that carries `lines`, each followed by one
/// delimiter, yields exactly these lines, in order, whatever the chunks were
/// in which it arrived.
pub proof fn ordinary_stream_yields_its_lines(
    texts: PatternTexts,
    s: Scan,
    lines: Seq<Seq<char>>,
    breaks: Seq<char>,
)
    requires
        s.pending.len() == 0,
        breaks.len() == lines.len(),
        forall|i: int| 0 <= i < lines.len() ==> is_line(#[trigger] lines[i]),
        forall|i: int| 0 <= i < breaks.len() ==> is_line_break(#[trigger] breaks[i]),
    ensures
        scan(texts, false, s, terminated(lines, breaks)) == (Scan {
            pending: Seq::empty(),
            last_status: s.last_status,
            lines: s.lines + plain_lines(lines),
        }),
{
    scan_of_complete_lines(texts, false, s, lines, breaks);
    ordinary_lines_pass_in_order(texts, s, lines);
    assert(scan_lines(texts, false, s, lines).pending =~= Seq::<char>::empty());
}

/// What a `LineReassembler` holds.
pub ghost struct ReassemblerView {
    pub download: bool,
    pub pending: Seq<char>,
    pub last_status: Seq<char>,
}

/// The scan that starts from the state `v` with no line made ready.
pub open spec fn scan_from(v: ReassemblerView) -> Scan {
    Scan { pending: v.pending, last_status: v.last_status, lines: Seq::empty() }
}

/// The state in which the scan `s` leaves a reassembler.
pub open spec fn state_after(download: bool, s: Scan) -> ReassemblerView {
    ReassemblerView { download, pending: s.pending, last_status: s.last_status }
}

/// The line reassembler of one output channel.
pub struct LineReassembler {
    download: bool,
    pending: Vec<char>,
    last_status: String,
}

impl View for LineReassembler {
    type V = ReassemblerView;

    closed spec fn view(&self) -> ReassemblerView {
        ReassemblerView {
            download: self.download,
            pending: self.pending@,
            last_status: self.last_status@,
        }
    }
}

impl LineReassembler {
    /// A reassembler at the start of a stream. `download` says whether the
    /// command that writes the stream is a download-style command.
    pub fn new(download: bool) -> (r: LineReassembler)
        ensures
            r@ == (ReassemblerView {
                download,
                pending: Seq::empty(),
                last_status: Seq::empty(),
            }),
    {
        LineReassembler { download, pending: Vec::new(), last_status: String::new() }
    }

    /// Whether the stream is that of a download-style command.
    pub fn is_download(&self) -> (b: bool)
        ensures
            b == self@.download,
    {
        self.download
    }

    /// The line begun and not yet ended.
    pub fn pending(&self) -> (s: String)
        ensures
            s@ == self@.pending,
    {
        let s = from_chars(&self.pending, 0, self.pending.len());
        proof {
            assert(self.pending@.subrange(0, self.pending@.len() as int) =~= self.pending@);
        }
        s
    }

    /// Ends the line begun and adds what it yields to `out`.
    fn flush_line(&mut self, patterns: &LinePatterns, out: &mut Vec<ClassifiedLine>)
        ensures
            final(self)@.download == old(self)@.download,
            (Scan {
                pending: final(self)@.pending,
                last_status: final(self)@.last_status,
                lines: final(out).deep_view(),
            }) == end_line(
                patterns@,
                old(self)@.download,
                Scan {
                    pending: old(self)@.pending,
                    last_status: old(self)@.last_status,
                    lines: old(out).deep_view(),
                },
            ),
    {
        if self.pending.len() == 0 {
            return ;
        }
        let line = from_chars(&self.pending, 0, self.pending.len());
        proof {
            assert(self.pending@.subrange(0, self.pending@.len() as int) =~= self.pending@);
        }
        let tokens = if self.download {
            patterns.progress_tokens(line.as_str())
        } else {
            Vec::new()
        };
        let status = if self.download {
            patterns.status_token(line.as_str())
        } else {
            None
        };
        let ghost before = out.deep_view();
        let mut lines = classify_line(
            self.download,
            line.as_str(),
            &tokens,
            &status,
            &mut self.last_status,
        );
        let ghost added = lines.deep_view();
        out.append(&mut lines);
        self.pending.clear();
        proof {
            assert(out.deep_view() =~= before + added);
        }
    }

    /// Takes in text that is already decoded and cleaned. Hands out the lines
    /// that the text completes, in order.
    pub fn feed_text(&mut self, patterns: &LinePatterns, text: &str) -> (r: Vec<ClassifiedLine>)
        ensures
            final(self)@ == state_after(
                old(self)@.download,
                scan(patterns@, old(self)@.download, scan_from(old(self)@), text@),
            ),
            r.deep_view() == scan(
                patterns@,
                old(self)@.download,
                scan_from(old(self)@),
                text@,
            ).lines,
    {
        let chars = to_chars(text);
        let mut out: Vec<ClassifiedLine> = Vec::new();
        let ghost start = scan_from(self@);
        let ghost download = self.download;
        let mut i: usize = 0;
        proof {
            assert(out.deep_view() =~= Seq::<LineView>::empty());
        }
        while i < chars.len()
            invariant
                i <= chars.len(),
                chars@ == text@,
                self.download == download,
                (Scan {
                    pending: self.pending@,
                    last_status: self.last_status@,
                    lines: out.deep_view(),
                }) == scan(patterns@, download, start, chars@.take(i as int)),
            decreases chars.len() - i,
        {
            let c = chars[i];
            proof {
                let next = chars@.take(i + 1);
                assert(next.drop_last() =~= chars@.take(i as int));
                assert(next.last() == c);
            }
            if c == '\r' || c == '\n' {
                self.flush_line(patterns, &mut out);
            } else {
                self.pending.push(c);
            }
            i += 1;
        }
        proof {
            assert(chars@.take(chars.len() as int) =~= chars@);
        }
        out
    }

    /// Takes in one chunk of raw output: decodes it, strips the control
    /// sequences, and hands out the lines that it completes, in order.
    pub fn feed(&mut self, patterns: &LinePatterns, chunk: &[u8]) -> (r: Vec<ClassifiedLine>)
        ensures
            final(self)@ == state_after(
                old(self)@.download,
                scan(
                    patterns@,
                    old(self)@.download,
                    scan_from(old(self)@),
                    cleaned(patterns@, utf8_lossy(chunk@)),
                ),
            ),
            r.deep_view() == scan(
                patterns@,
                old(self)@.download,
                scan_from(old(self)@),
                cleaned(patterns@, utf8_lossy(chunk@)),
            ).lines,
    {
        let decoded = decode_lossy(chunk);
        let text = patterns.strip_escapes(decoded.as_str());
        self.feed_text(patterns, text.as_str())
    }

    /// Ends the stream: what stands after the last delimiter is classified as
    /// a last line.
    pub fn finish(&mut self, patterns: &LinePatterns) -> (r: Vec<ClassifiedLine>)
        ensures
            final(self)@ == state_after(
                old(self)@.download,
                end_line(patterns@, old(self)@.download, scan_from(old(self)@)),
            ),
            r.deep_view() == end_line(
                patterns@,
                old(self)@.download,
                scan_from(old(self)@),
            ).lines,
    {
        let mut out: Vec<ClassifiedLine> = Vec::new();
        proof {
            assert(out.deep_view() =~= Seq::<LineView>::empty());
        }
        self.flush_line(patterns, &mut out);
        out
    }
}

} // verus!
