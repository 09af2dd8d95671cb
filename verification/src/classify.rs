//! Classification of one complete line of output.
//!
//! A line of an ordinary command is shown as it is. A line of a
//! download-style command is searched for progress tokens and for a status
//! announcement: a status is shown only when it differs from the status shown
//! last, the progress tokens overwrite the line shown before them, and a line
//! that holds neither is shown as it is unless it is blank.

use crate::text::{blank, is_blank};
use vstd::prelude::*;
use vstd::string::*;

verus! {

/// A line ready for display, and whether it overwrites the line displayed
/// before it.
#[derive(Clone, Debug, PartialEq, Eq)]
pub struct ClassifiedLine {
    pub content: String,
    pub replace_last: bool,
}

/// What a `ClassifiedLine` holds.
pub ghost struct LineView {
    pub content: Seq<char>,
    pub replace_last: bool,
}

impl View for ClassifiedLine {
    type V = LineView;

    open spec fn view(&self) -> LineView {
        LineView { content: self.content@, replace_last: self.replace_last }
    }
}

impl DeepView for ClassifiedLine {
    type V = LineView;

    open spec fn deep_view(&self) -> LineView {
        self@
    }
}

/// What the classification of one line yields: the lines to display, in
/// order, and the status shown last from then on.
pub ghost struct Classified {
    pub lines: Seq<LineView>,
    pub last_status: Seq<char>,
}

/// The progress tokens of a line as they are displayed: each followed by one
/// space.
pub open spec fn progress_text(tokens: Seq<Seq<char>>) -> Seq<char>
    decreases tokens.len(),
{
    if tokens.len() == 0 {
        Seq::empty()
    } else {
        progress_text(tokens.drop_last()) + tokens.last() + seq![' ']
    }
}

/// A status announcement is shown when it is not empty and differs from the
/// one shown last.
pub open spec fn status_changed(status: Option<Seq<char>>, last_status: Seq<char>) -> bool {
    status matches Some(s) && s.len() > 0 && s != last_status
}

/// The classification of the non-empty line `line`, whose progress tokens are
/// `tokens` and whose status announcement is `status`, after `last_status` was
/// shown.
pub open spec fn classify(
    download: bool,
    line: Seq<char>,
    tokens: Seq<Seq<char>>,
    status: Option<Seq<char>>,
    last_status: Seq<char>,
) -> Classified {
    if !download {
        Classified { lines: seq![LineView { content: line, replace_last: false }], last_status }
    } else {
        let announced = if status_changed(status, last_status) {
            seq![LineView { content: status->0, replace_last: false }]
        } else {
            Seq::empty()
        };
        let shown = if tokens.len() > 0 {
            seq![LineView { content: progress_text(tokens), replace_last: true }]
        } else if !is_blank(line) && status is None {
            seq![LineView { content: line, replace_last: false }]
        } else {
            Seq::empty()
        };
        Classified {
            lines: announced + shown,
            last_status: if status_changed(status, last_status) {
                status->0
            } else {
                last_status
            },
        }
    }
}

/// A line of a download-style command that holds progress tokens ends in
/// exactly one line that overwrites the line displayed before it, and this
/// line shows the tokens. Nothing else that the line yields overwrites.
pub proof fn progress_overwrites_last_line(
    line: Seq<char>,
    tokens: Seq<Seq<char>>,
    status: Option<Seq<char>>,
    last_status: Seq<char>,
)
    requires
        tokens.len() > 0,
    ensures
        classify(true, line, tokens, status, last_status).lines.len() >= 1,
        classify(true, line, tokens, status, last_status).lines.last() == (LineView {
            content: progress_text(tokens),
            replace_last: true,
        }),
        forall|i: int|
            0 <= i < classify(true, line, tokens, status, last_status).lines.len() - 1
                ==> !(#[trigger] classify(
                true,
                line,
                tokens,
                status,
                last_status,
            ).lines[i]).replace_last,
{
}

/// Only the progress tokens of a download-style command overwrite: a line
/// that is displayed in place of the last one shows progress tokens.
pub proof fn only_progress_overwrites(
    download: bool,
    line: Seq<char>,
    tokens: Seq<Seq<char>>,
    status: Option<Seq<char>>,
    last_status: Seq<char>,
    i: int,
)
    requires
        0 <= i < classify(download, line, tokens, status, last_status).lines.len(),
        classify(download, line, tokens, status, last_status).lines[i].replace_last,
    ensures
        download,
        tokens.len() > 0,
        classify(download, line, tokens, status, last_status).lines[i].content == progress_text(
            tokens,
        ),
{
}

/// The same status announcement is shown once: a line that announces the
/// status shown last announces nothing.
pub proof fn repeated_status_is_silent(
    line: Seq<char>,
    status: Seq<char>,
)
    ensures
        classify(true, line, Seq::empty(), Some(status), status).lines.len() == 0,
        classify(true, line, Seq::empty(), Some(status), status).last_status == status,
{
}

/// The displayed form of `tokens`.
pub fn join_progress(tokens: &Vec<String>) -> (r: String)
    ensures
        r@ == progress_text(tokens.deep_view()),
{
    let mut r = String::new();
    let mut i: usize = 0;
    while i < tokens.len()
        invariant
            i <= tokens.len(),
            r@ == progress_text(tokens.deep_view().take(i as int)),
        decreases tokens.len() - i,
    {
        proof {
            let next = tokens.deep_view().take(i + 1);
            assert(next.drop_last() =~= tokens.deep_view().take(i as int));
            assert(next.last() == tokens@[i as int]@);
        }
        r.append(tokens[i].as_str());
        r.push(' ');
        i += 1;
    }
    proof {
        assert(tokens.deep_view().take(tokens.len() as int) =~= tokens.deep_view());
    }
    r
}

/// Classifies one complete, non-empty line. `tokens` and `status` are what
/// the progress and status patterns found in it; `last_status` is the status
/// shown last and is brought up to date.
pub fn classify_line(
    download: bool,
    line: &str,
    tokens: &Vec<String>,
    status: &Option<String>,
    last_status: &mut String,
) -> (r: Vec<ClassifiedLine>)
    ensures
        (Classified { lines: r.deep_view(), last_status: final(last_status)@ }) == classify(
            download,
            line@,
            tokens.deep_view(),
            status.deep_view(),
            old(last_status)@,
        ),
{
    let mut out: Vec<ClassifiedLine> = Vec::new();
    if !download {
        out.push(ClassifiedLine { content: line.to_owned(), replace_last: false });
        proof {
            assert(out.deep_view() =~= seq![LineView { content: line@, replace_last: false }]);
        }
        return out;
    }
    let ghost before = last_status@;
    let ghost expected = classify(
        download,
        line@,
        tokens.deep_view(),
        status.deep_view(),
        before,
    );
    match status {
        Some(s) => {
            if s.as_str().unicode_len() > 0 && *s != *last_status {
                out.push(ClassifiedLine { content: s.clone(), replace_last: false });
                *last_status = s.clone();
            }
        },
        None => {},
    }
    let ghost announced = out.deep_view();
    proof {
        if status_changed(status.deep_view(), before) {
            assert(announced =~= seq![LineView { content: status->0@, replace_last: false }]);
        } else {
            assert(announced =~= Seq::<LineView>::empty());
        }
    }
    if tokens.len() > 0 {
        let progress = join_progress(tokens);
        out.push(ClassifiedLine { content: progress, replace_last: true });
        proof {
            assert(out.deep_view() =~= announced + seq![
                LineView { content: progress_text(tokens.deep_view()), replace_last: true },
            ]);
        }
    } else if !blank(line) && status.is_none() {
        out.push(ClassifiedLine { content: line.to_owned(), replace_last: false });
        proof {
            assert(out.deep_view() =~= announced + seq![
                LineView { content: line@, replace_last: false },
            ]);
        }
    } else {
        proof {
            assert(out.deep_view() =~= announced + Seq::<LineView>::empty());
        }
    }
    proof {
        assert(out.deep_view() == expected.lines);
    }
    out
}

} // verus!
