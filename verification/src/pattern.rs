//! Search patterns for terminal output.
//!
//! The matching itself is done by the `regex` crate. What a search returns is
//! a function of the pattern's text and of the text searched, and the
//! contracts here speak of it under the names `regex_compiles`,
//! `regex_first_match`, `regex_all_matches` and `regex_replace_all`. Nothing
//! in this crate says what these are on given texts.

use regex::Regex;
use vstd::prelude::*;

verus! {

/// `regex::Regex`, a compiled regular expression. Nothing of its inside is
/// known here; it is only carried from `Regex::new` to the searches.
#[verifier::external_type_specification]
#[verifier::external_body]
pub struct ExRegex(Regex);

/// Whether `Regex::new` accepts `source`.
pub uninterp spec fn regex_compiles(source: Seq<char>) -> bool;

/// The text of the leftmost match that `Regex::find` reports for the pattern
/// `source` in `text`, if there is one.
pub uninterp spec fn regex_first_match(source: Seq<char>, text: Seq<char>) -> Option<Seq<char>>;

/// The texts of the successive non-overlapping matches that `Regex::find_iter`
/// yields for the pattern `source` in `text`, in the order of the text.
pub uninterp spec fn regex_all_matches(source: Seq<char>, text: Seq<char>) -> Seq<Seq<char>>;

/// What `Regex::replace_all` makes of `text` for the pattern `source` and the
/// replacement `replacement`.
pub uninterp spec fn regex_replace_all(
    source: Seq<char>,
    text: Seq<char>,
    replacement: Seq<char>,
) -> Seq<char>;

/// Matches one ANSI control sequence: the introducer `ESC [` or the single
/// character U+009B, parameter characters, intermediate characters, and a
/// final character.
pub const ANSI_ESCAPE_PATTERN: &'static str = r"(\x9B|\x1B\[)[0-?]*[ -/]*[@-~]";

/// Matches one progress token of a transfer meter: a ratio of two sizes such
/// as `1.2 MB/3.4 GB`, a percentage such as `45%`, or a rate such as
/// `5.6 MB/s`.
pub const PROGRESS_PATTERN: &'static str =
    r"([\d.]+\s*(?:GB|MB|KB)/[\d.]+\s*(?:GB|MB|KB)|[\d.]+%|[\d.]+\s*(?:GB|MB|KB)/s)";

/// Matches the announcement of a transfer phase, such as
/// `pulling manifest...`.
pub const STATUS_PATTERN: &'static str = r"pulling (?:manifest|[0-9a-f]{12})\.\.\.";

/// A compiled pattern. Its view is the text it was compiled from. A value of
/// this type is made by `compile` alone, so that its compiled form always
/// belongs to its text.
pub(crate) struct Pattern {
    source: String,
    compiled: Regex,
}

impl View for Pattern {
    type V = Seq<char>;

    closed spec fn view(&self) -> Seq<char> {
        self.source@
    }
}

impl Pattern {
    /// Calls `Regex::new`. The pattern is handed out exactly when the call
    /// accepts `source`, which depends on `source` alone, and it then stands
    /// for that text.
    #[verifier::external_body]
    pub(crate) fn compile(source: &str) -> (r: Option<Pattern>)
        ensures
            r is Some <==> regex_compiles(source@),
            r matches Some(p) ==> p@ == source@,
    {
        match Regex::new(source) {
            Ok(compiled) => Some(Pattern { source: source.to_string(), compiled }),
            Err(_) => None,
        }
    }

    /// Calls `Regex::find` and hands out the matched text, which
    /// `Match::as_str` gives. What is found depends on the pattern and on
    /// `text` alone; nothing more is claimed of it.
    #[verifier::external_body]
    pub(crate) fn first_match(&self, text: &str) -> (r: Option<String>)
        ensures
            r.deep_view() == regex_first_match(self@, text@),
    {
        self.compiled.find(text).map(|m| m.as_str().to_string())
    }

    /// Calls `Regex::find_iter` and hands out the matched texts in the order
    /// in which the iterator yields them. What is found depends on the
    /// pattern and on `text` alone; nothing more is claimed of it.
    #[verifier::external_body]
    pub(crate) fn all_matches(&self, text: &str) -> (r: Vec<String>)
        ensures
            r.deep_view() == regex_all_matches(self@, text@),
    {
        self.compiled.find_iter(text).map(|m| m.as_str().to_string()).collect()
    }

    /// Calls `Regex::replace_all`. The text handed out depends on the
    /// pattern, on `text` and on `replacement` alone; nothing more is claimed
    /// of it.
    #[verifier::external_body]
    pub(crate) fn replace_all(&self, text: &str, replacement: &str) -> (r: String)
        ensures
            r@ == regex_replace_all(self@, text@, replacement@),
    {
        self.compiled.replace_all(text, replacement).into_owned()
    }
}

/// The texts of the three patterns of a `LinePatterns`.
pub ghost struct PatternTexts {
    pub escape: Seq<char>,
    pub progress: Seq<char>,
    pub status: Seq<char>,
}

/// The patterns by which output is cleaned and classified: the control
/// sequences to strip, the progress tokens and the status announcements.
pub struct LinePatterns {
    escape: Pattern,
    progress: Pattern,
    status: Pattern,
}

impl View for LinePatterns {
    type V = PatternTexts;

    closed spec fn view(&self) -> PatternTexts {
        PatternTexts { escape: self.escape@, progress: self.progress@, status: self.status@ }
    }
}

/// Whether all three pattern texts compile.
pub open spec fn patterns_compile(texts: PatternTexts) -> bool {
    &&& regex_compiles(texts.escape)
    &&& regex_compiles(texts.progress)
    &&& regex_compiles(texts.status)
}

/// The texts of the built-in patterns.
pub open spec fn builtin_texts() -> PatternTexts {
    PatternTexts {
        escape: ANSI_ESCAPE_PATTERN@,
        progress: PROGRESS_PATTERN@,
        status: STATUS_PATTERN@,
    }
}

impl LinePatterns {
    /// Compiles a set of patterns. Succeeds exactly when all three compile.
    pub fn new(escape: &str, progress: &str, status: &str) -> (r: Option<LinePatterns>)
        ensures
            r is Some <==> patterns_compile(
                PatternTexts { escape: escape@, progress: progress@, status: status@ },
            ),
            r matches Some(p) ==> p@ == (PatternTexts {
                escape: escape@,
                progress: progress@,
                status: status@,
            }),
    {
        let escape = match Pattern::compile(escape) {
            Some(p) => p,
            None => { return None; },
        };
        let progress = match Pattern::compile(progress) {
            Some(p) => p,
            None => { return None; },
        };
        let status = match Pattern::compile(status) {
            Some(p) => p,
            None => { return None; },
        };
        Some(LinePatterns { escape, progress, status })
    }

    /// Compiles the built-in patterns.
    pub fn builtin() -> (r: Option<LinePatterns>)
        ensures
            r is Some <==> patterns_compile(builtin_texts()),
            r matches Some(p) ==> p@ == builtin_texts(),
    {
        LinePatterns::new(ANSI_ESCAPE_PATTERN, PROGRESS_PATTERN, STATUS_PATTERN)
    }

    /// `text` with every control sequence removed.
    pub fn strip_escapes(&self, text: &str) -> (r: String)
        ensures
            r@ == cleaned(self@, text@),
    {
        proof {
            reveal_strlit("");
            assert(""@ =~= Seq::<char>::empty());
        }
        self.escape.replace_all(text, "")
    }

    /// The progress tokens of `line`, in the order of the line.
    pub fn progress_tokens(&self, line: &str) -> (r: Vec<String>)
        ensures
            r.deep_view() == regex_all_matches(self@.progress, line@),
    {
        self.progress.all_matches(line)
    }

    /// The first status announcement in `line`, if there is one.
    pub fn status_token(&self, line: &str) -> (r: Option<String>)
        ensures
            r.deep_view() == regex_first_match(self@.status, line@),
    {
        self.status.first_match(line)
    }
}

/// `text` with every match of the escape pattern removed.
pub open spec fn cleaned(texts: PatternTexts, text: Seq<char>) -> Seq<char> {
    regex_replace_all(texts.escape, text, Seq::<char>::empty())
}

} // verus!
