//! The working-directory tracker.
//!
//! `cd` is served without a child process. The tracker works on paths as
//! text, with `/` as the separator. Whatever needs the file system is asked
//! of the caller: the canonical form of a path, and whether a path is an
//! existing directory. The tracker moves only to a path that the caller
//! reports as an existing directory.

use crate::text::{
    char_is_whitespace, contains_text, from_chars, occurs_at, starts_with, to_chars, trim,
    trim_bounds, trimmed,
};
use vstd::prelude::*;
use vstd::string::*;

verus! {

/// A path is absolute when it begins with the separator.
pub open spec fn is_absolute(path: Seq<char>) -> bool {
    path.len() > 0 && path[0] == '/'
}

/// `rel` joined onto `base`: an absolute `rel` stands for itself; otherwise
/// it follows `base`, with one separator between the two where `base` is not
/// empty and does not already end in one.
pub open spec fn joined(base: Seq<char>, rel: Seq<char>) -> Seq<char> {
    if is_absolute(rel) {
        rel
    } else if base.len() > 0 && base.last() != '/' {
        base + seq!['/'] + rel
    } else {
        base + rel
    }
}

/// Whether a command, once trimmed, begins with the word `cd`.
pub open spec fn is_cd_command(command: Seq<char>) -> bool {
    let t = trimmed(command);
    t.len() >= 2 && t[0] == 'c' && t[1] == 'd' && (t.len() == 2 || char_is_whitespace(t[2]))
}

/// The argument of a `cd` command: what follows the word `cd`, trimmed, and
/// `~` where nothing follows.
pub open spec fn cd_argument(command: Seq<char>) -> Seq<char> {
    let t = trimmed(command);
    if t.len() < 2 {
        seq!['~']
    } else {
        let rest = trimmed(t.skip(2));
        if rest.len() == 0 {
            seq!['~']
        } else {
            rest
        }
    }
}

/// An empty argument and `~` alone name the home directory.
pub open spec fn names_home(argument: Seq<char>) -> bool {
    argument.len() == 0 || argument == seq!['~']
}

/// An argument is relative when it begins neither with `~` nor with the
/// separator.
pub open spec fn is_relative(argument: Seq<char>) -> bool {
    argument.len() > 0 && argument[0] != '~' && argument[0] != '/'
}

/// What follows the tilde of an argument, without the one separator that may
/// stand between the tilde and the rest.
pub open spec fn after_tilde(argument: Seq<char>) -> Seq<char> {
    let rest = argument.skip(1);
    if rest.len() > 0 && rest[0] == '/' {
        rest.skip(1)
    } else {
        rest
    }
}

/// The path that a `cd` argument names, before the file system is asked.
pub open spec fn target_path(
    current: Seq<char>,
    argument: Seq<char>,
    home: Seq<char>,
) -> Seq<char> {
    if names_home(argument) {
        home
    } else if argument[0] == '~' {
        joined(home, after_tilde(argument))
    } else if argument[0] == '/' {
        argument
    } else {
        joined(current, argument)
    }
}

/// The text before the argument in the message of a failed `cd`.
pub open spec fn cd_error_prefix() -> Seq<char> {
    "cd: no such directory: "@
}

/// The message of a `cd` whose target is no directory.
pub open spec fn cd_error(argument: Seq<char>) -> Seq<char> {
    cd_error_prefix() + argument
}

/// A path lies under the home directory when it is the home directory or
/// continues it below a separator.
pub open spec fn under_home(path: Seq<char>, home: Seq<char>) -> bool {
    home.is_prefix_of(path) && (path.len() == home.len() || path[home.len() as int] == '/' || (
    home.len() > 0 && home.last() == '/'))
}

/// A directory as it is displayed: its canonical form where there is one,
/// with `~` in place of the home directory where it lies under it, and the
/// path as it is where there is no canonical form.
pub open spec fn display_dir(
    path: Seq<char>,
    canonical: Option<Seq<char>>,
    home: Seq<char>,
) -> Seq<char> {
    match canonical {
        Some(c) => if under_home(c, home) {
            seq!['~'] + c.skip(home.len() as int)
        } else {
            c
        },
        None => path,
    }
}

/// Every `cd` argument names an absolute path when the home directory and
/// the current directory are absolute.
pub proof fn target_is_absolute(current: Seq<char>, argument: Seq<char>, home: Seq<char>)
    requires
        is_absolute(current),
        is_absolute(home),
    ensures
        is_absolute(target_path(current, argument, home)),
{
}

/// An absolute argument is taken as it is, whatever the current directory
/// and the home directory are.
pub proof fn absolute_argument_is_verbatim(
    current: Seq<char>,
    argument: Seq<char>,
    home: Seq<char>,
)
    requires
        is_absolute(argument),
    ensures
        target_path(current, argument, home) == argument,
{
}

/// The path to move to is absolute when the home directory and the current
/// directory are, and when the file system names canonical forms by absolute
/// paths. For a relative argument it is the canonical form wherever there is
/// one.
pub proof fn candidate_is_absolute(
    current: Seq<char>,
    argument: Seq<char>,
    home: Seq<char>,
    canonical: Option<Seq<char>>,
)
    requires
        is_absolute(current),
        is_absolute(home),
        canonical matches Some(c) ==> is_absolute(c),
    ensures
        is_absolute(
            candidate_path(
                CdTargetView {
                    path: target_path(current, argument, home),
                    canonicalize: is_relative(argument),
                },
                canonical,
            ),
        ),
        is_relative(argument) && canonical is Some ==> candidate_path(
            CdTargetView {
                path: target_path(current, argument, home),
                canonicalize: is_relative(argument),
            },
            canonical,
        ) == canonical->0,
{
}

/// The message of a failed `cd` holds the argument as it was given.
pub proof fn cd_error_names_argument(argument: Seq<char>)
    ensures
        contains_text(cd_error(argument), argument),
{
    let at = cd_error_prefix().len() as int;
    assert(cd_error(argument).subrange(at, at + argument.len()) =~= argument);
    assert(occurs_at(cd_error(argument), argument, at));
}

/// The home directory itself is displayed as `~`.
pub proof fn home_displays_as_tilde(path: Seq<char>, home: Seq<char>)
    ensures
        display_dir(path, Some(home), home) == seq!['~'],
{
    assert(home.is_prefix_of(home));
    assert(seq!['~'] + home.skip(home.len() as int) =~= seq!['~']);
}

/// The home directory: the value of the environment where there is one, the
/// root of the file system where there is none.
pub fn home_directory(from_environment: Option<String>) -> (home: String)
    ensures
        home@ == (match from_environment {
            Some(h) => h@,
            None => seq!['/'],
        }),
{
    match from_environment {
        Some(h) => h,
        None => {
            let mut root = String::new();
            root.push('/');
            root
        },
    }
}

/// `rel` joined onto `base`.
pub fn join_path(base: &str, rel: &str) -> (r: String)
    ensures
        r@ == joined(base@, rel@),
{
    let b = to_chars(base);
    let r = to_chars(rel);
    if r.len() > 0 && r[0] == '/' {
        rel.to_owned()
    } else if b.len() > 0 && b[b.len() - 1] != '/' {
        let mut s = base.to_owned();
        s.push('/');
        s.append(rel);
        s
    } else {
        let mut s = base.to_owned();
        s.append(rel);
        s
    }
}

/// Whether `command` is a `cd` command.
pub fn cd_command(command: &str) -> (b: bool)
    ensures
        b == is_cd_command(command@),
{
    let chars = to_chars(command);
    let (start, end) = trim_bounds(&chars);
    if end - start < 2 {
        return false;
    }
    proof {
        let t = trimmed(command@);
        assert(t[0] == chars@[start as int]);
        assert(t[1] == chars@[start + 1]);
        if t.len() > 2 {
            assert(t[2] == chars@[start + 2]);
        }
    }
    chars[start] == 'c' && chars[start + 1] == 'd' && (end - start == 2 || chars[start
        + 2].is_whitespace())
}

/// The argument of the `cd` command `command`.
pub fn parse_cd_argument(command: &str) -> (argument: String)
    ensures
        argument@ == cd_argument(command@),
{
    let chars = to_chars(command);
    let (start, end) = trim_bounds(&chars);
    let mut home = String::new();
    home.push('~');
    if end - start < 2 {
        return home;
    }
    let rest = from_chars(&chars, start + 2, end);
    proof {
        assert(chars@.subrange(start + 2, end as int) =~= trimmed(command@).skip(2));
    }
    let argument = trim(rest.as_str());
    if argument.as_str().is_empty() {
        home
    } else {
        argument
    }
}

/// Where a `cd` is to go, before the file system is asked.
#[derive(Clone, Debug, PartialEq, Eq)]
pub struct CdTarget {
    /// The path that the argument names.
    pub path: String,
    /// Whether the canonical form of the path takes its place where it has
    /// one. This is so for relative arguments.
    pub canonicalize: bool,
}

/// What a `CdTarget` holds.
pub ghost struct CdTargetView {
    pub path: Seq<char>,
    pub canonicalize: bool,
}

impl View for CdTarget {
    type V = CdTargetView;

    open spec fn view(&self) -> CdTargetView {
        CdTargetView { path: self.path@, canonicalize: self.canonicalize }
    }
}

/// The path to move to: the canonical form where one was asked for and
/// found, the named path otherwise.
pub open spec fn candidate_path(target: CdTargetView, canonical: Option<Seq<char>>) -> Seq<char> {
    match canonical {
        Some(c) => if target.canonicalize {
            c
        } else {
            target.path
        },
        None => target.path,
    }
}

/// The target that `argument` names from the directory `current_dir`.
pub fn cd_target(current_dir: &str, argument: &str, home: &str) -> (target: CdTarget)
    ensures
        target@ == (CdTargetView {
            path: target_path(current_dir@, argument@, home@),
            canonicalize: is_relative(argument@),
        }),
{
    let arg = to_chars(argument);
    if arg.len() == 0 || (arg.len() == 1 && arg[0] == '~') {
        proof {
            if arg.len() == 1 {
                assert(argument@ =~= seq!['~']);
            }
        }
        return CdTarget { path: home.to_owned(), canonicalize: false };
    }
    proof {
        assert(!names_home(argument@)) by {
            if argument@ == seq!['~'] {
                assert(argument@.len() == 1);
            }
        }
    }
    if arg[0] == '~' {
        let from: usize = if arg.len() > 1 && arg[1] == '/' {
            2
        } else {
            1
        };
        let rest = from_chars(&arg, from, arg.len());
        proof {
            let tail = argument@.skip(1);
            if tail.len() > 0 && tail[0] == '/' {
                assert(tail.skip(1) =~= arg@.subrange(2, arg@.len() as int));
            } else {
                assert(tail =~= arg@.subrange(1, arg@.len() as int));
            }
        }
        CdTarget { path: join_path(home, rest.as_str()), canonicalize: false }
    } else if arg[0] == '/' {
        CdTarget { path: argument.to_owned(), canonicalize: false }
    } else {
        CdTarget { path: join_path(current_dir, argument), canonicalize: true }
    }
}

impl CdTarget {
    /// The path to move to, once the canonical form of the named path is
    /// known: `canonical` is that form, or `None` where there is none or none
    /// was asked for.
    pub fn candidate(&self, canonical: Option<String>) -> (path: String)
        ensures
            path@ == candidate_path(self@, canonical.deep_view()),
    {
        match canonical {
            Some(c) => if self.canonicalize {
                c
            } else {
                self.path.clone()
            },
            None => self.path.clone(),
        }
    }
}

/// The tracked working directory.
#[derive(Clone, Debug, PartialEq, Eq)]
pub struct WorkingDirectory {
    path: String,
}

impl View for WorkingDirectory {
    type V = Seq<char>;

    closed spec fn view(&self) -> Seq<char> {
        self.path@
    }
}

impl WorkingDirectory {
    /// A tracker that starts in `path`.
    pub fn new(path: String) -> (r: WorkingDirectory)
        ensures
            r@ == path@,
    {
        WorkingDirectory { path }
    }

    /// The tracked directory.
    pub fn path(&self) -> (p: &str)
        ensures
            p@ == self@,
    {
        self.path.as_str()
    }

    /// Ends a `cd`. `candidate` is the path to move to and `is_directory`
    /// says whether it is an existing directory. If it is, the tracker
    /// moves there. If not, the tracker stays where it is and the message for
    /// the user is handed out, which names `argument`.
    pub fn resolve_cd(&mut self, argument: &str, candidate: String, is_directory: bool) -> (r:
        Result<(), String>)
        ensures
            is_directory ==> r is Ok && final(self)@ == candidate@,
            !is_directory ==> final(self)@ == old(self)@ && r.is_err() && r->Err_0@ == cd_error(
                argument@,
            ),
    {
        if is_directory {
            self.path = candidate;
            Ok(())
        } else {
            let mut message = String::from_str("cd: no such directory: ");
            message.append(argument);
            Err(message)
        }
    }
}

/// The directory `path` as it is displayed. `canonical` is the canonical form
/// of `path`, or `None` where it has none.
pub fn format_current_dir(path: &str, canonical: &Option<String>, home: &str) -> (shown: String)
    ensures
        shown@ == display_dir(path@, canonical.deep_view(), home@),
{
    match canonical {
        None => path.to_owned(),
        Some(c) => {
            let full = to_chars(c.as_str());
            let h = to_chars(home);
            let under = starts_with(&full, &h) && (full.len() == h.len() || full[h.len()] == '/'
                || (h.len() > 0 && h[h.len() - 1] == '/'));
            if under {
                let mut shown = String::new();
                shown.push('~');
                let rest = from_chars(&full, h.len(), full.len());
                shown.append(rest.as_str());
                proof {
                    assert(full@.subrange(h.len() as int, full.len() as int) =~= c@.skip(
                        home@.len() as int,
                    ));
                    assert(shown@ =~= seq!['~'] + c@.skip(home@.len() as int));
                }
                shown
            } else {
                c.clone()
            }
        },
    }
}

} // verus!
