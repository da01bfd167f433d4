//! Decisions around host commands: which are missing, where a command is
//! looked for on `PATH`, and how a command line is shown to the user.
use vstd::prelude::*;

use crate::error::{Failure, TdcError};
use crate::text::{
    chars_of, concat, contains_char, join_strings, join_with, split_char, split_chars, string_of,
    trim, trim_str, views,
};

verus! {

/// The first command of `checks` that was not found, if any.
pub open spec fn first_missing(checks: Seq<(&str, bool)>) -> Option<Seq<char>>
    decreases checks.len(),
{
    if checks.len() == 0 {
        None
    } else if !checks[0].1 {
        Some(checks[0].0@)
    } else {
        first_missing(checks.drop_first())
    }
}

/// Refuses the first required command that is not on `PATH`.  Each entry is a
/// command and whether it was found.
pub fn require_commands(checks: &[(&str, bool)]) -> (r: Result<(), TdcError>)
    ensures
        match first_missing(checks@) {
            None => r is Ok,
            Some(c) => r matches Err(e) && e@ == Failure::<Seq<char>>::MissingCommand(c),
        },
{
    let mut i: usize = 0;
    assert(checks@.skip(0) =~= checks@);
    while i < checks.len()
        invariant
            0 <= i <= checks.len(),
            first_missing(checks@) == first_missing(checks@.skip(i as int)),
        decreases checks.len() - i,
    {
        assert(checks@.skip(i as int).drop_first() =~= checks@.skip(i + 1));
        let (command, found) = checks[i];
        if !found {
            return Err(Failure::MissingCommand(command.to_owned()));
        }
        i = i + 1;
    }
    Ok(())
}

/// `PathBuf::join` on text: an absolute `name` replaces `dir`; otherwise a `/`
/// goes between them unless `dir` is empty or already ends in one.
pub open spec fn join_path(dir: Seq<char>, name: Seq<char>) -> Seq<char> {
    if name.len() > 0 && name[0] == '/' {
        name
    } else if dir.len() == 0 || dir.last() == '/' {
        dir + name
    } else {
        dir + "/"@ + name
    }
}

/// `join_path` in executable form.
pub fn join_path_str(dir: &str, name: &str) -> (r: String)
    ensures
        r@ == join_path(dir@, name@),
{
    let d = chars_of(dir);
    let n = chars_of(name);
    if n.len() > 0 && n[0] == '/' {
        return name.to_owned();
    }
    let mut r = dir.to_owned();
    if !(d.len() == 0 || d[d.len() - 1] == '/') {
        r.append("/");
    }
    r.append(name);
    r
}

/// Where a command is looked for: the command itself when it holds a `/`,
/// otherwise the command inside each `:`-separated entry of `PATH` (none when
/// `PATH` is unset).
pub open spec fn command_candidates_spec(command: Seq<char>, path_var: Option<Seq<char>>) -> Seq<
    Seq<char>,
> {
    if command.contains('/') {
        seq![command]
    } else {
        match path_var {
            None => seq![],
            Some(p) => split_char(p, ':').map_values(|dir: Seq<char>| join_path(dir, command)),
        }
    }
}

/// The paths at which `command` is looked for; it exists when one of them is
/// an executable file.
pub fn command_candidates(command: &str, path_var: Option<&str>) -> (r: Vec<String>)
    ensures
        views(r@) == command_candidates_spec(command@, crate::github::opt_view(path_var)),
{
    let cv = chars_of(command);
    if contains_char(cv.as_slice(), '/') {
        let mut r: Vec<String> = Vec::new();
        r.push(command.to_owned());
        assert(views(r@) =~= seq![command@]);
        return r;
    }
    match path_var {
        None => {
            let r: Vec<String> = Vec::new();
            assert(views(r@) =~= Seq::<Seq<char>>::empty());
            r
        },
        Some(p) => {
            let pv = chars_of(p);
            let dirs = split_chars(pv.as_slice(), ':');
            let ghost want = split_char(p@, ':').map_values(
                |dir: Seq<char>| join_path(dir, command@),
            );
            let mut r: Vec<String> = Vec::new();
            let mut i: usize = 0;
            while i < dirs.len()
                invariant
                    0 <= i <= dirs.len(),
                    crate::text::char_views(dirs@) == split_char(p@, ':'),
                    want == split_char(p@, ':').map_values(
                        |dir: Seq<char>| join_path(dir, command@),
                    ),
                    views(r@) == want.take(i as int),
                decreases dirs.len() - i,
            {
                let dir = string_of(dirs[i].as_slice());
                let joined = join_path_str(dir.as_str(), command);
                proof {
                    assert(dirs@[i as int]@ == crate::text::char_views(dirs@)[i as int]);
                    assert(joined@ == want[i as int]);
                }
                let ghost before = r@;
                r.push(joined);
                proof {
                    assert(r@ == before.push(joined));
                    assert(views(r@) =~= views(before).push(joined@));
                    assert(want.take(i + 1) =~= want.take(i as int).push(want[i as int]));
                }
                i = i + 1;
            }
            assert(want.take(dirs.len() as int) =~= want);
            r
        },
    }
}

/// A char that a shown command line leaves unquoted.
pub open spec fn is_plain_shell_char(c: char) -> bool {
    ||| ('a' <= c && c <= 'z')
    ||| ('A' <= c && c <= 'Z')
    ||| ('0' <= c && c <= '9')
    ||| c == '/'
    ||| c == '.'
    ||| c == '-'
    ||| c == '_'
    ||| c == ':'
    ||| c == '@'
}

/// The text that `format!("{:?}", s)` writes for a string: Rust's quoted,
/// escaped form of `s`.
pub uninterp spec fn debug_quoted(s: Seq<char>) -> Seq<char>;

/// Rust's `Debug` rendering of a string (`format!("{:?}", s)`).  Its result is
/// named by [`debug_quoted`]; nothing more of it is stated here.
#[verifier::external_body]
fn debug_quote(s: &str) -> (r: String)
    ensures
        r@ == debug_quoted(s@),
{
    format!("{:?}", s)
}

/// How one word of a command line is shown: as is when it holds only plain
/// chars, otherwise in Rust's quoted form.
pub open spec fn shell_display_spec(value: Seq<char>) -> Seq<char> {
    if forall|i: int| 0 <= i < value.len() ==> #[trigger] is_plain_shell_char(value[i]) {
        value
    } else {
        debug_quoted(value)
    }
}

fn is_plain_shell_char_exec(c: char) -> (r: bool)
    ensures
        r == is_plain_shell_char(c),
{
    ('a' <= c && c <= 'z') || ('A' <= c && c <= 'Z') || ('0' <= c && c <= '9') || c == '/' || c
        == '.' || c == '-' || c == '_' || c == ':' || c == '@'
}

pub fn shell_display(value: &str) -> (r: String)
    ensures
        r@ == shell_display_spec(value@),
{
    let v = chars_of(value);
    let mut i: usize = 0;
    while i < v.len()
        invariant
            0 <= i <= v.len(),
            v@ == value@,
            forall|j: int| 0 <= j < i ==> #[trigger] is_plain_shell_char(v@[j]),
        decreases v.len() - i,
    {
        if !is_plain_shell_char_exec(v[i]) {
            assert(!is_plain_shell_char(value@[i as int]));
            return debug_quote(value);
        }
        i = i + 1;
    }
    value.to_owned()
}

/// A command line as shown to the user: each word displayed, joined by spaces.
pub open spec fn display_command_spec(program: Seq<char>, args: Seq<Seq<char>>) -> Seq<char> {
    join_with(
        seq![program].add(args).map_values(|w: Seq<char>| shell_display_spec(w)),
        " "@,
    )
}

pub fn display_command(program: &str, args: &[String]) -> (r: String)
    ensures
        r@ == display_command_spec(program@, views(args@)),
{
    let mut parts: Vec<String> = Vec::new();
    parts.push(shell_display(program));
    let ghost words = seq![program@].add(views(args@));
    let mut i: usize = 0;
    while i < args.len()
        invariant
            0 <= i <= args.len(),
            words == seq![program@].add(views(args@)),
            views(parts@) == words.take(i + 1).map_values(|w: Seq<char>| shell_display_spec(w)),
        decreases args.len() - i,
    {
        let shown = shell_display(args[i].as_str());
        let ghost before = parts@;
        parts.push(shown);
        proof {
            assert(words[i + 1] == views(args@)[i as int]);
            assert(views(parts@) =~= views(before).push(shown@));
            assert(words.take(i + 2).map_values(|w: Seq<char>| shell_display_spec(w))
                =~= words.take(i + 1).map_values(|w: Seq<char>| shell_display_spec(w)).push(
                shell_display_spec(words[i + 1]),
            ));
        }
        i = i + 1;
    }
    assert(words.take(args.len() + 1) =~= words);
    join_strings(&parts, " ")
}

/// What is reported when a command exits unsuccessfully: the command as shown,
/// its exit status, and its trimmed error output where that was captured.
pub open spec fn exit_failure_spec(
    display: Seq<char>,
    status: Seq<char>,
    stderr: Option<Seq<char>>,
) -> Seq<char> {
    match stderr {
        Some(e) => display + " exited with "@ + status + ": "@ + trim(e),
        None => display + " exited with "@ + status,
    }
}

pub fn exit_failure(display: &str, status: &str, stderr: Option<&str>) -> (r: String)
    ensures
        r@ == exit_failure_spec(display@, status@, crate::github::opt_view(stderr)),
{
    let mut r = concat(display, " exited with ");
    r.append(status);
    if let Some(e) = stderr {
        r.append(": ");
        let t = trim_str(e);
        r.append(t.as_str());
    }
    r
}

} // verus!
