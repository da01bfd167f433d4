//! `tdc manpage`: whether to print, page or install the manpage, and where an
//! install puts it.
use vstd::prelude::*;

use crate::cli::ManpageArgs;
use crate::error::{ErrorView, Failure, TdcError};
use crate::process::{join_path, join_path_str};
use crate::text::{chars_of, split_char, split_chars, string_of, strip_prefix, trim, views};
use crate::vscode::opt_string_view;
use crate::workflow::{home_dir, home_dir_spec};

verus! {

/// What `tdc manpage` does with the rendered page.
#[derive(Clone, Debug, PartialEq, Eq)]
pub enum ManpageMode {
    /// Install it under the manpath directory.
    Install,
    /// Write the roff source to standard output.
    Print,
    /// Show it with `man`.
    Show,
}

/// `--raw` and `--install` exclude each other; an install wins otherwise; the
/// roff source is printed when asked for, when standard output is no
/// terminal, or when `man` is missing; else the page is shown.
pub open spec fn manpage_mode_spec(raw: bool, install: bool, terminal: bool, man: bool) -> Result<
    ManpageMode,
    ErrorView,
> {
    if raw && install {
        Err(Failure::RawInstallConflict)
    } else if install {
        Ok(ManpageMode::Install)
    } else if raw || !terminal || !man {
        Ok(ManpageMode::Print)
    } else {
        Ok(ManpageMode::Show)
    }
}

pub fn manpage_mode(args: &ManpageArgs, stdout_is_terminal: bool, man_available: bool) -> (r:
    Result<ManpageMode, TdcError>)
    ensures
        match manpage_mode_spec(args.raw, args.install, stdout_is_terminal, man_available) {
            Ok(m) => r == Ok::<ManpageMode, TdcError>(m),
            Err(e) => r matches Err(x) && x@ == e,
        },
{
    if args.raw && args.install {
        return Err(Failure::RawInstallConflict);
    }
    if args.install {
        return Ok(ManpageMode::Install);
    }
    if args.raw || !stdout_is_terminal || !man_available {
        return Ok(ManpageMode::Print);
    }
    Ok(ManpageMode::Show)
}

/// A path with a leading `~` expanded to the home directory.
pub open spec fn expand_home_spec(path: Seq<char>, home: Option<Seq<char>>) -> Result<
    Seq<char>,
    ErrorView,
> {
    if path == "~"@ {
        home_dir_spec(home)
    } else if let Some(rest) = strip_prefix(path, "~/"@) {
        match home_dir_spec(home) {
            Ok(h) => Ok(join_path(h, rest)),
            Err(e) => Err(e),
        }
    } else {
        Ok(path)
    }
}

pub fn expand_home(path: &str, home: Option<&str>) -> (r: Result<String, TdcError>)
    ensures
        match expand_home_spec(path@, crate::github::opt_view(home)) {
            Ok(p) => r matches Ok(s) && s@ == p,
            Err(e) => r matches Err(x) && x@ == e,
        },
{
    if crate::text::str_eq(path, "~") {
        return home_dir(home);
    }
    let v = chars_of(path);
    let tilde = chars_of("~/");
    if let Some(rest) = crate::text::strip_prefix_chars(v.as_slice(), tilde.as_slice()) {
        let h = match home_dir(home) {
            Ok(h) => h,
            Err(e) => return Err(e),
        };
        let rest_s = string_of(rest.as_slice());
        return Ok(join_path_str(h.as_str(), rest_s.as_str()));
    }
    Ok(path.to_owned())
}

/// The last component that `Path::file_name` returns for a path.
pub uninterp spec fn path_file_name(p: Seq<char>) -> Option<Seq<char>>;

/// The path that `Path::parent` returns for a path.
pub uninterp spec fn path_parent(p: Seq<char>) -> Option<Seq<char>>;

/// `Path::file_name`, as text.  The result is named by [`path_file_name`].
#[verifier::external_body]
fn file_name(p: &str) -> (r: Option<String>)
    ensures
        opt_string_view(r) == path_file_name(p@),
{
    match std::path::Path::new(p).file_name() {
        Some(name) => Some(name.to_string_lossy().into_owned()),
        None => None,
    }
}

/// `Path::parent`, as text.  The result is named by [`path_parent`].
#[verifier::external_body]
fn parent(p: &str) -> (r: Option<String>)
    ensures
        opt_string_view(r) == path_parent(p@),
{
    match std::path::Path::new(p).parent() {
        Some(dir) => Some(dir.to_string_lossy().into_owned()),
        None => None,
    }
}

/// Where an install puts the manpage.
#[derive(Clone, Debug)]
pub struct ManpagePaths {
    /// The `man1` section directory.
    pub man1: String,
    /// The directory to put on `MANPATH`.
    pub manpath_dir: String,
    /// The installed page, `man1/tdc.1`.
    pub target: String,
}

/// The install paths: the base is `--install-dir` (with `~` expanded) or
/// `~/.local/share/man`; the section directory is the base itself when it is
/// named `man1`, else `base/man1`; the manpath directory is the section's
/// parent.
pub open spec fn install_paths_spec(install_dir: Option<Seq<char>>, home: Option<Seq<char>>) -> Result<
    (Seq<char>, Seq<char>, Seq<char>),
    ErrorView,
> {
    let base = match install_dir {
        Some(d) => expand_home_spec(d, home),
        None => match home_dir_spec(home) {
            Ok(h) => Ok(join_path(h, ".local/share/man"@)),
            Err(e) => Err(e),
        },
    };
    match base {
        Err(e) => Err(e),
        Ok(b) => {
            let man1 = if path_file_name(b) == Some("man1"@) {
                b
            } else {
                join_path(b, "man1"@)
            };
            let dir = if path_file_name(man1) == Some("man1"@) {
                match path_parent(man1) {
                    Some(p) => p,
                    None => man1,
                }
            } else {
                man1
            };
            Ok((man1, dir, join_path(man1, "tdc.1"@)))
        },
    }
}

fn is_man1(p: &str) -> (r: bool)
    ensures
        r == (path_file_name(p@) == Some("man1"@)),
{
    match file_name(p) {
        Some(n) => crate::text::str_eq(n.as_str(), "man1"),
        None => false,
    }
}

pub fn manpage_install_paths(install_dir: Option<&str>, home: Option<&str>) -> (r: Result<
    ManpagePaths,
    TdcError,
>)
    ensures
        match install_paths_spec(crate::github::opt_view(install_dir), crate::github::opt_view(home)) {
            Ok((m, d, t)) => r matches Ok(p) && p.man1@ == m && p.manpath_dir@ == d && p.target@
                == t,
            Err(e) => r matches Err(x) && x@ == e,
        },
{
    let base = match install_dir {
        Some(d) => match expand_home(d, home) {
            Ok(b) => b,
            Err(e) => return Err(e),
        },
        None => match home_dir(home) {
            Ok(h) => join_path_str(h.as_str(), ".local/share/man"),
            Err(e) => return Err(e),
        },
    };
    let man1 = if is_man1(base.as_str()) {
        base
    } else {
        join_path_str(base.as_str(), "man1")
    };
    let manpath_dir = if is_man1(man1.as_str()) {
        match parent(man1.as_str()) {
            Some(p) => p,
            None => man1.clone(),
        }
    } else {
        man1.clone()
    };
    let target = join_path_str(man1.as_str(), "tdc.1");
    Ok(ManpagePaths { man1, manpath_dir, target })
}

/// The directories that the output of `manpath` lists: split on `:` after
/// trimming, empty entries dropped.
pub open spec fn manpath_entries_spec(output: Seq<char>) -> Seq<Seq<char>> {
    split_char(trim(output), ':').filter(|e: Seq<char>| e.len() > 0)
}

pub fn manpath_entries(output: &str) -> (r: Vec<String>)
    ensures
        views(r@) == manpath_entries_spec(output@),
{
    let v = chars_of(output);
    let t = crate::text::trim_chars(v.as_slice());
    let parts = split_chars(t.as_slice(), ':');
    let ghost all = crate::text::char_views(parts@);
    let mut r: Vec<String> = Vec::new();
    let mut i: usize = 0;
    while i < parts.len()
        invariant
            0 <= i <= parts.len(),
            all == crate::text::char_views(parts@),
            all == split_char(trim(output@), ':'),
            views(r@) == all.take(i as int).filter(|e: Seq<char>| e.len() > 0),
        decreases parts.len() - i,
    {
        proof {
            reveal_with_fuel(Seq::filter, 1);
            assert(all.take(i + 1).drop_last() =~= all.take(i as int));
            assert(all.take(i + 1).last() == parts@[i as int]@);
        }
        let ghost before = r@;
        if parts[i].len() > 0 {
            let s = string_of(parts[i].as_slice());
            r.push(s);
            assert(views(r@) =~= views(before).push(s@));
        }
        i = i + 1;
    }
    assert(all.take(parts.len() as int) =~= all);
    r
}

} // verus!
