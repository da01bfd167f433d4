//! The payload embedded in the binary: its version, and which of its files are
//! made executable when it is written out.
use vstd::prelude::*;

use crate::error::{Failure, TdcError};
use crate::text::{chars_of, char_views, split_char, split_chars, trim, trim_str};

verus! {

#[verifier::external_type_specification]
#[verifier::external_body]
pub struct ExDir<'a>(include_dir::Dir<'a>);

/// The files of an embedded directory: each path that `Dir::get_file` finds a
/// file under, with that file's contents.
pub uninterp spec fn dir_files(dir: include_dir::Dir<'static>) -> Map<Seq<char>, Seq<u8>>;

/// `Dir::get_file` followed by `File::contents`: the contents of the file at
/// `path`, or `None` when `get_file` finds no file there.
#[verifier::external_body]
fn embedded_file(dir: &include_dir::Dir<'static>, path: &str) -> (r: Option<&'static [u8]>)
    ensures
        match r {
            Some(b) => dir_files(*dir).contains_key(path@) && b@ == dir_files(*dir)[path@],
            None => !dir_files(*dir).contains_key(path@),
        },
{
    match dir.get_file(path) {
        Some(file) => Some(file.contents()),
        None => None,
    }
}

/// The text that `String::from_utf8_lossy` makes of `bytes`.
pub uninterp spec fn lossy_utf8(bytes: Seq<u8>) -> Seq<char>;

/// `String::from_utf8_lossy`: the decoded text, with U+FFFD for each invalid
/// sequence.  Stated: the result is named by [`lossy_utf8`], and is the plain
/// decoding when the bytes are valid UTF-8; how invalid sequences are replaced
/// is not stated.
#[verifier::external_body]
fn utf8_lossy(bytes: &[u8]) -> (r: String)
    ensures
        r@ == lossy_utf8(bytes@),
        vstd::utf8::valid_utf8(bytes@) ==> r@ == vstd::utf8::decode_utf8(bytes@),
{
    String::from_utf8_lossy(bytes).into_owned()
}

/// The packaged version: the embedded `VERSION` file, trimmed.
pub open spec fn packaged_version_spec(files: Map<Seq<char>, Seq<u8>>) -> Option<Seq<char>> {
    if files.contains_key("VERSION"@) {
        Some(trim(lossy_utf8(files["VERSION"@])))
    } else {
        None
    }
}

pub fn packaged_version(payload: &include_dir::Dir<'static>) -> (r: Result<String, TdcError>)
    ensures
        match packaged_version_spec(dir_files(*payload)) {
            Some(v) => r matches Ok(s) && s@ == v,
            None => r matches Err(e) && e@ == Failure::<Seq<char>>::MissingVersionFile,
        },
{
    match embedded_file(payload, "VERSION") {
        Some(bytes) => {
            let text = utf8_lossy(bytes);
            Ok(trim_str(text.as_str()))
        },
        None => Err(Failure::MissingVersionFile),
    }
}

/// The components of a relative or absolute path as `std::path` reads them,
/// written as text: `/` for the root, `.` for a leading current-directory
/// component, then every piece between `/`s that is neither empty nor `.`.
pub open spec fn path_components(p: Seq<char>) -> Seq<Seq<char>> {
    let pieces = split_char(p, '/');
    let head: Seq<Seq<char>> = if p.len() > 0 && p[0] == '/' {
        seq!["/"@]
    } else if pieces[0] == "."@ {
        seq!["."@]
    } else {
        seq![]
    };
    head + named_pieces(pieces)
}

/// The pieces that are neither empty nor `.`.
pub open spec fn named_pieces(pieces: Seq<Seq<char>>) -> Seq<Seq<char>>
    decreases pieces.len(),
{
    if pieces.len() == 0 {
        seq![]
    } else if pieces[0].len() == 0 || pieces[0] == "."@ {
        named_pieces(pieces.drop_first())
    } else {
        seq![pieces[0]] + named_pieces(pieces.drop_first())
    }
}

/// Payload files that are made executable: those under `bin` and
/// `images/scripts` (`Path::starts_with`, which compares whole components).
pub open spec fn is_executable_payload_spec(p: Seq<char>) -> bool {
    ||| seq!["bin"@].is_prefix_of(path_components(p))
    ||| seq!["images"@, "scripts"@].is_prefix_of(path_components(p))
}

fn is_dot(v: &[char]) -> (r: bool)
    ensures
        r == (v@ == "."@),
{
    let r = v.len() == 1 && v[0] == '.';
    proof {
        reveal_strlit(".");
        if r {
            assert(v@ =~= "."@);
        } else if v@ == "."@ {
            assert(v@[0] == '.');
        }
    }
    r
}

/// The pieces from `start` on that are neither empty nor `.`, in order.
fn named_pieces_from(pieces: &Vec<Vec<char>>, start: usize) -> (r: Vec<Vec<char>>)
    requires
        start <= pieces.len(),
    ensures
        char_views(r@) == named_pieces(char_views(pieces@).skip(start as int)),
    decreases pieces.len() - start,
{
    if start == pieces.len() {
        let r: Vec<Vec<char>> = Vec::new();
        assert(char_views(r@) =~= Seq::<Seq<char>>::empty());
        return r;
    }
    let ghost all = char_views(pieces@);
    assert(all.skip(start as int).drop_first() =~= all.skip(start + 1));
    assert(all.skip(start as int)[0] == pieces@[start as int]@);
    let rest = named_pieces_from(pieces, start + 1);
    if pieces[start].len() == 0 || is_dot(pieces[start].as_slice()) {
        rest
    } else {
        let mut r: Vec<Vec<char>> = Vec::new();
        r.push(pieces[start].clone());
        let mut i: usize = 0;
        while i < rest.len()
            invariant
                0 <= i <= rest.len(),
                r@.len() == i + 1,
                r@[0]@ == pieces@[start as int]@,
                forall|j: int| 0 <= j < i ==> r@[j + 1]@ == rest@[j]@,
            decreases rest.len() - i,
        {
            r.push(rest[i].clone());
            i = i + 1;
        }
        assert(char_views(r@) =~= seq![pieces@[start as int]@] + char_views(rest@));
        r
    }
}

fn is_word(v: &Vec<char>, w: &str) -> (r: bool)
    ensures
        r == (v@ == w@),
{
    let wv = chars_of(w);
    crate::text::chars_eq(v.as_slice(), wv.as_slice())
}

pub fn is_executable_payload(path: &str) -> (r: bool)
    ensures
        r == is_executable_payload_spec(path@),
{
    let v = chars_of(path);
    let pieces = split_chars(v.as_slice(), '/');
    proof {
        reveal_with_fuel(split_char, 2);
        crate::text::lemma_index_of_char(path@, '/');
        assert(char_views(pieces@).len() > 0);
    }
    let rooted = v.len() > 0 && v[0] == '/';
    let leading_dot = is_dot(pieces[0].as_slice());
    let named = named_pieces_from(&pieces, 0);
    assert(char_views(pieces@).skip(0) =~= char_views(pieces@));
    assert(char_views(pieces@)[0] == pieces@[0]@);
    let ghost comps = path_components(path@);
    let ghost bin = seq!["bin"@];
    let ghost images = seq!["images"@, "scripts"@];
    proof {
        reveal_strlit("bin");
        reveal_strlit("images");
        reveal_strlit("/");
        reveal_strlit(".");
        assert("/"@.len() == 1);
        assert("."@.len() == 1);
        assert("bin"@.len() == 3);
        assert("images"@.len() == 6);
        assert(bin[0] == "bin"@);
        assert(images[0] == "images"@);
        assert(images[1] == "scripts"@);
    }
    if rooted || leading_dot {
        // The first component is the root or `.`, never `bin` or `images`.
        proof {
            assert(comps[0] == "/"@ || comps[0] == "."@);
            assert(comps[0] != "bin"@);
            assert(comps[0] != "images"@);
            assert(!bin.is_prefix_of(comps));
            assert(!images.is_prefix_of(comps));
        }
        return false;
    }
    assert(comps =~= char_views(named@));
    if named.len() >= 1 && is_word(&named[0], "bin") {
        assert(comps[0] == named@[0]@);
        assert(bin.is_prefix_of(comps));
        return true;
    }
    if named.len() >= 2 && is_word(&named[0], "images") && is_word(&named[1], "scripts") {
        assert(comps[0] == named@[0]@);
        assert(comps[1] == named@[1]@);
        assert(images.is_prefix_of(comps));
        return true;
    }
    proof {
        if named.len() >= 1 {
            assert(comps[0] == named@[0]@);
        }
        if named.len() >= 2 {
            assert(comps[1] == named@[1]@);
        }
        assert(!bin.is_prefix_of(comps));
        assert(!images.is_prefix_of(comps));
    }
    false
}

} // verus!
