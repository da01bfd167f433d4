//! GitHub repository input: the `--org`/`--repo` shorthand and repository URLs.
use vstd::prelude::*;

use crate::error::{ErrorView, Failure, TdcError};
use crate::model::{is_slug, is_valid_slug};
use crate::text::{
    before_first, before_first_chars, chars_of, contains_char, has_prefix, split_once,
    split_once_chars, string_of, strip_prefix, strip_prefix_chars, strip_suffix,
    strip_suffix_chars, trim, trim_chars, trim_end_char, trim_end_char_chars, is_whitespace,
    trim_start, trim_end, lemma_trim_start_skip, lemma_trim_end_keeps, lemma_trim_shorter,
    lemma_index_of_char_unique,
};

verus! {

/// A GitHub repository and the SSH URL it is cloned from.
#[derive(Clone, Debug, PartialEq, Eq)]
pub struct RepoSpec {
    pub org: String,
    pub repo: String,
    pub clone_url: String,
}

/// The SSH clone URL of `org/repo` on github.com.
pub open spec fn clone_url_for(org: Seq<char>, repo: Seq<char>) -> Seq<char> {
    "git@github.com:"@ + org + "/"@ + repo + ".git"@
}

/// Whether `spec` is the repository `org/repo` with its canonical clone URL.
pub open spec fn describes(spec: RepoSpec, org: Seq<char>, repo: Seq<char>) -> bool {
    &&& spec.org@ == org
    &&& spec.repo@ == repo
    &&& spec.clone_url@ == clone_url_for(org, repo)
}

/// A raw URL with surrounding blanks, the fragment, the query, trailing
/// slashes and one `.git` suffix taken off.
pub open spec fn url_core(raw: Seq<char>) -> Seq<char> {
    let u = trim_end_char(before_first(before_first(trim(raw), '#'), '?'), '/');
    match strip_suffix(u, ".git"@) {
        Some(v) => v,
        None => u,
    }
}

/// The owner/repo path of a github.com SSH, `ssh://` or HTTPS URL, or why the
/// URL is not one.
pub open spec fn github_path(raw: Seq<char>) -> Result<Seq<char>, ErrorView> {
    let u = url_core(raw);
    if let Some(p) = strip_prefix(u, "git@github.com:"@) {
        Ok(p)
    } else if let Some(p) = strip_prefix(u, "ssh://git@github.com/"@) {
        Ok(p)
    } else if let Some(p) = strip_prefix(u, "https://github.com/"@) {
        Ok(p)
    } else if "git@"@.is_prefix_of(u) || "ssh://git@"@.is_prefix_of(u) {
        Err(Failure::UnsupportedSshUrl(raw))
    } else if "https://"@.is_prefix_of(u) || "http://"@.is_prefix_of(u) {
        Err(Failure::UnsupportedHttpsUrl(raw))
    } else {
        Err(Failure::UnsupportedUrlFormat(raw))
    }
}

/// The owner and repository a raw URL names, or why it is refused.
pub open spec fn parse_repo_url(raw: Seq<char>) -> Result<(Seq<char>, Seq<char>), ErrorView> {
    match github_path(raw) {
        Err(e) => Err(e),
        Ok(path) => match split_once(path, '/') {
            None => Err(Failure::UrlWithoutOwnerRepo(raw)),
            Some((org, repo)) => if repo.contains('/') {
                Err(Failure::UrlNotSingleRepo(raw))
            } else if !is_slug(org) {
                Err(Failure::UrlInvalidOwner(org))
            } else if !is_slug(repo) {
                Err(Failure::UrlInvalidRepo(repo))
            } else {
                Ok((org, repo))
            },
        },
    }
}

/// The repository that `--org`, `--repo` and `--repo-url` name together.
pub open spec fn resolve_repo(
    org: Seq<char>,
    repo: Option<Seq<char>>,
    repo_url: Option<Seq<char>>,
) -> Result<(Seq<char>, Seq<char>), ErrorView> {
    match (repo, repo_url) {
        (Some(_), Some(_)) => Err(Failure::RepoArgsConflict),
        (None, None) => Err(Failure::MissingRepoInput),
        (Some(repo), None) => if !is_slug(org) {
            Err(Failure::InvalidOwner(org))
        } else if !is_slug(repo) {
            Err(Failure::InvalidRepo(repo))
        } else {
            Ok((org, repo))
        },
        (None, Some(url)) => parse_repo_url(url),
    }
}

/// The text of an optional `&str`.
pub open spec fn opt_view(o: Option<&str>) -> Option<Seq<char>> {
    match o {
        Some(s) => Some(s@),
        None => None,
    }
}

/// Whether a computed result matches the specified owner/repository or refusal.
pub open spec fn matches_repo(
    res: Result<RepoSpec, TdcError>,
    expected: Result<(Seq<char>, Seq<char>), ErrorView>,
) -> bool {
    match res {
        Ok(spec) => expected is Ok && describes(spec, expected->Ok_0.0, expected->Ok_0.1),
        Err(e) => expected == Err::<(Seq<char>, Seq<char>), ErrorView>(e@),
    }
}

/// Builds the `RepoSpec` of `org/repo`.
fn repo_spec(org: &[char], repo: &[char]) -> (r: RepoSpec)
    ensures
        describes(r, org@, repo@),
{
    let org_s = string_of(org);
    let repo_s = string_of(repo);
    let mut url = String::new();
    url.append("git@github.com:");
    url.append(org_s.as_str());
    url.append("/");
    url.append(repo_s.as_str());
    url.append(".git");
    RepoSpec { org: org_s, repo: repo_s, clone_url: url }
}

pub fn resolve_repo_input(org: &str, repo: Option<&str>, repo_url: Option<&str>) -> (r: Result<
    RepoSpec,
    TdcError,
>)
    ensures
        matches_repo(r, resolve_repo(org@, opt_view(repo), opt_view(repo_url))),
{
    match (repo, repo_url) {
        (Some(_), Some(_)) => Err(Failure::RepoArgsConflict),
        (None, None) => Err(Failure::MissingRepoInput),
        (Some(repo), None) => {
            if !is_valid_slug(org) {
                return Err(Failure::InvalidOwner(org.to_owned()));
            }
            if !is_valid_slug(repo) {
                return Err(Failure::InvalidRepo(repo.to_owned()));
            }
            let o = chars_of(org);
            let r = chars_of(repo);
            Ok(repo_spec(o.as_slice(), r.as_slice()))
        },
        (None, Some(repo_url)) => parse_github_repo_url(repo_url),
    }
}

/// `url_core` in executable form.
fn url_core_chars(raw: &str) -> (r: Vec<char>)
    ensures
        r@ == url_core(raw@),
{
    let v = chars_of(raw);
    let t = trim_chars(v.as_slice());
    let t = before_first_chars(t.as_slice(), '#');
    let t = before_first_chars(t.as_slice(), '?');
    let t = trim_end_char_chars(t.as_slice(), '/');
    let git = chars_of(".git");
    match strip_suffix_chars(t.as_slice(), git.as_slice()) {
        Some(v) => v,
        None => t,
    }
}

/// `github_path` in executable form.
fn github_path_chars(raw: &str) -> (r: Result<Vec<char>, TdcError>)
    ensures
        match r {
            Ok(p) => github_path(raw@) == Ok::<Seq<char>, ErrorView>(p@),
            Err(e) => github_path(raw@) == Err::<Seq<char>, ErrorView>(e@),
        },
{
    let u = url_core_chars(raw);
    let scp = chars_of("git@github.com:");
    let ssh = chars_of("ssh://git@github.com/");
    let https = chars_of("https://github.com/");
    if let Some(p) = strip_prefix_chars(u.as_slice(), scp.as_slice()) {
        return Ok(p);
    }
    if let Some(p) = strip_prefix_chars(u.as_slice(), ssh.as_slice()) {
        return Ok(p);
    }
    if let Some(p) = strip_prefix_chars(u.as_slice(), https.as_slice()) {
        return Ok(p);
    }
    let git_at = chars_of("git@");
    let ssh_git = chars_of("ssh://git@");
    if has_prefix(u.as_slice(), git_at.as_slice()) || has_prefix(
        u.as_slice(),
        ssh_git.as_slice(),
    ) {
        return Err(Failure::UnsupportedSshUrl(raw.to_owned()));
    }
    let https_scheme = chars_of("https://");
    let http_scheme = chars_of("http://");
    if has_prefix(u.as_slice(), https_scheme.as_slice()) || has_prefix(
        u.as_slice(),
        http_scheme.as_slice(),
    ) {
        return Err(Failure::UnsupportedHttpsUrl(raw.to_owned()));
    }
    Err(Failure::UnsupportedUrlFormat(raw.to_owned()))
}

pub fn parse_github_repo_url(raw_url: &str) -> (r: Result<RepoSpec, TdcError>)
    ensures
        matches_repo(r, parse_repo_url(raw_url@)),
{
    let path = match github_path_chars(raw_url) {
        Ok(p) => p,
        Err(e) => return Err(e),
    };
    let (org, repo) = match split_once_chars(path.as_slice(), '/') {
        Some(parts) => parts,
        None => return Err(Failure::UrlWithoutOwnerRepo(raw_url.to_owned())),
    };
    if contains_char(repo.as_slice(), '/') {
        return Err(Failure::UrlNotSingleRepo(raw_url.to_owned()));
    }
    let org_s = string_of(org.as_slice());
    if !is_valid_slug(org_s.as_str()) {
        return Err(Failure::UrlInvalidOwner(org_s));
    }
    let repo_s = string_of(repo.as_slice());
    if !is_valid_slug(repo_s.as_str()) {
        return Err(Failure::UrlInvalidRepo(repo_s));
    }
    Ok(repo_spec(org.as_slice(), repo.as_slice()))
}

/// The three github.com URL prefixes that name a repository by `owner/repo`.
pub open spec fn github_prefix(kind: nat) -> Seq<char> {
    if kind == 0 {
        "git@github.com:"@
    } else if kind == 1 {
        "ssh://git@github.com/"@
    } else {
        "https://github.com/"@
    }
}

/// A URL of `org/repo` in one of the supported forms, with or without `.git`.
pub open spec fn github_url(kind: nat, org: Seq<char>, repo: Seq<char>, dot_git: bool) -> Seq<
    char,
> {
    github_prefix(kind) + org + "/"@ + repo + (if dot_git {
        ".git"@
    } else {
        seq![]
    })
}

proof fn lemma_trim_unchanged(s: Seq<char>)
    requires
        s.len() > 0,
        !crate::text::is_whitespace(s[0]),
        !crate::text::is_whitespace(s.last()),
    ensures
        trim(s) == s,
{
    assert(crate::text::trim_start(s) == s);
}

proof fn lemma_before_first_absent(s: Seq<char>, c: char)
    requires
        forall|j: int| 0 <= j < s.len() ==> s[j] != c,
    ensures
        before_first(s, c) == s,
{
    crate::text::lemma_index_of_char_unique(s, c, s.len() as int);
}

/// The chars of the URL forms: slug chars and the punctuation of the prefixes.
spec fn url_char(c: char) -> bool {
    crate::model::is_slug_char(c) || c == '/' || c == ':' || c == '@'
}

/// Every supported github.com URL of a valid `org/repo` parses back to
/// exactly that owner and repository.  Without the `.git` suffix the
/// repository name must not itself end in `.git`, which the parser strips.
pub proof fn lemma_parse_github_url(kind: nat, org: Seq<char>, repo: Seq<char>, dot_git: bool)
    requires
        kind <= 2,
        is_slug(org),
        is_slug(repo),
        dot_git || !".git"@.is_suffix_of(repo),
    ensures
        parse_repo_url(github_url(kind, org, repo, dot_git)) == Ok::<
            (Seq<char>, Seq<char>),
            ErrorView,
        >((org, repo)),
{
    reveal_strlit("git@github.com:");
    reveal_strlit("ssh://git@github.com/");
    reveal_strlit("https://github.com/");
    reveal_strlit("/");
    reveal_strlit(".git");
    reveal_strlit("git@");
    reveal_strlit("ssh://git@");
    let p = github_prefix(kind);
    let tail: Seq<char> = if dot_git {
        ".git"@
    } else {
        seq![]
    };
    let body = org + "/"@ + repo;
    let u = github_url(kind, org, repo, dot_git);
    assert(u =~= p + body + tail);
    let ob = p.len() + org.len();
    assert forall|j: int| 0 <= j < u.len() implies url_char(#[trigger] u[j]) by {
        if j < p.len() {
            assert(u[j] == p[j]);
        } else if j < ob {
            assert(u[j] == org[j - p.len()]);
            assert(crate::model::is_slug_char(org[j - p.len()]));
        } else if j == ob {
        } else if j < ob + 1 + repo.len() {
            assert(u[j] == repo[j - ob - 1]);
            assert(crate::model::is_slug_char(repo[j - ob - 1]));
        } else {
            assert(u[j] == tail[j - ob - 1 - repo.len()]);
        }
    }
    assert(!crate::text::is_whitespace(u[0]));
    assert(u.last() == u[u.len() - 1]);
    assert(url_char(u[u.len() - 1]));
    assert(u.last() != '/') by {
        if dot_git {
            assert(u.last() == 't');
        } else {
            assert(u.last() == repo.last());
            assert(crate::model::is_slug_char(repo[repo.len() - 1]));
        }
    }
    lemma_trim_unchanged(u);
    lemma_before_first_absent(u, '#');
    lemma_before_first_absent(u, '?');
    assert(trim_end_char(u, '/') == u);
    let pb = p + body;
    if dot_git {
        assert(".git"@.is_suffix_of(u));
        assert(u.take(u.len() - 4) =~= pb);
    } else {
        assert(u =~= pb);
        if ".git"@.is_suffix_of(pb) {
            let n = pb.len();
            if repo.len() >= 4 {
                assert forall|k: int| 0 <= k < 4 implies ".git"@[k] == repo[repo.len() - 4 + k] by {
                    assert(pb[n - 4 + k] == repo[repo.len() - 4 + k]);
                }
                assert(".git"@.is_suffix_of(repo));
            } else {
                let k = 3 - repo.len();
                assert(pb[n - 4 + k] == '/');
                assert(".git"@[k] != '/');
            }
        }
    }
    assert(url_core(u) == pb);
    assert(strip_prefix(pb, p) == Some(body)) by {
        assert(p.is_prefix_of(pb));
        assert(pb.skip(p.len() as int) =~= body);
    }
    if kind == 1 {
        assert(!"git@github.com:"@.is_prefix_of(pb)) by {
            assert(pb[0] == 's');
        }
    }
    if kind == 2 {
        assert(!"git@github.com:"@.is_prefix_of(pb)) by {
            assert(pb[0] == 'h');
        }
        assert(!"ssh://git@github.com/"@.is_prefix_of(pb)) by {
            assert(pb[0] == 'h');
        }
    }
    assert(github_path(u) == Ok::<Seq<char>, ErrorView>(body));
    assert forall|j: int| 0 <= j < org.len() implies body[j] != '/' by {
        assert(body[j] == org[j]);
        assert(crate::model::is_slug_char(org[j]));
    }
    crate::text::lemma_index_of_char_unique(body, '/', org.len() as int);
    assert(body.take(org.len() as int) =~= org);
    assert(body.skip(org.len() as int + 1) =~= repo);
    assert(!repo.contains('/')) by {
        if repo.contains('/') {
            let j = choose|j: int| 0 <= j < repo.len() && repo[j] == '/';
            assert(crate::model::is_slug_char(repo[j]));
        }
    }
}

/// The clone URL that the shorthand produces parses back to the same
/// repository: `--org O --repo R` and `--repo-url` of its clone URL agree.
pub proof fn lemma_shorthand_matches_clone_url(org: Seq<char>, repo: Seq<char>)
    requires
        is_slug(org),
        is_slug(repo),
    ensures
        resolve_repo(org, Some(repo), None) == parse_repo_url(clone_url_for(org, repo)),
        resolve_repo(org, None, Some(clone_url_for(org, repo))) == resolve_repo(
            org,
            Some(repo),
            None,
        ),
{
    lemma_parse_github_url(0, org, repo, true);
    assert(github_url(0, org, repo, true) =~= clone_url_for(org, repo));
}

/// Blanks around a URL, a trailing `/` and a `#fragment` never change whether
/// or to what it parses: for a URL `u` without blanks around it, `#` or `?`,
/// `lead + u + "/#" + fragment + tail` with blank `lead` and `tail` names the
/// same repository exactly when `u` does.
pub proof fn lemma_url_decorations_ignored(
    u: Seq<char>,
    lead: Seq<char>,
    fragment: Seq<char>,
    tail: Seq<char>,
)
    requires
        trim(u) == u,
        !u.contains('#'),
        !u.contains('?'),
        forall|i: int| 0 <= i < lead.len() ==> is_whitespace(#[trigger] lead[i]),
        forall|i: int| 0 <= i < tail.len() ==> is_whitespace(#[trigger] tail[i]),
    ensures
        ({
            let p = lead + u + "/#"@ + fragment + tail;
            &&& url_core(p) == url_core(u)
            &&& (parse_repo_url(p) is Ok <==> parse_repo_url(u) is Ok)
            &&& parse_repo_url(p) is Ok ==> parse_repo_url(p) == parse_repo_url(u)
        }),
{
    reveal_strlit("/#");
    let p = lead + u + "/#"@ + fragment + tail;
    let q = u + "/#"@ + fragment + tail;
    let n = u.len() as int;
    assert(p.skip(lead.len() as int) =~= q);
    // Leading blanks go, and `u` (or the `/` after it) starts the rest.
    lemma_trim_start_skip(p, lead.len() as int);
    if n > 0 {
        assert(!is_whitespace(u[0])) by {
            if is_whitespace(u[0]) {
                lemma_trim_shorter(u.drop_first());
                lemma_trim_shorter(trim_start(u.drop_first()));
                assert(trim_start(u) == trim_start(u.drop_first()));
            }
        }
        assert(q[0] == u[0]);
    } else {
        assert(q[0] == '/');
    }
    assert(trim_start(q) == q);
    // Trailing blanks go, but never past the `#`.
    assert(q[n + 1] == '#');
    lemma_trim_end_keeps(q, n + 1);
    let t = trim(p);
    assert(t == trim_end(q));
    assert(t == q.take(t.len() as int));
    // Cutting at the first `#` leaves `u/`.
    assert forall|j: int| 0 <= j < n + 1 implies t[j] != '#' by {
        assert(t[j] == q[j]);
        if j < n {
            assert(q[j] == u[j]);
            if u[j] == '#' {
                assert(u.contains('#'));
            }
        }
    }
    assert(t[n + 1] == '#');
    lemma_index_of_char_unique(t, '#', n + 1);
    let c1 = before_first(t, '#');
    assert(c1 =~= u + seq!['/']);
    assert forall|j: int| 0 <= j < c1.len() implies c1[j] != '?' by {
        if j < n {
            assert(c1[j] == u[j]);
            if u[j] == '?' {
                assert(u.contains('?'));
            }
        }
    }
    lemma_index_of_char_unique(c1, '?', c1.len() as int);
    assert(before_first(c1, '?') == c1);
    assert(c1.drop_last() =~= u);
    assert(trim_end_char(c1, '/') == trim_end_char(u, '/'));
    // The bare URL goes through the same cleanup unchanged.
    assert forall|j: int| 0 <= j < n implies u[j] != '#' by {
        if u[j] == '#' {
            assert(u.contains('#'));
        }
    }
    lemma_index_of_char_unique(u, '#', n);
    assert forall|j: int| 0 <= j < n implies u[j] != '?' by {
        if u[j] == '?' {
            assert(u.contains('?'));
        }
    }
    lemma_index_of_char_unique(u, '?', n);
    assert(url_core(p) == url_core(u));
}

} // verus!
