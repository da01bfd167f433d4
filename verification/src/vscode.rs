//! Paths inside a VM and the VS Code URIs that open them, over Remote-SSH or
//! in the devcontainer.
use vstd::prelude::*;

use crate::cli::VmCodeOpenArgs;
use crate::error::{ErrorView, Failure, TdcError};
use crate::text::{
    after_last, chars_of, concat, find_last_char_end, push_char, replace_char, replace_char_str,
    slice_chars, string_of, strip_prefix, trim, trim_end_char, trim_end_char_chars,
    trim_start_char, trim_start_char_chars, hex_lower, hex_upper, views,
};

verus! {

// ---------------------------------------------------------------------------
// Shell quoting and remote paths
// ---------------------------------------------------------------------------

/// `value` in single quotes for a POSIX shell, each `'` written as `'\''`.
pub open spec fn shell_quote_spec(value: Seq<char>) -> Seq<char> {
    "'"@ + replace_char(value, '\'', "'\\''"@) + "'"@
}

pub fn shell_quote(value: &str) -> (r: String)
    ensures
        r@ == shell_quote_spec(value@),
{
    let mut r = String::new();
    r.append("'");
    let inner = replace_char_str(value, '\'', "'\\''");
    r.append(inner.as_str());
    r.append("'");
    r
}

/// `base` and `path` joined by exactly one `/`.
pub open spec fn join_remote_path_spec(base: Seq<char>, path: Seq<char>) -> Seq<char> {
    trim_end_char(base, '/') + "/"@ + trim_start_char(path, '/')
}

pub fn join_remote_path(base: &str, path: &str) -> (r: String)
    ensures
        r@ == join_remote_path_spec(base@, path@),
{
    let b = chars_of(base);
    let p = chars_of(path);
    let b = trim_end_char_chars(b.as_slice(), '/');
    let p = trim_start_char_chars(p.as_slice(), '/');
    let mut r = string_of(b.as_slice());
    r.append("/");
    let ps = string_of(p.as_slice());
    r.append(ps.as_str());
    r
}

/// Whether a path given for `vm code` is already absolute, so that the VM's
/// home directory is not needed to resolve it.
pub open spec fn is_absolute_vm_path(path: Seq<char>) -> bool {
    path.len() > 0 && path[0] == '/'
}

pub fn vm_path_is_absolute(path: &str) -> (r: bool)
    ensures
        r == is_absolute_vm_path(path@),
{
    let v = chars_of(path);
    v.len() > 0 && v[0] == '/'
}

/// A `vm code` path made absolute against the VM user's home directory:
/// `~` is the home, `~/x` and relative paths are joined onto it.
pub open spec fn absolute_vm_path_spec(path: Seq<char>, home: Seq<char>) -> Seq<char> {
    if path == "~"@ {
        home
    } else if let Some(rest) = strip_prefix(path, "~/"@) {
        join_remote_path_spec(home, rest)
    } else if is_absolute_vm_path(path) {
        path
    } else {
        join_remote_path_spec(home, path)
    }
}

pub fn absolute_vm_path(path: &str, home: &str) -> (r: String)
    ensures
        r@ == absolute_vm_path_spec(path@, home@),
{
    if crate::text::str_eq(path, "~") {
        return home.to_owned();
    }
    let pv = chars_of(path);
    let tilde = chars_of("~/");
    if let Some(rest) = crate::text::strip_prefix_chars(pv.as_slice(), tilde.as_slice()) {
        let rest_s = string_of(rest.as_slice());
        return join_remote_path(home, rest_s.as_str());
    }
    if vm_path_is_absolute(path) {
        return path.to_owned();
    }
    join_remote_path(home, path)
}

/// The VM user's home directory from the output of `printf %s "$HOME"`.
pub open spec fn remote_home_spec(output: Seq<char>) -> Result<Seq<char>, ErrorView> {
    if trim(output).len() == 0 {
        Err(Failure::EmptyRemoteHome)
    } else {
        Ok(trim(output))
    }
}

pub fn remote_home_from_output(output: &str) -> (r: Result<String, TdcError>)
    ensures
        match remote_home_spec(output@) {
            Ok(h) => r matches Ok(s) && s@ == h,
            Err(e) => r matches Err(x) && x@ == e,
        },
{
    let home = crate::text::trim_str(output);
    if home.as_str().is_empty() {
        Err(Failure::EmptyRemoteHome)
    } else {
        Ok(home)
    }
}

/// The Docker host of the VM's current Docker context, from the inspection's
/// exit status and output; none when the inspection failed or printed nothing.
pub open spec fn docker_host_spec(success: bool, output: Seq<char>) -> Option<Seq<char>> {
    if !success || trim(output).len() == 0 {
        None
    } else {
        Some(trim(output))
    }
}

pub fn docker_host_from_output(success: bool, output: &str) -> (r: Option<String>)
    ensures
        match docker_host_spec(success, output@) {
            Some(h) => r matches Some(s) && s@ == h,
            None => r is None,
        },
{
    if !success {
        return None;
    }
    let host = crate::text::trim_str(output);
    if host.as_str().is_empty() {
        None
    } else {
        Some(host)
    }
}

/// The folder `vm code` opens: `--path` as given, or `~/work/<repo>`.
pub open spec fn code_path_spec(args: VmCodeOpenArgs) -> Result<Seq<char>, ErrorView> {
    let repo_provided = args.repo.repo is Some || args.repo.repo_url is Some;
    let path_provided = args.path is Some;
    if !repo_provided && !path_provided {
        Err(Failure::MissingCodePath)
    } else if repo_provided && path_provided {
        Err(Failure::PathWithRepo)
    } else if let Some(path) = args.path {
        if trim(path@).len() == 0 {
            Err(Failure::EmptyPath)
        } else {
            Ok(path@)
        }
    } else {
        match crate::github::resolve_repo(
            args.repo.org@,
            opt_string_view(args.repo.repo),
            opt_string_view(args.repo.repo_url),
        ) {
            Ok((_, repo)) => Ok("~/work/"@ + repo),
            Err(e) => Err(e),
        }
    }
}

/// The text of an optional `String`.
pub open spec fn opt_string_view(o: Option<String>) -> Option<Seq<char>> {
    match o {
        Some(s) => Some(s@),
        None => None,
    }
}

/// An optional `String` as an optional `&str`.
pub fn opt_str(o: &Option<String>) -> (r: Option<&str>)
    ensures
        crate::github::opt_view(r) == opt_string_view(*o),
{
    match o {
        Some(s) => Some(s.as_str()),
        None => None,
    }
}

pub fn code_path_arg(args: &VmCodeOpenArgs) -> (r: Result<String, TdcError>)
    ensures
        match code_path_spec(*args) {
            Ok(p) => r matches Ok(s) && s@ == p,
            Err(e) => r matches Err(x) && x@ == e,
        },
{
    let repo_provided = args.repo.repo.is_some() || args.repo.repo_url.is_some();
    let path_provided = args.path.is_some();
    if !repo_provided && !path_provided {
        return Err(Failure::MissingCodePath);
    }
    if repo_provided && path_provided {
        return Err(Failure::PathWithRepo);
    }
    if let Some(path) = &args.path {
        let t = crate::text::trim_str(path.as_str());
        if t.as_str().is_empty() {
            return Err(Failure::EmptyPath);
        }
        return Ok(path.clone());
    }
    let spec = crate::github::resolve_repo_input(
        args.repo.org.as_str(),
        opt_str(&args.repo.repo),
        opt_str(&args.repo.repo_url),
    );
    match spec {
        Ok(spec) => Ok(concat("~/work/", spec.repo.as_str())),
        Err(e) => Err(e),
    }
}

// ---------------------------------------------------------------------------
// Encodings
// ---------------------------------------------------------------------------

/// A byte that stays as it is in a URI path.
pub open spec fn is_uri_path_byte(b: u8) -> bool {
    ||| (65 <= b && b <= 90)
    ||| (97 <= b && b <= 122)
    ||| (48 <= b && b <= 57)
    ||| b == 47
    ||| b == 45
    ||| b == 46
    ||| b == 95
    ||| b == 126
}

/// One byte of a URI path: as its char, or `%XX` in upper-case hex.
pub open spec fn uri_encode_byte(b: u8) -> Seq<char> {
    if is_uri_path_byte(b) {
        seq![b as char]
    } else {
        seq!['%', hex_upper((b / 16) as nat), hex_upper((b % 16) as nat)]
    }
}

/// A URI path: each byte encoded in turn.
pub open spec fn uri_encode(bytes: Seq<u8>) -> Seq<char>
    decreases bytes.len(),
{
    if bytes.len() == 0 {
        seq![]
    } else {
        uri_encode(bytes.drop_last()) + uri_encode_byte(bytes.last())
    }
}

/// Lower-case hexadecimal, two digits per byte.
pub open spec fn hex_encode_spec(bytes: Seq<u8>) -> Seq<char>
    decreases bytes.len(),
{
    if bytes.len() == 0 {
        seq![]
    } else {
        hex_encode_spec(bytes.drop_last()) + seq![
            hex_lower((bytes.last() / 16) as nat),
            hex_lower((bytes.last() % 16) as nat),
        ]
    }
}

fn hex_digit_upper(d: u8) -> (c: char)
    requires
        d < 16,
    ensures
        c == hex_upper(d as nat),
{
    if d < 10 {
        (48 + d) as char
    } else {
        (55 + d) as char
    }
}

fn hex_digit_lower(d: u8) -> (c: char)
    requires
        d < 16,
    ensures
        c == hex_lower(d as nat),
{
    if d < 10 {
        (48 + d) as char
    } else {
        (87 + d) as char
    }
}

fn is_uri_path_byte_exec(b: u8) -> (r: bool)
    ensures
        r == is_uri_path_byte(b),
{
    (65 <= b && b <= 90) || (97 <= b && b <= 122) || (48 <= b && b <= 57) || b == 47 || b == 45
        || b == 46 || b == 95 || b == 126
}

pub fn uri_encode_path(path: &str) -> (r: String)
    ensures
        r@ == uri_encode(vstd::utf8::encode_utf8(path@)),
{
    let bytes = path.as_bytes();
    let mut r = String::new();
    let mut i: usize = 0;
    while i < bytes.len()
        invariant
            0 <= i <= bytes.len(),
            bytes@ == vstd::utf8::encode_utf8(path@),
            r@ == uri_encode(bytes@.take(i as int)),
        decreases bytes.len() - i,
    {
        let b = bytes[i];
        assert(bytes@.take(i + 1).drop_last() =~= bytes@.take(i as int));
        if is_uri_path_byte_exec(b) {
            push_char(&mut r, b as char);
        } else {
            push_char(&mut r, '%');
            push_char(&mut r, hex_digit_upper(b / 16));
            push_char(&mut r, hex_digit_upper(b % 16));
        }
        i = i + 1;
    }
    assert(bytes@.take(bytes.len() as int) =~= bytes@);
    r
}

pub fn hex_encode(value: &str) -> (r: String)
    ensures
        r@ == hex_encode_spec(vstd::utf8::encode_utf8(value@)),
{
    let bytes = value.as_bytes();
    let mut r = String::new();
    let mut i: usize = 0;
    while i < bytes.len()
        invariant
            0 <= i <= bytes.len(),
            bytes@ == vstd::utf8::encode_utf8(value@),
            r@ == hex_encode_spec(bytes@.take(i as int)),
        decreases bytes.len() - i,
    {
        let b = bytes[i];
        assert(bytes@.take(i + 1).drop_last() =~= bytes@.take(i as int));
        push_char(&mut r, hex_digit_lower(b / 16));
        push_char(&mut r, hex_digit_lower(b % 16));
        i = i + 1;
    }
    assert(bytes@.take(bytes.len() as int) =~= bytes@);
    r
}

/// Unicode general category `Cc`, what `char::is_control` tests.
pub open spec fn is_control(c: char) -> bool {
    c <= '\u{1f}' || ('\u{7f}' <= c && c <= '\u{9f}')
}

/// The four lower-case hexadecimal digits of `n < 65536`.
pub open spec fn hex4(n: nat) -> Seq<char> {
    seq![
        hex_lower((n / 4096) % 16),
        hex_lower((n / 256) % 16),
        hex_lower((n / 16) % 16),
        hex_lower(n % 16),
    ]
}

/// One char inside a JSON string literal.
pub open spec fn json_escape(c: char) -> Seq<char> {
    if c == '"' {
        seq!['\\', '"']
    } else if c == '\\' {
        seq!['\\', '\\']
    } else if c == '\n' {
        seq!['\\', 'n']
    } else if c == '\r' {
        seq!['\\', 'r']
    } else if c == '\t' {
        seq!['\\', 't']
    } else if is_control(c) {
        seq!['\\', 'u'] + hex4(c as nat)
    } else {
        seq![c]
    }
}

/// The escaped chars of `s`, in order.
pub open spec fn json_escape_all(s: Seq<char>) -> Seq<char>
    decreases s.len(),
{
    if s.len() == 0 {
        seq![]
    } else {
        json_escape_all(s.drop_last()) + json_escape(s.last())
    }
}

/// `s` as a JSON string literal.
pub open spec fn json_string_spec(s: Seq<char>) -> Seq<char> {
    seq!['"'] + json_escape_all(s) + seq!['"']
}

fn push_json_escape(out: &mut String, c: char)
    ensures
        final(out)@ == old(out)@ + json_escape(c),
{
    if c == '"' {
        push_char(out, '\\');
        push_char(out, '"');
    } else if c == '\\' {
        push_char(out, '\\');
        push_char(out, '\\');
    } else if c == '\n' {
        push_char(out, '\\');
        push_char(out, 'n');
    } else if c == '\r' {
        push_char(out, '\\');
        push_char(out, 'r');
    } else if c == '\t' {
        push_char(out, '\\');
        push_char(out, 't');
    } else if c <= '\u{1f}' || ('\u{7f}' <= c && c <= '\u{9f}') {
        let n = c as u32;
        push_char(out, '\\');
        push_char(out, 'u');
        push_char(out, hex_digit_lower(((n / 4096) % 16) as u8));
        push_char(out, hex_digit_lower(((n / 256) % 16) as u8));
        push_char(out, hex_digit_lower(((n / 16) % 16) as u8));
        push_char(out, hex_digit_lower((n % 16) as u8));
        assert(final(out)@ =~= old(out)@ + json_escape(c));
    } else {
        push_char(out, c);
    }
}

pub fn json_string(value: &str) -> (r: String)
    ensures
        r@ == json_string_spec(value@),
{
    let v = chars_of(value);
    let mut r = String::new();
    push_char(&mut r, '"');
    let mut i: usize = 0;
    while i < v.len()
        invariant
            0 <= i <= v.len(),
            v@ == value@,
            r@ == seq!['"'] + json_escape_all(v@.take(i as int)),
        decreases v.len() - i,
    {
        assert(v@.take(i + 1).drop_last() =~= v@.take(i as int));
        push_json_escape(&mut r, v[i]);
        i = i + 1;
    }
    assert(v@.take(v.len() as int) =~= v@);
    push_char(&mut r, '"');
    r
}

// ---------------------------------------------------------------------------
// VS Code URIs
// ---------------------------------------------------------------------------

/// The Remote-SSH URI of a folder in the VM.
pub open spec fn remote_ssh_uri_spec(host: Seq<char>, path: Seq<char>) -> Seq<char> {
    "vscode-remote://ssh-remote+"@ + host + uri_encode(vstd::utf8::encode_utf8(path))
}

pub fn vscode_remote_ssh_uri(host: &str, path: &str) -> (r: String)
    ensures
        r@ == remote_ssh_uri_spec(host@, path@),
{
    let mut r = concat("vscode-remote://ssh-remote+", host);
    let enc = uri_encode_path(path);
    r.append(enc.as_str());
    r
}

/// The devcontainer's workspace folder: `/workspaces/` and the last segment of
/// the VM folder, trailing slashes ignored.
pub open spec fn workspace_path_spec(host_path: Seq<char>) -> Result<Seq<char>, ErrorView> {
    let name = after_last(trim_end_char(host_path, '/'), '/');
    if name.len() == 0 {
        Err(Failure::NoWorkspacePath)
    } else {
        Ok("/workspaces/"@ + name)
    }
}

pub fn default_devcontainer_workspace_path(host_path: &str) -> (r: Result<String, TdcError>)
    ensures
        match workspace_path_spec(host_path@) {
            Ok(p) => r matches Ok(s) && s@ == p,
            Err(e) => r matches Err(x) && x@ == e,
        },
{
    let v = chars_of(host_path);
    let t = trim_end_char_chars(v.as_slice(), '/');
    let start = find_last_char_end(t.as_slice(), '/');
    let name = slice_chars(t.as_slice(), start, t.len());
    assert(name@ =~= after_last(t@, '/'));
    if name.len() == 0 {
        return Err(Failure::NoWorkspacePath);
    }
    let name_s = string_of(name.as_slice());
    Ok(concat("/workspaces/", name_s.as_str()))
}

/// What the devcontainer URI identifies the container by: the VM folder alone,
/// or a JSON object with the folder and the Docker host.
pub open spec fn authority_config_spec(host_path: Seq<char>, docker_host: Option<Seq<char>>) -> Seq<
    char,
> {
    match docker_host {
        Some(d) => "{\"hostPath\":"@ + json_string_spec(host_path) + ",\"settings\":{\"host\":"@
            + json_string_spec(d) + "}}"@,
        None => host_path,
    }
}

pub fn devcontainer_authority_config(host_path: &str, docker_host: Option<&str>) -> (r: String)
    ensures
        r@ == authority_config_spec(host_path@, crate::github::opt_view(docker_host)),
{
    match docker_host {
        Some(docker_host) => {
            let mut r = String::new();
            r.append("{\"hostPath\":");
            let a = json_string(host_path);
            r.append(a.as_str());
            r.append(",\"settings\":{\"host\":");
            let b = json_string(docker_host);
            r.append(b.as_str());
            r.append("}}");
            r
        },
        None => host_path.to_owned(),
    }
}

/// The Dev Containers URI that opens a VM folder inside its devcontainer.
pub open spec fn devcontainer_uri_spec(
    host: Seq<char>,
    host_path: Seq<char>,
    docker_host: Option<Seq<char>>,
) -> Result<Seq<char>, ErrorView> {
    match workspace_path_spec(host_path) {
        Err(e) => Err(e),
        Ok(workspace) => Ok(
            "vscode-remote://dev-container+"@ + hex_encode_spec(
                vstd::utf8::encode_utf8(authority_config_spec(host_path, docker_host)),
            ) + "@ssh-remote+"@ + host + uri_encode(vstd::utf8::encode_utf8(workspace)),
        ),
    }
}

pub fn vscode_devcontainer_uri(host: &str, host_path: &str, docker_host: Option<&str>) -> (r:
    Result<String, TdcError>)
    ensures
        match devcontainer_uri_spec(host@, host_path@, crate::github::opt_view(docker_host)) {
            Ok(u) => r matches Ok(s) && s@ == u,
            Err(e) => r matches Err(x) && x@ == e,
        },
{
    let workspace_path = match default_devcontainer_workspace_path(host_path) {
        Ok(p) => p,
        Err(e) => return Err(e),
    };
    let authority_config = devcontainer_authority_config(host_path, docker_host);
    let mut r = String::new();
    r.append("vscode-remote://dev-container+");
    let hex = hex_encode(authority_config.as_str());
    r.append(hex.as_str());
    r.append("@ssh-remote+");
    r.append(host);
    let enc = uri_encode_path(workspace_path.as_str());
    r.append(enc.as_str());
    Ok(r)
}

/// The arguments of the `code` command that opens `uri`.
pub open spec fn code_open_args_spec(uri: Seq<char>, new_window: bool, reuse_window: bool) -> Seq<
    Seq<char>,
> {
    (if new_window || !reuse_window {
        seq!["--new-window"@]
    } else {
        seq![]
    }) + (if reuse_window {
        seq!["--reuse-window"@]
    } else {
        seq![]
    }) + seq!["--folder-uri"@, uri]
}

pub fn code_open_args(uri: &str, new_window: bool, reuse_window: bool) -> (r: Vec<String>)
    ensures
        crate::text::views(r@) == code_open_args_spec(uri@, new_window, reuse_window),
{
    let mut r: Vec<String> = Vec::new();
    if new_window || !reuse_window {
        r.push("--new-window".to_owned());
    }
    if reuse_window {
        r.push("--reuse-window".to_owned());
    }
    r.push("--folder-uri".to_owned());
    r.push(uri.to_owned());
    assert(crate::text::views(r@) =~= code_open_args_spec(uri@, new_window, reuse_window));
    r
}


/// The remote command that checks that a VM path is a directory.
pub open spec fn directory_check_spec(path: Seq<char>) -> Seq<char> {
    "test -d "@ + shell_quote_spec(path)
}

pub fn directory_check(path: &str) -> (r: String)
    ensures
        r@ == directory_check_spec(path@),
{
    let q = shell_quote(path);
    concat("test -d ", q.as_str())
}

/// What prints the VM user's home directory, read by [`remote_home_from_output`].
pub open spec fn remote_home_command_spec(host: Seq<char>) -> Seq<Seq<char>> {
    seq!["ssh"@, host, "printf %s \"$HOME\""@]
}

pub fn remote_home_command(host: &str) -> (r: Vec<String>)
    ensures
        views(r@) == remote_home_command_spec(host@),
{
    let r = vec![
        "ssh".to_owned(),
        host.to_owned(),
        "printf %s \"$HOME\"".to_owned(),
    ];
    assert(views(r@) =~= remote_home_command_spec(host@));
    r
}

/// What prints the Docker host of the VM's current context, read by [`docker_host_from_output`].
pub open spec fn docker_host_command_spec(host: Seq<char>) -> Seq<Seq<char>> {
    seq!["ssh"@, host, r#"docker context inspect "$(docker context show)" --format '{{ (index .Endpoints "docker").Host }}' 2>/dev/null"#@]
}

pub fn docker_host_command(host: &str) -> (r: Vec<String>)
    ensures
        views(r@) == docker_host_command_spec(host@),
{
    let r = vec![
        "ssh".to_owned(),
        host.to_owned(),
        r#"docker context inspect "$(docker context show)" --format '{{ (index .Endpoints "docker").Host }}' 2>/dev/null"#.to_owned(),
    ];
    assert(views(r@) =~= docker_host_command_spec(host@));
    r
}

} // verus!
