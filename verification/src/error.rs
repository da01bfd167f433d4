//! The ways a `tdc` request can be refused before or between outside steps.
use vstd::prelude::*;

use crate::text::concat;

verus! {

/// A refusal, with the text it is about.  `S` is `String` in executable code
/// and `Seq<char>` in specifications (see [`TdcError`] and [`ErrorView`]).
#[derive(Clone, Debug, PartialEq, Eq)]
pub enum Failure<S> {
    /// `--repo` and `--repo-url` were both given.
    RepoArgsConflict,
    /// Neither `--repo` nor `--repo-url` was given.
    MissingRepoInput,
    /// The `--org` value is not a slug.
    InvalidOwner(S),
    /// The `--repo` value is not a slug.
    InvalidRepo(S),
    /// An SSH URL of a host other than github.com (the raw URL).
    UnsupportedSshUrl(S),
    /// An HTTP(S) URL of a host other than github.com (the raw URL).
    UnsupportedHttpsUrl(S),
    /// Text that is no repository URL tdc knows (the raw URL).
    UnsupportedUrlFormat(S),
    /// A github.com URL without an owner/repo path (the raw URL).
    UrlWithoutOwnerRepo(S),
    /// A github.com URL with more than owner/repo in its path (the raw URL).
    UrlNotSingleRepo(S),
    /// The owner in a URL is not a slug.
    UrlInvalidOwner(S),
    /// The repository in a URL is not a slug.
    UrlInvalidRepo(S),
    /// A required command is not on `PATH`.
    MissingCommand(S),
    /// The embedded payload has no `VERSION` file.
    MissingVersionFile,
    /// The client slug is not a slug.
    InvalidClientSlug(S),
    /// The VM name is not a slug.
    InvalidVmName(S),
    /// `--client` and `--vm` were both given (the command's usage line).
    ClientVmConflict(S),
    /// Neither `--client` nor `--vm` was given (the command's usage line).
    MissingVmTarget(S),
    /// `vm key remove` without `--yes`.
    KeyRemoveNotConfirmed,
    /// `manpage --raw` together with `--install`.
    RawInstallConflict,
    /// `HOME` is unset or empty.
    HomeNotSet,
    /// The VS Code `code` command is not on `PATH`.
    MissingCodeCli,
    /// `vm code` without `--repo`, `--repo-url` or `--path`.
    MissingCodePath,
    /// `vm code` with `--path` and a repository.
    PathWithRepo,
    /// `vm code --path` with blank text.
    EmptyPath,
    /// The VM reported an empty home directory.
    EmptyRemoteHome,
    /// No last path segment to name the devcontainer workspace after.
    NoWorkspacePath,
    /// `vm code` for a VM that does not exist.
    VmNotFound(S),
    /// `vm code` for a VM path that is not a directory.
    VmPathMissing(S),
    /// The SSH host did not answer within the attempts that are waited for.
    SshTimeout(S),
    /// An outside step failed; the text is its error as reported.
    StepFailed(S),
    /// A snapshot change failed: what was being done, and the error of
    /// `limactl snapshot`.
    SnapshotFailed(S, S),
    /// The QEMU backend was asked for and this binary is not on `PATH`.
    MissingQemu(S),
    /// The profile image is missing in the VM: the image reference, the
    /// profile, and the `--client`/`--vm` selector to rebuild it with.
    MissingProfileImage(S, S, S),
    /// After a build, these image references (one per line, indented) are missing.
    MissingBuiltImages(S),
}

/// A refusal in executable code.
pub type TdcError = Failure<String>;

/// A refusal in specifications.
pub type ErrorView = Failure<Seq<char>>;

impl View for Failure<String> {
    type V = Failure<Seq<char>>;

    open spec fn view(&self) -> Failure<Seq<char>> {
        match self {
            Failure::RepoArgsConflict => Failure::RepoArgsConflict,
            Failure::MissingRepoInput => Failure::MissingRepoInput,
            Failure::InvalidOwner(s) => Failure::InvalidOwner(s@),
            Failure::InvalidRepo(s) => Failure::InvalidRepo(s@),
            Failure::UnsupportedSshUrl(s) => Failure::UnsupportedSshUrl(s@),
            Failure::UnsupportedHttpsUrl(s) => Failure::UnsupportedHttpsUrl(s@),
            Failure::UnsupportedUrlFormat(s) => Failure::UnsupportedUrlFormat(s@),
            Failure::UrlWithoutOwnerRepo(s) => Failure::UrlWithoutOwnerRepo(s@),
            Failure::UrlNotSingleRepo(s) => Failure::UrlNotSingleRepo(s@),
            Failure::UrlInvalidOwner(s) => Failure::UrlInvalidOwner(s@),
            Failure::UrlInvalidRepo(s) => Failure::UrlInvalidRepo(s@),
            Failure::MissingCommand(s) => Failure::MissingCommand(s@),
            Failure::MissingVersionFile => Failure::MissingVersionFile,
            Failure::InvalidClientSlug(s) => Failure::InvalidClientSlug(s@),
            Failure::InvalidVmName(s) => Failure::InvalidVmName(s@),
            Failure::ClientVmConflict(s) => Failure::ClientVmConflict(s@),
            Failure::MissingVmTarget(s) => Failure::MissingVmTarget(s@),
            Failure::KeyRemoveNotConfirmed => Failure::KeyRemoveNotConfirmed,
            Failure::RawInstallConflict => Failure::RawInstallConflict,
            Failure::HomeNotSet => Failure::HomeNotSet,
            Failure::MissingCodeCli => Failure::MissingCodeCli,
            Failure::MissingCodePath => Failure::MissingCodePath,
            Failure::PathWithRepo => Failure::PathWithRepo,
            Failure::EmptyPath => Failure::EmptyPath,
            Failure::EmptyRemoteHome => Failure::EmptyRemoteHome,
            Failure::NoWorkspacePath => Failure::NoWorkspacePath,
            Failure::VmNotFound(s) => Failure::VmNotFound(s@),
            Failure::VmPathMissing(s) => Failure::VmPathMissing(s@),
            Failure::SshTimeout(s) => Failure::SshTimeout(s@),
            Failure::StepFailed(s) => Failure::StepFailed(s@),
            Failure::SnapshotFailed(c, e) => Failure::SnapshotFailed(c@, e@),
        Failure::MissingQemu(s) => Failure::MissingQemu(s@),
            Failure::MissingProfileImage(a, b, c) => Failure::MissingProfileImage(a@, b@, c@),
            Failure::MissingBuiltImages(s) => Failure::MissingBuiltImages(s@),
        }
    }
}

/// What `tdc` prints for a refusal.
pub open spec fn message_spec(e: ErrorView) -> Seq<char> {
    match e {
        Failure::RepoArgsConflict => "--repo and --repo-url are mutually exclusive"@,
        Failure::MissingRepoInput => "missing repo input: pass --repo <REPO> or --repo-url <URL>"@,
        Failure::InvalidOwner(s) => "invalid GitHub owner: "@ + s,
        Failure::InvalidRepo(s) => "invalid GitHub repo: "@ + s,
        Failure::UnsupportedSshUrl(s) => "only github.com SSH repo URLs are supported: "@ + s,
        Failure::UnsupportedHttpsUrl(s) => "only github.com HTTPS repo URLs are supported: "@ + s,
        Failure::UnsupportedUrlFormat(s) => "unsupported repo URL format: "@ + s,
        Failure::UrlWithoutOwnerRepo(s) => "repo URL must identify owner/repo: "@ + s,
        Failure::UrlNotSingleRepo(s) => "repo URL must identify exactly one GitHub repo: "@ + s,
        Failure::UrlInvalidOwner(s) => "invalid GitHub owner in repo URL: "@ + s,
        Failure::UrlInvalidRepo(s) => "invalid GitHub repo in repo URL: "@ + s,
        Failure::MissingCommand(s) => "missing required command on PATH: "@ + s,
        Failure::MissingVersionFile => "embedded payload is missing VERSION"@,
        Failure::InvalidClientSlug(s) => "invalid client slug: "@ + s,
        Failure::InvalidVmName(s) => "invalid VM name: "@ + s,
        Failure::ClientVmConflict(s) => "the argument '--client <CLIENT>' cannot be used with '--vm <VM>'\n\nUsage: "@ + s,
        Failure::MissingVmTarget(s) => "the following required arguments were not provided:\n  --client <CLIENT> or --vm <VM>\n\nUsage: "@ + s,
        Failure::KeyRemoveNotConfirmed => "refusing to remove VM-local GitHub key without --yes\n\nUsage: tdc vm key remove --client <CLIENT> [--vm <VM>] --yes"@,
        Failure::RawInstallConflict => "--raw and --install cannot be used together"@,
        Failure::HomeNotSet => "HOME is not set"@,
        Failure::MissingCodeCli => "missing VS Code CLI on PATH: code\n\nIn VS Code, run:\n  Shell Command: Install 'code' command in PATH"@,
        Failure::MissingCodePath => "provide one of --repo <REPO>, --repo-url <URL>, or --path <PATH>"@,
        Failure::PathWithRepo => "--path cannot be used with --repo or --repo-url"@,
        Failure::EmptyPath => "--path cannot be empty"@,
        Failure::EmptyRemoteHome => "failed to resolve home directory in VM"@,
        Failure::NoWorkspacePath => "cannot derive devcontainer workspace path from VM path"@,
        Failure::VmNotFound(s) => "VM '"@ + s + "' does not exist. Create it first with `tdc vm new`."@,
        Failure::VmPathMissing(s) => "VM path does not exist or is not a directory: "@ + s,
        Failure::SshTimeout(s) => "timed out waiting for SSH host "@ + s,
        Failure::StepFailed(s) => s,
        Failure::SnapshotFailed(context, cause) => context + ": "@ + cause,
        Failure::MissingQemu(s) => "QEMU VM backend requested but `"@ + s + "` is not on PATH.\n\nInstall QEMU with:\n  brew install qemu\n\nIf QEMU is already installed, make sure its bin directory is on PATH.\nFor a VZ-backed VM without setup snapshots, use:\n  --vm-type vz --no-snapshots"@,
        Failure::MissingBuiltImages(s) => "image build completed, but expected image(s) are missing in the VM:\n  "@ + s,
        Failure::MissingProfileImage(image_ref, profile, target) => "missing trusted image in VM: "@
            + image_ref + "\n\nBuild it with:\n  tdc images build "@ + profile + " "@ + target
            + "\n\nThen retry the devcontainer operation."@,
    }
}

impl Failure<String> {
    /// The text of this refusal, as `tdc` prints it.
    pub fn message(&self) -> (r: String)
        ensures
            r@ == message_spec(self@),
    {
        match self {
            Failure::RepoArgsConflict => "--repo and --repo-url are mutually exclusive".to_owned(),
            Failure::MissingRepoInput => "missing repo input: pass --repo <REPO> or --repo-url <URL>".to_owned(),
            Failure::InvalidOwner(s) => concat("invalid GitHub owner: ", s.as_str()),
            Failure::InvalidRepo(s) => concat("invalid GitHub repo: ", s.as_str()),
            Failure::UnsupportedSshUrl(s) => concat("only github.com SSH repo URLs are supported: ", s.as_str()),
            Failure::UnsupportedHttpsUrl(s) => concat("only github.com HTTPS repo URLs are supported: ", s.as_str()),
            Failure::UnsupportedUrlFormat(s) => concat("unsupported repo URL format: ", s.as_str()),
            Failure::UrlWithoutOwnerRepo(s) => concat("repo URL must identify owner/repo: ", s.as_str()),
            Failure::UrlNotSingleRepo(s) => concat("repo URL must identify exactly one GitHub repo: ", s.as_str()),
            Failure::UrlInvalidOwner(s) => concat("invalid GitHub owner in repo URL: ", s.as_str()),
            Failure::UrlInvalidRepo(s) => concat("invalid GitHub repo in repo URL: ", s.as_str()),
            Failure::MissingCommand(s) => concat("missing required command on PATH: ", s.as_str()),
            Failure::MissingVersionFile => "embedded payload is missing VERSION".to_owned(),
            Failure::InvalidClientSlug(s) => concat("invalid client slug: ", s.as_str()),
            Failure::InvalidVmName(s) => concat("invalid VM name: ", s.as_str()),
            Failure::ClientVmConflict(s) => concat("the argument '--client <CLIENT>' cannot be used with '--vm <VM>'\n\nUsage: ", s.as_str()),
            Failure::MissingVmTarget(s) => concat("the following required arguments were not provided:\n  --client <CLIENT> or --vm <VM>\n\nUsage: ", s.as_str()),
            Failure::KeyRemoveNotConfirmed => "refusing to remove VM-local GitHub key without --yes\n\nUsage: tdc vm key remove --client <CLIENT> [--vm <VM>] --yes".to_owned(),
            Failure::RawInstallConflict => "--raw and --install cannot be used together".to_owned(),
            Failure::HomeNotSet => "HOME is not set".to_owned(),
            Failure::MissingCodeCli => "missing VS Code CLI on PATH: code\n\nIn VS Code, run:\n  Shell Command: Install 'code' command in PATH".to_owned(),
            Failure::MissingCodePath => "provide one of --repo <REPO>, --repo-url <URL>, or --path <PATH>".to_owned(),
            Failure::PathWithRepo => "--path cannot be used with --repo or --repo-url".to_owned(),
            Failure::EmptyPath => "--path cannot be empty".to_owned(),
            Failure::EmptyRemoteHome => "failed to resolve home directory in VM".to_owned(),
            Failure::NoWorkspacePath => "cannot derive devcontainer workspace path from VM path".to_owned(),
            Failure::VmNotFound(s) => {
                let mut r = concat("VM '", s.as_str());
                r.append("' does not exist. Create it first with `tdc vm new`.");
                r
            },
            Failure::SshTimeout(s) => concat("timed out waiting for SSH host ", s.as_str()),
            Failure::StepFailed(s) => s.clone(),
            Failure::SnapshotFailed(context, cause) => {
                let mut r = concat(context.as_str(), ": ");
                r.append(cause.as_str());
                r
            },
            Failure::VmPathMissing(s) => concat(
                "VM path does not exist or is not a directory: ",
                s.as_str(),
            ),
            Failure::MissingQemu(s) => {
                let mut r = concat("QEMU VM backend requested but `", s.as_str());
                r.append("` is not on PATH.\n\nInstall QEMU with:\n  brew install qemu\n\nIf QEMU is already installed, make sure its bin directory is on PATH.\nFor a VZ-backed VM without setup snapshots, use:\n  --vm-type vz --no-snapshots");
                r
            },
            Failure::MissingBuiltImages(s) => concat("image build completed, but expected image(s) are missing in the VM:\n  ", s.as_str()),
            Failure::MissingProfileImage(image_ref, profile, target) => {
                let mut r = concat("missing trusted image in VM: ", image_ref.as_str());
                r.append("\n\nBuild it with:\n  tdc images build ");
                r.append(profile.as_str());
                r.append(" ");
                r.append(target.as_str());
                r.append("\n\nThen retry the devcontainer operation.");
                r
            },
        }
    }
}

} // verus!
