//! What each `tdc` subcommand does, as a plan: the outside steps in the order
//! they run, with every decision that the arguments settle taken here.  The
//! first step that fails ends the command; a `Fail` step fails by itself.
use vstd::prelude::*;

use crate::cli::{
    VmSnapshotArgs, VmSnapshotCommand, DevcontainerUseArgs, ImagesBuildArgs, RepoDeleteArgs, VmClientTargetArgs, VmCodeOpenArgs,
    VmDeleteArgs, VmKeyRemoveArgs, VmNewArgs, VmSnapshotTagArgs, VmStopArgs, VmTargetArgs,
};
use crate::error::{ErrorView, Failure, TdcError};
use crate::github::{resolve_repo, resolve_repo_input, RepoSpec};
use crate::model::{
    default_vm_name, is_slug, is_valid_slug, lima_host, lima_host_name, vm_default, Profile,
    VmType,
};
use crate::scripts::RemoteScript;
use crate::text::{concat, views};
use crate::vscode::{code_path_arg, code_path_spec, opt_str, opt_string_view};

verus! {

/// One outside step.  `S` is `String` and `L` is `Vec<String>` in executable
/// code ([`Step`]); in specifications they are `Seq<char>` and
/// `Seq<Seq<char>>` ([`StepView`]).
#[derive(Clone, Debug)]
pub enum StepOf<S, L> {
    /// Refuse the first of these commands that is not on `PATH`.
    RequireCommands(L),
    /// Refuse the request.
    Fail(Failure<S>),
    /// For the QEMU backend, require the QEMU binary of the host architecture.
    EnsureVmTypePrerequisites(VmType),
    /// Make `~/.ssh/config` include Lima's per-VM SSH configs.
    EnsureHostSshInclude,
    /// Bring the VM up, creating it with these resources when it is missing.
    StartVm { vm: S, vm_type: VmType, cpus: u16, memory: u16, disk: u16 },
    /// Wait until the SSH host answers.
    WaitForSsh(S),
    /// Sync the embedded payload into `~/trusted-devcontainers` on the host.
    SyncPayload(S),
    /// Run a script on the host with these arguments.
    RemoteScript(S, RemoteScript, L),
    /// Print the client's public key and, when `prompt`, wait for Enter.
    PrintKeyAndMaybeWait { host: S, key_name: S, prompt: bool },
    /// Stop the VM, create this snapshot, start it again.
    Snapshot { vm: S, tag: S },
    /// Stop the VM, apply this snapshot, start it again.
    ApplySnapshot { vm: S, tag: S },
    /// Require the packaged version's image of this profile in the VM.
    EnsureProfileImage { host: S, profile: Profile, client: S, vm: S },
    /// Require every image that this build produced.
    EnsureBuiltImages { host: S, profile: S, namespace: S, version: Option<S> },
    /// Warn that the devcontainer points at an image that was not built.
    WarnSkipBuild { client: S, vm: S, profile: Profile },
    /// Print where the VM and repository are and what to run next.
    PrintNextSteps {
        client: S,
        repo: S,
        clone_url: S,
        vm: S,
        host: S,
        profile: Profile,
        skip_build: bool,
    },
    /// Run this command line; it must succeed.
    Run(L),
    /// Print `limactl list`.
    ListVms,
    /// Print the VM's snapshots.
    ListSnapshots(S),
    /// Print the VM's snapshots if the backend has any.
    PrintSnapshotStatus(S),
    /// Print which trusted images exist in the VM, if it can be reached.
    PrintTrustedImageStatus(S),
    /// Require the VS Code `code` command.
    EnsureCodeCli,
    /// Require the VM to exist and start it if it is stopped.
    EnsureVmStarted(S),
    /// Open this VM folder in VS Code, over SSH or in the devcontainer.
    OpenInCode { host: S, path: S, container: bool, new_window: bool, reuse_window: bool },
    /// Print which of these commands are on `PATH`.
    DoctorReport(L),
    /// Print the packaged payload version.
    PrintPackagedVersion,
}

pub type Step = StepOf<String, Vec<String>>;

pub type StepView = StepOf<Seq<char>, Seq<Seq<char>>>;

pub open spec fn opt_view_s(o: Option<String>) -> Option<Seq<char>> {
    opt_string_view(o)
}

impl View for StepOf<String, Vec<String>> {
    type V = StepOf<Seq<char>, Seq<Seq<char>>>;

    open spec fn view(&self) -> StepOf<Seq<char>, Seq<Seq<char>>> {
        match self {
            StepOf::RequireCommands(l) => StepOf::RequireCommands(views(l@)),
            StepOf::Fail(e) => StepOf::Fail(e@),
            StepOf::EnsureVmTypePrerequisites(t) => StepOf::EnsureVmTypePrerequisites(*t),
            StepOf::EnsureHostSshInclude => StepOf::EnsureHostSshInclude,
            StepOf::StartVm { vm, vm_type, cpus, memory, disk } => StepOf::StartVm {
                vm: vm@,
                vm_type: *vm_type,
                cpus: *cpus,
                memory: *memory,
                disk: *disk,
            },
            StepOf::WaitForSsh(h) => StepOf::WaitForSsh(h@),
            StepOf::SyncPayload(h) => StepOf::SyncPayload(h@),
            StepOf::RemoteScript(h, s, a) => StepOf::RemoteScript(h@, *s, views(a@)),
            StepOf::PrintKeyAndMaybeWait { host, key_name, prompt } => StepOf::PrintKeyAndMaybeWait {
                host: host@,
                key_name: key_name@,
                prompt: *prompt,
            },
            StepOf::Snapshot { vm, tag } => StepOf::Snapshot { vm: vm@, tag: tag@ },
            StepOf::ApplySnapshot { vm, tag } => StepOf::ApplySnapshot { vm: vm@, tag: tag@ },
            StepOf::EnsureProfileImage { host, profile, client, vm } => StepOf::EnsureProfileImage {
                host: host@,
                profile: *profile,
                client: client@,
                vm: vm@,
            },
            StepOf::EnsureBuiltImages { host, profile, namespace, version } =>
                StepOf::EnsureBuiltImages {
                host: host@,
                profile: profile@,
                namespace: namespace@,
                version: opt_view_s(*version),
            },
            StepOf::WarnSkipBuild { client, vm, profile } => StepOf::WarnSkipBuild {
                client: client@,
                vm: vm@,
                profile: *profile,
            },
            StepOf::PrintNextSteps { client, repo, clone_url, vm, host, profile, skip_build } =>
                StepOf::PrintNextSteps {
                client: client@,
                repo: repo@,
                clone_url: clone_url@,
                vm: vm@,
                host: host@,
                profile: *profile,
                skip_build: *skip_build,
            },
            StepOf::Run(l) => StepOf::Run(views(l@)),
            StepOf::ListVms => StepOf::ListVms,
            StepOf::ListSnapshots(v) => StepOf::ListSnapshots(v@),
            StepOf::PrintSnapshotStatus(v) => StepOf::PrintSnapshotStatus(v@),
            StepOf::PrintTrustedImageStatus(v) => StepOf::PrintTrustedImageStatus(v@),
            StepOf::EnsureCodeCli => StepOf::EnsureCodeCli,
            StepOf::EnsureVmStarted(v) => StepOf::EnsureVmStarted(v@),
            StepOf::OpenInCode { host, path, container, new_window, reuse_window } =>
                StepOf::OpenInCode {
                host: host@,
                path: path@,
                container: *container,
                new_window: *new_window,
                reuse_window: *reuse_window,
            },
            StepOf::DoctorReport(l) => StepOf::DoctorReport(views(l@)),
            StepOf::PrintPackagedVersion => StepOf::PrintPackagedVersion,
        }
    }
}

/// The views of a plan's steps.
pub open spec fn plan_view(steps: Seq<Step>) -> Seq<StepView> {
    steps.map_values(|s: Step| s@)
}

// ---------------------------------------------------------------------------
// Selecting the VM
// ---------------------------------------------------------------------------

/// The VM that `--client`/`--vm` select: exactly one of them, a valid slug; a
/// client selects its default VM.
pub open spec fn target_vm_spec(
    client: Option<Seq<char>>,
    vm: Option<Seq<char>>,
    usage: Seq<char>,
) -> Result<Seq<char>, ErrorView> {
    if client is Some && vm is Some {
        Err(Failure::ClientVmConflict(usage))
    } else if client is Some && !is_slug(client->Some_0) {
        Err(Failure::InvalidClientSlug(client->Some_0))
    } else if let Some(v) = vm {
        if is_slug(v) {
            Ok(v)
        } else {
            Err(Failure::InvalidVmName(v))
        }
    } else if let Some(c) = client {
        Ok(default_vm_name(c))
    } else {
        Err(Failure::MissingVmTarget(usage))
    }
}

pub fn target_vm(args: &VmTargetArgs, usage: &str) -> (r: Result<String, TdcError>)
    ensures
        match target_vm_spec(opt_string_view(args.client), opt_string_view(args.vm), usage@) {
            Ok(v) => r matches Ok(s) && s@ == v,
            Err(e) => r matches Err(x) && x@ == e,
        },
{
    if args.client.is_some() && args.vm.is_some() {
        return Err(Failure::ClientVmConflict(usage.to_owned()));
    }
    if let Some(client) = &args.client {
        if !is_valid_slug(client.as_str()) {
            return Err(Failure::InvalidClientSlug(client.clone()));
        }
    }
    if let Some(vm) = &args.vm {
        if !is_valid_slug(vm.as_str()) {
            return Err(Failure::InvalidVmName(vm.clone()));
        }
        return Ok(vm.clone());
    }
    if let Some(client) = &args.client {
        return Ok(vm_default(client.as_str()));
    }
    Err(Failure::MissingVmTarget(usage.to_owned()))
}

/// The VM of a required client: the `--vm` override, or the client's default.
pub open spec fn client_vm_spec(client: Seq<char>, vm: Option<Seq<char>>) -> Result<
    Seq<char>,
    ErrorView,
> {
    if !is_slug(client) {
        Err(Failure::InvalidClientSlug(client))
    } else if let Some(v) = vm {
        if is_slug(v) {
            Ok(v)
        } else {
            Err(Failure::InvalidVmName(v))
        }
    } else {
        Ok(default_vm_name(client))
    }
}

pub fn client_vm(client: &str, vm: Option<&str>) -> (r: Result<String, TdcError>)
    ensures
        match client_vm_spec(client@, crate::github::opt_view(vm)) {
            Ok(v) => r matches Ok(s) && s@ == v,
            Err(e) => r matches Err(x) && x@ == e,
        },
{
    if !is_valid_slug(client) {
        return Err(Failure::InvalidClientSlug(client.to_owned()));
    }
    if let Some(vm) = vm {
        if !is_valid_slug(vm) {
            return Err(Failure::InvalidVmName(vm.to_owned()));
        }
        Ok(vm.to_owned())
    } else {
        Ok(vm_default(client))
    }
}

/// The name of the client's GitHub key file in the VM's `~/.ssh`.
pub open spec fn github_key_name_spec(client: Seq<char>) -> Seq<char> {
    client + "_github"@
}

pub fn github_key_name(client: &str) -> (r: String)
    ensures
        r@ == github_key_name_spec(client@),
{
    concat(client, "_github")
}

/// The comment of the client's GitHub key.
pub open spec fn key_comment_spec(client: Seq<char>) -> Seq<char> {
    client + " client GitHub key"@
}

pub fn key_comment(client: &str) -> (r: String)
    ensures
        r@ == key_comment_spec(client@),
{
    concat(client, " client GitHub key")
}

/// The user's home directory from `HOME`, which must be set and non-empty.
pub open spec fn home_dir_spec(home: Option<Seq<char>>) -> Result<Seq<char>, ErrorView> {
    match home {
        Some(h) if h.len() > 0 => Ok(h),
        _ => Err(Failure::HomeNotSet),
    }
}

pub fn home_dir(home: Option<&str>) -> (r: Result<String, TdcError>)
    ensures
        match home_dir_spec(crate::github::opt_view(home)) {
            Ok(h) => r matches Ok(s) && s@ == h,
            Err(e) => r matches Err(x) && x@ == e,
        },
{
    match home {
        Some(h) if !h.is_empty() => Ok(h.to_owned()),
        _ => Err(Failure::HomeNotSet),
    }
}

/// The line that makes `~/.ssh/config` include Lima's SSH configs.
pub open spec fn ssh_include_line_spec(home: Seq<char>) -> Seq<char> {
    "Include "@ + home + "/.lima/*/ssh.config"@
}

pub fn ssh_include_line(home: &str) -> (r: String)
    ensures
        r@ == ssh_include_line_spec(home@),
{
    let mut r = concat("Include ", home);
    r.append("/.lima/*/ssh.config");
    r
}

/// Whether `text` already has `line` as one of its lines.
pub fn has_line(text: &str, line: &str) -> (r: bool)
    ensures
        r == crate::text::lines(text@).contains(line@),
{
    let v = crate::text::chars_of(text);
    let want = crate::text::chars_of(line);
    let ls = crate::text::lines_chars(v.as_slice());
    let ghost all = crate::text::char_views(ls@);
    let mut i: usize = 0;
    while i < ls.len()
        invariant
            0 <= i <= ls.len(),
            all == crate::text::char_views(ls@),
            all == crate::text::lines(text@),
            want@ == line@,
            forall|j: int| 0 <= j < i ==> all[j] != line@,
        decreases ls.len() - i,
    {
        assert(all[i as int] == ls@[i as int]@);
        if crate::text::chars_eq(ls[i].as_slice(), want.as_slice()) {
            return true;
        }
        i = i + 1;
    }
    false
}


/// What is appended to `~/.ssh/config`: nothing when one of its lines is
/// already `line`, else a blank line and then `line`, each ended by a newline.
pub open spec fn ssh_config_addition_spec(current: Seq<char>, line: Seq<char>) -> Option<Seq<char>> {
    if crate::text::lines(current).contains(line) {
        None
    } else {
        Some("\n"@ + line + "\n"@)
    }
}

pub fn ssh_config_addition(current: &str, line: &str) -> (r: Option<String>)
    ensures
        opt_string_view(r) == ssh_config_addition_spec(current@, line@),
{
    if has_line(current, line) {
        None
    } else {
        let mut r = concat("\n", line);
        r.append("\n");
        Some(r)
    }
}

/// Adding the include line is done once: after the addition the config has
/// the line, so a second run adds nothing.  (The line must be one line: no
/// newline in it, and no carriage return at its end.)
pub proof fn lemma_ssh_config_addition_idempotent(current: Seq<char>, line: Seq<char>)
    requires
        !line.contains('\n'),
        line.len() == 0 || line.last() != '\r',
    ensures
        match ssh_config_addition_spec(current, line) {
            Some(a) => crate::text::lines(current + a).contains(line)
                && ssh_config_addition_spec(current + a, line) is None,
            None => crate::text::lines(current).contains(line),
        },
{
    if let Some(a) = ssh_config_addition_spec(current, line) {
        reveal_strlit("\n");
        let head = current + seq!['\n'];
        let tail = line + seq!['\n'];
        assert(current + a =~= head + tail);
        crate::text::lemma_lines_append(head, tail);
        crate::text::lemma_lines_one(line);
        let ls = crate::text::lines(current + a);
        assert(ls == crate::text::lines(head) + seq![line]);
        assert(ls[ls.len() - 1] == line);
    }
}

// ---------------------------------------------------------------------------
// Scripts run in the VM
// ---------------------------------------------------------------------------

/// Puts `~/.local/bin` on the VM user's `PATH`.
pub fn ensure_vm_user_local_bin_path(host: &str) -> (r: Step)
    ensures
        r@ == StepOf::<Seq<char>, Seq<Seq<char>>>::RemoteScript(
            host@,
            RemoteScript::UserLocalBinPath,
            seq![],
        ),
{
    StepOf::RemoteScript(host.to_owned(), RemoteScript::UserLocalBinPath, no_strings())
}

/// Creates the client's GitHub key in the VM and its SSH config block.
pub fn setup_vm_github_key(host: &str, client: &str, key_name: &str, comment: &str) -> (r: Step)
    ensures
        r@ == StepOf::<Seq<char>, Seq<Seq<char>>>::RemoteScript(
            host@,
            RemoteScript::SetupGithubKey,
            seq![client@, key_name@, comment@],
        ),
{
    StepOf::RemoteScript(
        host.to_owned(),
        RemoteScript::SetupGithubKey,
        strings3(client, key_name, comment),
    )
}

/// Removes the client's GitHub key from the VM and its SSH config block.
pub fn remove_vm_github_key(host: &str, client: &str, key_name: &str) -> (r: Step)
    ensures
        r@ == StepOf::<Seq<char>, Seq<Seq<char>>>::RemoteScript(
            host@,
            RemoteScript::RemoveGithubKey,
            seq![client@, key_name@],
        ),
{
    StepOf::RemoteScript(host.to_owned(), RemoteScript::RemoveGithubKey, strings2(client, key_name))
}

/// Clones a repository into `~/work/<repo>` in the VM.
pub fn clone_repo_in_vm(host: &str, repo: &str, clone_url: &str) -> (r: Step)
    ensures
        r@ == StepOf::<Seq<char>, Seq<Seq<char>>>::RemoteScript(
            host@,
            RemoteScript::CloneRepo,
            seq![repo@, clone_url@],
        ),
{
    StepOf::RemoteScript(host.to_owned(), RemoteScript::CloneRepo, strings2(repo, clone_url))
}

/// Lists the checkouts under `~/work` in the VM.
pub fn list_repos_in_vm(host: &str) -> (r: Step)
    ensures
        r@ == StepOf::<Seq<char>, Seq<Seq<char>>>::RemoteScript(
            host@,
            RemoteScript::ListRepos,
            seq![],
        ),
{
    StepOf::RemoteScript(host.to_owned(), RemoteScript::ListRepos, no_strings())
}

/// Builds trusted images in the VM; an absent version is passed as empty.
pub fn build_images_on_vm(host: &str, profile: &str, namespace: &str, version: Option<&str>) -> (r:
    Step)
    ensures
        r@ == StepOf::<Seq<char>, Seq<Seq<char>>>::RemoteScript(
            host@,
            RemoteScript::BuildImages,
            seq![profile@, namespace@, version_arg(crate::github::opt_view(version))],
        ),
{
    let version = match version {
        Some(v) => v,
        None => "",
    };
    StepOf::RemoteScript(
        host.to_owned(),
        RemoteScript::BuildImages,
        strings3(profile, namespace, version),
    )
}

/// Applies a devcontainer profile to the checkout `~/work/<repo>` in the VM.
pub fn apply_devcontainer_in_vm(host: &str, repo: &str, profile: Profile) -> (r: Step)
    ensures
        r@ == StepOf::<Seq<char>, Seq<Seq<char>>>::RemoteScript(
            host@,
            RemoteScript::ApplyDevcontainer,
            seq![repo@, profile.name()],
        ),
{
    StepOf::RemoteScript(
        host.to_owned(),
        RemoteScript::ApplyDevcontainer,
        strings2(repo, profile.as_str()),
    )
}

/// Deletes the checkout `~/work/<repo>` in the VM; `force` is passed as `1`.
pub fn delete_repo_in_vm(host: &str, repo: &str, force: bool) -> (r: Step)
    ensures
        r@ == StepOf::<Seq<char>, Seq<Seq<char>>>::RemoteScript(
            host@,
            RemoteScript::DeleteRepo,
            seq![
                repo@,
                if force {
                    "1"@
                } else {
                    "0"@
                },
            ],
        ),
{
    let force = if force {
        "1"
    } else {
        "0"
    };
    StepOf::RemoteScript(host.to_owned(), RemoteScript::DeleteRepo, strings2(repo, force))
}

// ---------------------------------------------------------------------------
// Plans
// ---------------------------------------------------------------------------

/// The commands `vm new` requires.
pub open spec fn vm_new_required() -> Seq<Seq<char>> {
    seq!["limactl"@, "ssh"@, "rsync"@]
}

/// `tdc vm new`: validate the client, repository and VM name, then run
/// [`vm_new_steps`].
pub open spec fn vm_new_spec(args: VmNewArgs) -> Seq<StepView> {
    let require = StepOf::RequireCommands(vm_new_required());
    let client = args.client@;
    if !is_slug(client) {
        seq![require, StepOf::Fail(Failure::InvalidClientSlug(client))]
    } else {
        match resolve_repo(
            args.repo.org@,
            opt_string_view(args.repo.repo),
            opt_string_view(args.repo.repo_url),
        ) {
            Err(e) => seq![require, StepOf::Fail(e)],
            Ok((org, repo)) => {
                let vm = match args.vm {
                    Some(v) => v@,
                    None => default_vm_name(client),
                };
                if !is_slug(vm) {
                    seq![require, StepOf::Fail(Failure::InvalidVmName(vm))]
                } else {
                    seq![require] + vm_new_steps(args, org, repo, vm)
                }
            },
        }
    }
}

/// The outside work of a valid `vm new`: bring the VM up and install the
/// client's GitHub key, then clone, build and apply the devcontainer as the
/// flags ask, snapshotting after the clone and at the end.
pub open spec fn vm_new_steps(args: VmNewArgs, org: Seq<char>, repo: Seq<char>, vm: Seq<char>) -> Seq<
    StepView,
> {
    let client = args.client@;
    let host = lima_host_name(vm);
    let key = github_key_name_spec(client);
    let clone_url = crate::github::clone_url_for(org, repo);
    let profile = args.profile;
    vm_new_setup(args, vm) + (if !args.skip_clone {
        seq![StepOf::RemoteScript(host, RemoteScript::CloneRepo, seq![repo, clone_url])]
            + snapshot_unless(args.no_snapshots, vm, "clean-clone"@)
    } else {
        seq![]
    }) + (if !args.skip_build {
        seq![
            StepOf::RemoteScript(
                host,
                RemoteScript::BuildImages,
                seq![profile.name(), "trusted"@, ""@],
            ),
            StepOf::EnsureProfileImage { host, profile, client, vm },
        ]
    } else {
        seq![]
    }) + (if !args.skip_clone {
        (if args.skip_build {
            seq![StepOf::WarnSkipBuild { client, vm, profile }]
        } else {
            seq![]
        }) + seq![
            StepOf::RemoteScript(host, RemoteScript::ApplyDevcontainer, seq![repo, profile.name()]),
        ] + snapshot_unless(args.no_snapshots, vm, "trusted-devcontainer-ready"@)
    } else {
        seq![]
    }) + seq![
        StepOf::PrintNextSteps {
            client,
            repo,
            clone_url,
            vm,
            host,
            profile,
            skip_build: args.skip_build,
        },
    ]
}

/// A snapshot with this tag, unless snapshots are switched off.
pub open spec fn snapshot_unless(no_snapshots: bool, vm: Seq<char>, tag: Seq<char>) -> Seq<
    StepView,
> {
    if !no_snapshots {
        seq![StepOf::Snapshot { vm, tag }]
    } else {
        seq![]
    }
}

/// Bringing the VM up and installing the client's GitHub key.
pub open spec fn vm_new_setup(args: VmNewArgs, vm: Seq<char>) -> Seq<StepView> {
    let client = args.client@;
    let host = lima_host_name(vm);
    let key = github_key_name_spec(client);
    seq![
        StepOf::EnsureVmTypePrerequisites(args.vm_type),
        StepOf::EnsureHostSshInclude,
        StepOf::StartVm {
            vm,
            vm_type: args.vm_type,
            cpus: args.cpus,
            memory: args.memory,
            disk: args.disk,
        },
        StepOf::WaitForSsh(host),
        StepOf::RemoteScript(host, RemoteScript::UserLocalBinPath, seq![]),
        StepOf::SyncPayload(host),
        StepOf::RemoteScript(
            host,
            RemoteScript::SetupGithubKey,
            seq![client, key, key_comment_spec(client)],
        ),
        StepOf::PrintKeyAndMaybeWait { host, key_name: key, prompt: !args.no_prompt },
    ]
}

/// Appends the steps of `b` to `a`.
pub fn append_steps(a: &mut Vec<Step>, b: Vec<Step>)
    ensures
        plan_view(final(a)@) == plan_view(old(a)@) + plan_view(b@),
{
    let mut b = b;
    let ghost old_b = b@;
    a.append(&mut b);
    assert(plan_view(old(a)@ + old_b) =~= plan_view(old(a)@) + plan_view(old_b));
}

fn snapshot_step_unless(no_snapshots: bool, vm: &String, tag: &str) -> (r: Vec<Step>)
    ensures
        plan_view(r@) == snapshot_unless(no_snapshots, vm@, tag@),
{
    let mut r: Vec<Step> = Vec::new();
    if !no_snapshots {
        r.push(StepOf::Snapshot { vm: vm.clone(), tag: tag.to_owned() });
    }
    assert(plan_view(r@) =~= snapshot_unless(no_snapshots, vm@, tag@));
    r
}

fn vm_new_setup_steps(args: &VmNewArgs, vm: &String) -> (r: Vec<Step>)
    ensures
        plan_view(r@) == vm_new_setup(*args, vm@),
{
    let client = args.client.as_str();
    let host = lima_host(vm.as_str());
    let key_name = github_key_name(client);
    let comment = key_comment(client);
    let mut steps: Vec<Step> = Vec::new();
    steps.push(StepOf::EnsureVmTypePrerequisites(args.vm_type));
    steps.push(StepOf::EnsureHostSshInclude);
    steps.push(
        StepOf::StartVm {
            vm: vm.clone(),
            vm_type: args.vm_type,
            cpus: args.cpus,
            memory: args.memory,
            disk: args.disk,
        },
    );
    steps.push(StepOf::WaitForSsh(host.clone()));
    steps.push(ensure_vm_user_local_bin_path(host.as_str()));
    steps.push(StepOf::SyncPayload(host.clone()));
    steps.push(setup_vm_github_key(host.as_str(), client, key_name.as_str(), comment.as_str()));
    steps.push(StepOf::PrintKeyAndMaybeWait { host, key_name, prompt: !args.no_prompt });
    assert(plan_view(steps@) =~= vm_new_setup(*args, vm@));
    steps
}

fn vm_new_work_steps(args: &VmNewArgs, repo: &RepoSpec, vm: &String) -> (r: Vec<Step>)
    requires
        repo.clone_url@ == crate::github::clone_url_for(repo.org@, repo.repo@),
    ensures
        plan_view(r@) == vm_new_steps(*args, repo.org@, repo.repo@, vm@),
{
    let host = lima_host(vm.as_str());
    let profile = args.profile;
    let mut steps = vm_new_setup_steps(args, vm);
    let mut clone_part: Vec<Step> = Vec::new();
    if !args.skip_clone {
        clone_part.push(
            clone_repo_in_vm(host.as_str(), repo.repo.as_str(), repo.clone_url.as_str()),
        );
        append_steps(&mut clone_part, snapshot_step_unless(args.no_snapshots, vm, "clean-clone"));
    }
    let mut build_part: Vec<Step> = Vec::new();
    if !args.skip_build {
        build_part.push(build_images_on_vm(host.as_str(), profile.as_str(), "trusted", None));
        build_part.push(
            StepOf::EnsureProfileImage {
                host: host.clone(),
                profile,
                client: args.client.clone(),
                vm: vm.clone(),
            },
        );
    }
    let mut apply_part: Vec<Step> = Vec::new();
    if !args.skip_clone {
        if args.skip_build {
            apply_part.push(
                StepOf::WarnSkipBuild { client: args.client.clone(), vm: vm.clone(), profile },
            );
        }
        apply_part.push(apply_devcontainer_in_vm(host.as_str(), repo.repo.as_str(), profile));
        append_steps(
            &mut apply_part,
            snapshot_step_unless(args.no_snapshots, vm, "trusted-devcontainer-ready"),
        );
    }
    let mut last: Vec<Step> = Vec::new();
    last.push(
        StepOf::PrintNextSteps {
            client: args.client.clone(),
            repo: repo.repo.clone(),
            clone_url: repo.clone_url.clone(),
            vm: vm.clone(),
            host: host.clone(),
            profile,
            skip_build: args.skip_build,
        },
    );
    proof {
        let client = args.client@;
        let hv = lima_host_name(vm@);
        let clone_url = repo.clone_url@;
        assert(plan_view(clone_part@) =~= (if !args.skip_clone {
            seq![StepOf::RemoteScript(hv, RemoteScript::CloneRepo, seq![repo.repo@, clone_url])]
                + snapshot_unless(args.no_snapshots, vm@, "clean-clone"@)
        } else {
            seq![]
        }));
        assert(plan_view(build_part@) =~= (if !args.skip_build {
            seq![
                StepOf::RemoteScript(
                    hv,
                    RemoteScript::BuildImages,
                    seq![profile.name(), "trusted"@, ""@],
                ),
                StepOf::EnsureProfileImage { host: hv, profile, client, vm: vm@ },
            ]
        } else {
            seq![]
        }));
        assert(plan_view(apply_part@) =~= (if !args.skip_clone {
            (if args.skip_build {
                seq![StepOf::WarnSkipBuild { client, vm: vm@, profile }]
            } else {
                seq![]
            }) + seq![
                StepOf::RemoteScript(
                    hv,
                    RemoteScript::ApplyDevcontainer,
                    seq![repo.repo@, profile.name()],
                ),
            ] + snapshot_unless(args.no_snapshots, vm@, "trusted-devcontainer-ready"@)
        } else {
            seq![]
        }));
        assert(plan_view(last@) =~= seq![
            StepOf::PrintNextSteps {
                client,
                repo: repo.repo@,
                clone_url,
                vm: vm@,
                host: hv,
                profile,
                skip_build: args.skip_build,
            },
        ]);
    }
    append_steps(&mut steps, clone_part);
    append_steps(&mut steps, build_part);
    append_steps(&mut steps, apply_part);
    append_steps(&mut steps, last);
    steps
}

fn strings1(a: &str) -> (r: Vec<String>)
    ensures
        views(r@) == seq![a@],
{
    let r = vec![a.to_owned()];
    assert(views(r@) =~= seq![a@]);
    r
}

fn strings2(a: &str, b: &str) -> (r: Vec<String>)
    ensures
        views(r@) == seq![a@, b@],
{
    let r = vec![a.to_owned(), b.to_owned()];
    assert(views(r@) =~= seq![a@, b@]);
    r
}

fn strings3(a: &str, b: &str, c: &str) -> (r: Vec<String>)
    ensures
        views(r@) == seq![a@, b@, c@],
{
    let r = vec![a.to_owned(), b.to_owned(), c.to_owned()];
    assert(views(r@) =~= seq![a@, b@, c@]);
    r
}

fn no_strings() -> (r: Vec<String>)
    ensures
        views(r@) == Seq::<Seq<char>>::empty(),
{
    let r: Vec<String> = Vec::new();
    assert(views(r@) =~= Seq::<Seq<char>>::empty());
    r
}

pub fn vm_new(args: &VmNewArgs) -> (r: Vec<Step>)
    ensures
        plan_view(r@) == vm_new_spec(*args),
{
    let mut steps: Vec<Step> = Vec::new();
    steps.push(StepOf::RequireCommands(strings3("limactl", "ssh", "rsync")));
    if !is_valid_slug(args.client.as_str()) {
        steps.push(StepOf::Fail(Failure::InvalidClientSlug(args.client.clone())));
        assert(plan_view(steps@) =~= vm_new_spec(*args));
        return steps;
    }
    let repo = match resolve_repo_input(
        args.repo.org.as_str(),
        opt_str(&args.repo.repo),
        opt_str(&args.repo.repo_url),
    ) {
        Ok(repo) => repo,
        Err(e) => {
            steps.push(StepOf::Fail(e));
            assert(plan_view(steps@) =~= vm_new_spec(*args));
            return steps;
        },
    };
    let vm = match &args.vm {
        Some(v) => v.clone(),
        None => vm_default(args.client.as_str()),
    };
    if !is_valid_slug(vm.as_str()) {
        steps.push(StepOf::Fail(Failure::InvalidVmName(vm)));
        assert(plan_view(steps@) =~= vm_new_spec(*args));
        return steps;
    }
    let ghost head = plan_view(steps@);
    assert(head =~= seq![StepOf::RequireCommands(vm_new_required())]);
    let work = vm_new_work_steps(args, &repo, &vm);
    append_steps(&mut steps, work);
    steps
}

// ---------------------------------------------------------------------------
// Day-two plans
// ---------------------------------------------------------------------------

pub const SNAPSHOT_LIST_USAGE: &'static str = "tdc vm snapshot list [--client <CLIENT>|--vm <VM>]";

pub const SNAPSHOT_CREATE_USAGE: &'static str =
    "tdc vm snapshot create --tag <TAG> [--client <CLIENT>|--vm <VM>]";

pub const SNAPSHOT_APPLY_USAGE: &'static str =
    "tdc vm snapshot apply --tag <TAG> [--client <CLIENT>|--vm <VM>]";

pub const SNAPSHOT_DELETE_USAGE: &'static str =
    "tdc vm snapshot delete --tag <TAG> [--client <CLIENT>|--vm <VM>]";

pub const CODE_USAGE: &'static str =
    "tdc vm code [--container] [--client <CLIENT>|--vm <VM>] [--repo <REPO>|--repo-url <URL>|--path <PATH>]";

pub const SSH_USAGE: &'static str = "tdc vm ssh [--client <CLIENT>|--vm <VM>]";

pub const STATUS_USAGE: &'static str = "tdc vm status [--client <CLIENT>|--vm <VM>]";

pub const START_USAGE: &'static str = "tdc vm start [--client <CLIENT>|--vm <VM>]";

pub const STOP_USAGE: &'static str = "tdc vm stop [--client <CLIENT>|--vm <VM>]";

pub const DELETE_USAGE: &'static str = "tdc vm delete [--client <CLIENT>|--vm <VM>]";

pub const IMAGES_BUILD_USAGE: &'static str =
    "tdc images build [--client <CLIENT>|--vm <VM>] [PROFILE]";

pub const REPO_LIST_USAGE: &'static str = "tdc repo list [--client <CLIENT>|--vm <VM>]";

/// `head`, then the steps for the selected VM, or the refusal to select one.
pub open spec fn on_vm(
    head: Seq<StepView>,
    target: Result<Seq<char>, ErrorView>,
    steps: spec_fn(Seq<char>) -> Seq<StepView>,
) -> Seq<StepView> {
    head + match target {
        Err(e) => seq![StepOf::Fail(e)],
        Ok(vm) => steps(vm),
    }
}

/// The VM that a `--client`/`--vm` pair selects for a command with this usage.
pub open spec fn target_of(args: VmTargetArgs, usage: Seq<char>) -> Result<Seq<char>, ErrorView> {
    target_vm_spec(opt_string_view(args.client), opt_string_view(args.vm), usage)
}

pub open spec fn require(cmds: Seq<Seq<char>>) -> Seq<StepView> {
    seq![StepOf::RequireCommands(cmds)]
}

/// `tdc vm list`.
pub open spec fn vm_list_spec() -> Seq<StepView> {
    seq![StepOf::RequireCommands(seq!["limactl"@]), StepOf::ListVms]
}

pub fn vm_list() -> (r: Vec<Step>)
    ensures
        plan_view(r@) == vm_list_spec(),
{
    let steps = vec![StepOf::RequireCommands(strings1("limactl")), StepOf::ListVms];
    assert(plan_view(steps@) =~= vm_list_spec());
    steps
}

/// `tdc vm snapshot list`.
pub open spec fn snapshot_list_spec(args: VmTargetArgs) -> Seq<StepView> {
    on_vm(
        require(seq!["limactl"@]),
        target_of(args, SNAPSHOT_LIST_USAGE@),
        |vm: Seq<char>| seq![StepOf::ListSnapshots(vm)],
    )
}

pub fn vm_snapshot_list(args: &VmTargetArgs) -> (r: Vec<Step>)
    ensures
        plan_view(r@) == snapshot_list_spec(*args),
{
    let mut steps = vec![StepOf::RequireCommands(strings1("limactl"))];
    match target_vm(args, SNAPSHOT_LIST_USAGE) {
        Err(e) => steps.push(StepOf::Fail(e)),
        Ok(vm) => steps.push(StepOf::ListSnapshots(vm)),
    }
    assert(plan_view(steps@) =~= snapshot_list_spec(*args));
    steps
}

/// `tdc vm snapshot create` (`apply` false) and `apply` (`apply` true).
pub open spec fn snapshot_change_spec(args: VmSnapshotTagArgs, apply: bool) -> Seq<StepView> {
    on_vm(
        require(seq!["limactl"@, "ssh"@]),
        target_of(
            args.target,
            if apply {
                SNAPSHOT_APPLY_USAGE@
            } else {
                SNAPSHOT_CREATE_USAGE@
            },
        ),
        |vm: Seq<char>|
            if apply {
                seq![StepOf::ApplySnapshot { vm, tag: args.tag@ }]
            } else {
                seq![StepOf::Snapshot { vm, tag: args.tag@ }]
            },
    )
}

pub fn vm_snapshot_create(args: &VmSnapshotTagArgs) -> (r: Vec<Step>)
    ensures
        plan_view(r@) == snapshot_change_spec(*args, false),
{
    let mut steps = vec![StepOf::RequireCommands(strings2("limactl", "ssh"))];
    match target_vm(&args.target, SNAPSHOT_CREATE_USAGE) {
        Err(e) => steps.push(StepOf::Fail(e)),
        Ok(vm) => steps.push(StepOf::Snapshot { vm, tag: args.tag.clone() }),
    }
    assert(plan_view(steps@) =~= snapshot_change_spec(*args, false));
    steps
}

pub fn vm_snapshot_apply(args: &VmSnapshotTagArgs) -> (r: Vec<Step>)
    ensures
        plan_view(r@) == snapshot_change_spec(*args, true),
{
    let mut steps = vec![StepOf::RequireCommands(strings2("limactl", "ssh"))];
    match target_vm(&args.target, SNAPSHOT_APPLY_USAGE) {
        Err(e) => steps.push(StepOf::Fail(e)),
        Ok(vm) => steps.push(StepOf::ApplySnapshot { vm, tag: args.tag.clone() }),
    }
    assert(plan_view(steps@) =~= snapshot_change_spec(*args, true));
    steps
}

/// `tdc vm snapshot delete`.
pub open spec fn snapshot_delete_spec(args: VmSnapshotTagArgs) -> Seq<StepView> {
    on_vm(
        require(seq!["limactl"@]),
        target_of(args.target, SNAPSHOT_DELETE_USAGE@),
        |vm: Seq<char>|
            seq![
                StepOf::Run(
                    seq!["limactl"@, "snapshot"@, "delete"@, vm, "--tag"@, args.tag@],
                ),
            ],
    )
}

pub fn vm_snapshot_delete(args: &VmSnapshotTagArgs) -> (r: Vec<Step>)
    ensures
        plan_view(r@) == snapshot_delete_spec(*args),
{
    let mut steps = vec![StepOf::RequireCommands(strings1("limactl"))];
    match target_vm(&args.target, SNAPSHOT_DELETE_USAGE) {
        Err(e) => steps.push(StepOf::Fail(e)),
        Ok(vm) => {
            let cmd = vec![
                "limactl".to_owned(),
                "snapshot".to_owned(),
                "delete".to_owned(),
                vm,
                "--tag".to_owned(),
                args.tag.clone(),
            ];
            assert(views(cmd@) =~= seq![
                "limactl"@,
                "snapshot"@,
                "delete"@,
                cmd@[3]@,
                "--tag"@,
                args.tag@,
            ]);
            steps.push(StepOf::Run(cmd));
        },
    }
    assert(plan_view(steps@) =~= snapshot_delete_spec(*args));
    steps
}

/// `tdc vm snapshot ...`.
pub open spec fn vm_snapshot_spec(args: VmSnapshotArgs) -> Seq<StepView> {
    match args.command {
        VmSnapshotCommand::List(a) => snapshot_list_spec(a),
        VmSnapshotCommand::Create(a) => snapshot_change_spec(a, false),
        VmSnapshotCommand::Apply(a) => snapshot_change_spec(a, true),
        VmSnapshotCommand::Delete(a) => snapshot_delete_spec(a),
    }
}

pub fn vm_snapshot(args: &VmSnapshotArgs) -> (r: Vec<Step>)
    ensures
        plan_view(r@) == vm_snapshot_spec(*args),
{
    match &args.command {
        VmSnapshotCommand::List(a) => vm_snapshot_list(a),
        VmSnapshotCommand::Create(a) => vm_snapshot_create(a),
        VmSnapshotCommand::Apply(a) => vm_snapshot_apply(a),
        VmSnapshotCommand::Delete(a) => vm_snapshot_delete(a),
    }
}

/// The remote command that prints the client's public key.
pub open spec fn show_key_command(client: Seq<char>) -> Seq<char> {
    "cat ~/.ssh/"@ + github_key_name_spec(client) + ".pub"@
}

pub fn show_key_remote_command(key_name: &str) -> (r: String)
    ensures
        r@ == "cat ~/.ssh/"@ + key_name@ + ".pub"@,
{
    let mut r = concat("cat ~/.ssh/", key_name);
    r.append(".pub");
    r
}

/// `tdc vm key show`.
pub open spec fn key_show_spec(args: VmClientTargetArgs) -> Seq<StepView> {
    on_vm(
        require(seq!["ssh"@]),
        client_vm_spec(args.client@, opt_string_view(args.vm)),
        |vm: Seq<char>|
            seq![StepOf::Run(seq!["ssh"@, lima_host_name(vm), show_key_command(args.client@)])],
    )
}

pub fn vm_key_show(args: &VmClientTargetArgs) -> (r: Vec<Step>)
    ensures
        plan_view(r@) == key_show_spec(*args),
{
    let mut steps = vec![StepOf::RequireCommands(strings1("ssh"))];
    match client_vm(args.client.as_str(), opt_str(&args.vm)) {
        Err(e) => steps.push(StepOf::Fail(e)),
        Ok(vm) => {
            let host = lima_host(vm.as_str());
            let key_name = github_key_name(args.client.as_str());
            let remote = show_key_remote_command(key_name.as_str());
            steps.push(StepOf::Run(strings3("ssh", host.as_str(), remote.as_str())));
        },
    }
    assert(plan_view(steps@) =~= key_show_spec(*args));
    steps
}

/// `tdc vm key remove`: refused without `--yes`.
pub open spec fn key_remove_spec(args: VmKeyRemoveArgs) -> Seq<StepView> {
    if !args.yes {
        require(seq!["ssh"@]) + seq![StepOf::Fail(Failure::KeyRemoveNotConfirmed)]
    } else {
        on_vm(
            require(seq!["ssh"@]),
            client_vm_spec(args.target.client@, opt_string_view(args.target.vm)),
            |vm: Seq<char>|
                seq![
                    StepOf::RemoteScript(
                        lima_host_name(vm),
                        RemoteScript::RemoveGithubKey,
                        seq![args.target.client@, github_key_name_spec(args.target.client@)],
                    ),
                ],
        )
    }
}

pub fn vm_key_remove(args: &VmKeyRemoveArgs) -> (r: Vec<Step>)
    ensures
        plan_view(r@) == key_remove_spec(*args),
{
    let mut steps = vec![StepOf::RequireCommands(strings1("ssh"))];
    if !args.yes {
        steps.push(StepOf::Fail(Failure::KeyRemoveNotConfirmed));
        assert(plan_view(steps@) =~= key_remove_spec(*args));
        return steps;
    }
    match client_vm(args.target.client.as_str(), opt_str(&args.target.vm)) {
        Err(e) => steps.push(StepOf::Fail(e)),
        Ok(vm) => {
            let host = lima_host(vm.as_str());
            let key_name = github_key_name(args.target.client.as_str());
            steps.push(
                remove_vm_github_key(host.as_str(), args.target.client.as_str(), key_name.as_str()),
            );
        },
    }
    assert(plan_view(steps@) =~= key_remove_spec(*args));
    steps
}

/// `tdc vm code`: the VM is started and reachable before the folder is
/// resolved and opened.
pub open spec fn vm_code_spec(args: VmCodeOpenArgs) -> Seq<StepView> {
    on_vm(
        seq![StepOf::RequireCommands(seq!["limactl"@, "ssh"@]), StepOf::EnsureCodeCli],
        target_of(args.target, CODE_USAGE@),
        |vm: Seq<char>|
            seq![
                StepOf::EnsureVmStarted(vm),
                StepOf::EnsureHostSshInclude,
                StepOf::WaitForSsh(lima_host_name(vm)),
            ] + match code_path_spec(args) {
                Err(e) => seq![StepOf::Fail(e)],
                Ok(path) => seq![
                    StepOf::OpenInCode {
                        host: lima_host_name(vm),
                        path,
                        container: args.container,
                        new_window: args.new_window,
                        reuse_window: args.reuse_window,
                    },
                ],
            },
    )
}

pub fn vm_code(args: &VmCodeOpenArgs) -> (r: Vec<Step>)
    ensures
        plan_view(r@) == vm_code_spec(*args),
{
    let mut steps = vec![
        StepOf::RequireCommands(strings2("limactl", "ssh")),
        StepOf::EnsureCodeCli,
    ];
    match target_vm(&args.target, CODE_USAGE) {
        Err(e) => steps.push(StepOf::Fail(e)),
        Ok(vm) => {
            let host = lima_host(vm.as_str());
            steps.push(StepOf::EnsureVmStarted(vm));
            steps.push(StepOf::EnsureHostSshInclude);
            steps.push(StepOf::WaitForSsh(host.clone()));
            match code_path_arg(args) {
                Err(e) => steps.push(StepOf::Fail(e)),
                Ok(path) => steps.push(
                    StepOf::OpenInCode {
                        host,
                        path,
                        container: args.container,
                        new_window: args.new_window,
                        reuse_window: args.reuse_window,
                    },
                ),
            }
        },
    }
    assert(plan_view(steps@) =~= vm_code_spec(*args));
    steps
}

/// `tdc vm ssh`.
pub open spec fn vm_ssh_spec(args: VmTargetArgs) -> Seq<StepView> {
    on_vm(
        require(seq!["ssh"@]),
        target_of(args, SSH_USAGE@),
        |vm: Seq<char>|
            seq![
                StepOf::RemoteScript(lima_host_name(vm), RemoteScript::UserLocalBinPath, seq![]),
                StepOf::Run(seq!["ssh"@, lima_host_name(vm)]),
            ],
    )
}

pub fn vm_ssh(args: &VmTargetArgs) -> (r: Vec<Step>)
    ensures
        plan_view(r@) == vm_ssh_spec(*args),
{
    let mut steps = vec![StepOf::RequireCommands(strings1("ssh"))];
    match target_vm(args, SSH_USAGE) {
        Err(e) => steps.push(StepOf::Fail(e)),
        Ok(vm) => {
            let host = lima_host(vm.as_str());
            steps.push(ensure_vm_user_local_bin_path(host.as_str()));
            steps.push(StepOf::Run(strings2("ssh", host.as_str())));
        },
    }
    assert(plan_view(steps@) =~= vm_ssh_spec(*args));
    steps
}

/// `tdc vm status`.
pub open spec fn vm_status_spec(args: VmTargetArgs) -> Seq<StepView> {
    on_vm(
        require(seq!["limactl"@]),
        target_of(args, STATUS_USAGE@),
        |vm: Seq<char>|
            seq![
                StepOf::Run(seq!["limactl"@, "list"@, vm]),
                StepOf::PrintSnapshotStatus(vm),
                StepOf::PrintTrustedImageStatus(vm),
            ],
    )
}

pub fn vm_status(args: &VmTargetArgs) -> (r: Vec<Step>)
    ensures
        plan_view(r@) == vm_status_spec(*args),
{
    let mut steps = vec![StepOf::RequireCommands(strings1("limactl"))];
    match target_vm(args, STATUS_USAGE) {
        Err(e) => steps.push(StepOf::Fail(e)),
        Ok(vm) => {
            steps.push(StepOf::Run(strings3("limactl", "list", vm.as_str())));
            steps.push(StepOf::PrintSnapshotStatus(vm.clone()));
            steps.push(StepOf::PrintTrustedImageStatus(vm));
        },
    }
    assert(plan_view(steps@) =~= vm_status_spec(*args));
    steps
}

/// `tdc vm start`.
pub open spec fn vm_start_spec(args: VmTargetArgs) -> Seq<StepView> {
    on_vm(
        require(seq!["limactl"@]),
        target_of(args, START_USAGE@),
        |vm: Seq<char>| seq![StepOf::Run(seq!["limactl"@, "start"@, vm])],
    )
}

pub fn vm_start(args: &VmTargetArgs) -> (r: Vec<Step>)
    ensures
        plan_view(r@) == vm_start_spec(*args),
{
    let mut steps = vec![StepOf::RequireCommands(strings1("limactl"))];
    match target_vm(args, START_USAGE) {
        Err(e) => steps.push(StepOf::Fail(e)),
        Ok(vm) => steps.push(StepOf::Run(strings3("limactl", "start", vm.as_str()))),
    }
    assert(plan_view(steps@) =~= vm_start_spec(*args));
    steps
}

/// `limactl <verb> [--yes] [--force] <vm>`.
pub open spec fn limactl_vm_command(verb: Seq<char>, yes: bool, force: bool, vm: Seq<char>) -> Seq<
    Seq<char>,
> {
    seq!["limactl"@, verb] + (if yes {
        seq!["--yes"@]
    } else {
        seq![]
    }) + (if force {
        seq!["--force"@]
    } else {
        seq![]
    }) + seq![vm]
}

fn limactl_vm_command_exec(verb: &str, yes: bool, force: bool, vm: &str) -> (r: Vec<String>)
    ensures
        views(r@) == limactl_vm_command(verb@, yes, force, vm@),
{
    let mut r = strings2("limactl", verb);
    if yes {
        r.push("--yes".to_owned());
    }
    if force {
        r.push("--force".to_owned());
    }
    r.push(vm.to_owned());
    assert(views(r@) =~= limactl_vm_command(verb@, yes, force, vm@));
    r
}

/// `tdc vm stop`.
pub open spec fn vm_stop_spec(args: VmStopArgs) -> Seq<StepView> {
    on_vm(
        require(seq!["limactl"@]),
        target_of(args.target, STOP_USAGE@),
        |vm: Seq<char>| seq![StepOf::Run(limactl_vm_command("stop"@, false, args.force, vm))],
    )
}

pub fn vm_stop(args: &VmStopArgs) -> (r: Vec<Step>)
    ensures
        plan_view(r@) == vm_stop_spec(*args),
{
    let mut steps = vec![StepOf::RequireCommands(strings1("limactl"))];
    match target_vm(&args.target, STOP_USAGE) {
        Err(e) => steps.push(StepOf::Fail(e)),
        Ok(vm) => steps.push(
            StepOf::Run(limactl_vm_command_exec("stop", false, args.force, vm.as_str())),
        ),
    }
    assert(plan_view(steps@) =~= vm_stop_spec(*args));
    steps
}

/// `tdc vm delete`.
pub open spec fn vm_delete_spec(args: VmDeleteArgs) -> Seq<StepView> {
    on_vm(
        require(seq!["limactl"@]),
        target_of(args.target, DELETE_USAGE@),
        |vm: Seq<char>| seq![StepOf::Run(limactl_vm_command("delete"@, true, args.force, vm))],
    )
}

pub fn vm_delete(args: &VmDeleteArgs) -> (r: Vec<Step>)
    ensures
        plan_view(r@) == vm_delete_spec(*args),
{
    let mut steps = vec![StepOf::RequireCommands(strings1("limactl"))];
    match target_vm(&args.target, DELETE_USAGE) {
        Err(e) => steps.push(StepOf::Fail(e)),
        Ok(vm) => steps.push(
            StepOf::Run(limactl_vm_command_exec("delete", true, args.force, vm.as_str())),
        ),
    }
    assert(plan_view(steps@) =~= vm_delete_spec(*args));
    steps
}

/// The text of an optional version, empty when there is none.
pub open spec fn version_arg(version: Option<Seq<char>>) -> Seq<char> {
    match version {
        Some(v) => v,
        None => ""@,
    }
}

/// `tdc images build`.
pub open spec fn images_build_spec(args: ImagesBuildArgs) -> Seq<StepView> {
    on_vm(
        require(seq!["ssh"@, "rsync"@]),
        target_of(args.target, IMAGES_BUILD_USAGE@),
        |vm: Seq<char>|
            seq![
                StepOf::EnsureHostSshInclude,
                StepOf::RemoteScript(lima_host_name(vm), RemoteScript::UserLocalBinPath, seq![]),
                StepOf::SyncPayload(lima_host_name(vm)),
                StepOf::RemoteScript(
                    lima_host_name(vm),
                    RemoteScript::BuildImages,
                    seq![
                        args.profile.name(),
                        args.namespace@,
                        version_arg(opt_string_view(args.version)),
                    ],
                ),
                StepOf::EnsureBuiltImages {
                    host: lima_host_name(vm),
                    profile: args.profile.name(),
                    namespace: args.namespace@,
                    version: opt_string_view(args.version),
                },
            ],
    )
}

pub fn images_build(args: &ImagesBuildArgs) -> (r: Vec<Step>)
    ensures
        plan_view(r@) == images_build_spec(*args),
{
    let mut steps = vec![StepOf::RequireCommands(strings2("ssh", "rsync"))];
    match target_vm(&args.target, IMAGES_BUILD_USAGE) {
        Err(e) => steps.push(StepOf::Fail(e)),
        Ok(vm) => {
            let host = lima_host(vm.as_str());
            let profile = args.profile.as_str();
            steps.push(StepOf::EnsureHostSshInclude);
            steps.push(ensure_vm_user_local_bin_path(host.as_str()));
            steps.push(StepOf::SyncPayload(host.clone()));
            steps.push(
                build_images_on_vm(
                    host.as_str(),
                    profile,
                    args.namespace.as_str(),
                    opt_str(&args.version),
                ),
            );
            steps.push(
                StepOf::EnsureBuiltImages {
                    host,
                    profile: profile.to_owned(),
                    namespace: args.namespace.clone(),
                    version: match &args.version {
                        Some(v) => Some(v.clone()),
                        None => None,
                    },
                },
            );
        },
    }
    assert(plan_view(steps@) =~= images_build_spec(*args));
    steps
}

/// `tdc devcontainer use`.
pub open spec fn devcontainer_use_spec(args: DevcontainerUseArgs) -> Seq<StepView> {
    let head = require(seq!["ssh"@, "rsync"@]);
    let client = args.client@;
    if !is_slug(client) {
        head + seq![StepOf::Fail(Failure::InvalidClientSlug(client))]
    } else {
        match resolve_repo(
            args.repo.org@,
            opt_string_view(args.repo.repo),
            opt_string_view(args.repo.repo_url),
        ) {
            Err(e) => head + seq![StepOf::Fail(e)],
            Ok((_, repo)) => {
                let vm = match args.vm {
                    Some(v) => v@,
                    None => default_vm_name(client),
                };
                if !is_slug(vm) {
                    head + seq![StepOf::Fail(Failure::InvalidVmName(vm))]
                } else {
                    let host = lima_host_name(vm);
                    head + seq![
                        StepOf::EnsureHostSshInclude,
                        StepOf::RemoteScript(host, RemoteScript::UserLocalBinPath, seq![]),
                        StepOf::SyncPayload(host),
                        StepOf::EnsureProfileImage { host, profile: args.profile, client, vm },
                        StepOf::RemoteScript(
                            host,
                            RemoteScript::ApplyDevcontainer,
                            seq![repo, args.profile.name()],
                        ),
                    ]
                }
            },
        }
    }
}

pub fn devcontainer_use(args: &DevcontainerUseArgs) -> (r: Vec<Step>)
    ensures
        plan_view(r@) == devcontainer_use_spec(*args),
{
    let mut steps = vec![StepOf::RequireCommands(strings2("ssh", "rsync"))];
    if !is_valid_slug(args.client.as_str()) {
        steps.push(StepOf::Fail(Failure::InvalidClientSlug(args.client.clone())));
        assert(plan_view(steps@) =~= devcontainer_use_spec(*args));
        return steps;
    }
    let repo = match resolve_repo_input(
        args.repo.org.as_str(),
        opt_str(&args.repo.repo),
        opt_str(&args.repo.repo_url),
    ) {
        Ok(repo) => repo,
        Err(e) => {
            steps.push(StepOf::Fail(e));
            assert(plan_view(steps@) =~= devcontainer_use_spec(*args));
            return steps;
        },
    };
    let vm = match &args.vm {
        Some(v) => v.clone(),
        None => vm_default(args.client.as_str()),
    };
    if !is_valid_slug(vm.as_str()) {
        steps.push(StepOf::Fail(Failure::InvalidVmName(vm)));
        assert(plan_view(steps@) =~= devcontainer_use_spec(*args));
        return steps;
    }
    let host = lima_host(vm.as_str());
    steps.push(StepOf::EnsureHostSshInclude);
    steps.push(ensure_vm_user_local_bin_path(host.as_str()));
    steps.push(StepOf::SyncPayload(host.clone()));
    steps.push(
        StepOf::EnsureProfileImage {
            host: host.clone(),
            profile: args.profile,
            client: args.client.clone(),
            vm,
        },
    );
    steps.push(apply_devcontainer_in_vm(host.as_str(), repo.repo.as_str(), args.profile));
    assert(plan_view(steps@) =~= devcontainer_use_spec(*args));
    steps
}

/// `tdc repo delete`: `1` is passed to force deletion of a dirty or
/// unpushed checkout, `0` otherwise.
pub open spec fn repo_delete_spec(args: RepoDeleteArgs) -> Seq<StepView> {
    let head = require(seq!["ssh"@]);
    let client = args.client@;
    if !is_slug(client) {
        head + seq![StepOf::Fail(Failure::InvalidClientSlug(client))]
    } else {
        match resolve_repo(
            args.repo.org@,
            opt_string_view(args.repo.repo),
            opt_string_view(args.repo.repo_url),
        ) {
            Err(e) => head + seq![StepOf::Fail(e)],
            Ok((_, repo)) => on_vm(
                head,
                client_vm_spec(client, opt_string_view(args.vm)),
                |vm: Seq<char>|
                    seq![
                        StepOf::RemoteScript(
                            lima_host_name(vm),
                            RemoteScript::DeleteRepo,
                            seq![
                                repo,
                                if args.force {
                                    "1"@
                                } else {
                                    "0"@
                                },
                            ],
                        ),
                    ],
            ),
        }
    }
}

pub fn repo_delete(args: &RepoDeleteArgs) -> (r: Vec<Step>)
    ensures
        plan_view(r@) == repo_delete_spec(*args),
{
    let mut steps = vec![StepOf::RequireCommands(strings1("ssh"))];
    if !is_valid_slug(args.client.as_str()) {
        steps.push(StepOf::Fail(Failure::InvalidClientSlug(args.client.clone())));
        assert(plan_view(steps@) =~= repo_delete_spec(*args));
        return steps;
    }
    let repo = match resolve_repo_input(
        args.repo.org.as_str(),
        opt_str(&args.repo.repo),
        opt_str(&args.repo.repo_url),
    ) {
        Ok(repo) => repo,
        Err(e) => {
            steps.push(StepOf::Fail(e));
            assert(plan_view(steps@) =~= repo_delete_spec(*args));
            return steps;
        },
    };
    match client_vm(args.client.as_str(), opt_str(&args.vm)) {
        Err(e) => steps.push(StepOf::Fail(e)),
        Ok(vm) => {
            let host = lima_host(vm.as_str());
            steps.push(delete_repo_in_vm(host.as_str(), repo.repo.as_str(), args.force));
        },
    }
    assert(plan_view(steps@) =~= repo_delete_spec(*args));
    steps
}

/// `tdc repo list`.
pub open spec fn repo_list_spec(args: VmTargetArgs) -> Seq<StepView> {
    on_vm(
        require(seq!["ssh"@]),
        target_of(args, REPO_LIST_USAGE@),
        |vm: Seq<char>|
            seq![StepOf::RemoteScript(lima_host_name(vm), RemoteScript::ListRepos, seq![])],
    )
}

pub fn repo_list(args: &VmTargetArgs) -> (r: Vec<Step>)
    ensures
        plan_view(r@) == repo_list_spec(*args),
{
    let mut steps = vec![StepOf::RequireCommands(strings1("ssh"))];
    match target_vm(args, REPO_LIST_USAGE) {
        Err(e) => steps.push(StepOf::Fail(e)),
        Ok(vm) => {
            let host = lima_host(vm.as_str());
            steps.push(list_repos_in_vm(host.as_str()));
        },
    }
    assert(plan_view(steps@) =~= repo_list_spec(*args));
    steps
}

/// `tdc doctor`: report each required command, then require them all, then
/// print the packaged version.
pub open spec fn doctor_spec() -> Seq<StepView> {
    seq![
        StepOf::DoctorReport(vm_new_required()),
        StepOf::RequireCommands(vm_new_required()),
        StepOf::PrintPackagedVersion,
    ]
}

pub fn doctor() -> (r: Vec<Step>)
    ensures
        plan_view(r@) == doctor_spec(),
{
    let steps = vec![
        StepOf::DoctorReport(strings3("limactl", "ssh", "rsync")),
        StepOf::RequireCommands(strings3("limactl", "ssh", "rsync")),
        StepOf::PrintPackagedVersion,
    ];
    assert(plan_view(steps@) =~= doctor_spec());
    steps
}


// ---------------------------------------------------------------------------
// Laws of `vm new`
// ---------------------------------------------------------------------------

/// Whether `vm new` accepts these arguments: a valid client, repository and VM.
pub open spec fn vm_new_accepts(args: VmNewArgs) -> bool {
    &&& is_slug(args.client@)
    &&& resolve_repo(
        args.repo.org@,
        opt_string_view(args.repo.repo),
        opt_string_view(args.repo.repo_url),
    ) is Ok
    &&& is_slug(vm_new_vm(args))
}

/// The VM `vm new` works on: `--vm`, or the client's default VM.
pub open spec fn vm_new_vm(args: VmNewArgs) -> Seq<char> {
    match args.vm {
        Some(v) => v@,
        None => default_vm_name(args.client@),
    }
}

/// Whether a step runs this VM script.
pub open spec fn runs_script(step: StepView, script: RemoteScript) -> bool {
    step matches StepOf::RemoteScript(_, s, _) && s == script
}

/// Whether no step of `steps` satisfies `pred`.
pub open spec fn none_of(steps: Seq<StepView>, pred: spec_fn(StepView) -> bool) -> bool {
    forall|i: int| 0 <= i < steps.len() ==> !pred(#[trigger] steps[i])
}

proof fn lemma_none_of_add(a: Seq<StepView>, b: Seq<StepView>, pred: spec_fn(StepView) -> bool)
    requires
        none_of(a, pred),
        none_of(b, pred),
    ensures
        none_of(a + b, pred),
{
    assert forall|i: int| 0 <= i < (a + b).len() implies !pred(#[trigger] (a + b)[i]) by {
        if i < a.len() {
            assert((a + b)[i] == a[i]);
        } else {
            assert((a + b)[i] == b[i - a.len()]);
        }
    }
}

/// The flags of `vm new` switch off their parts of the work: with
/// `--no-snapshots` no snapshot is taken, with `--skip-build` no image is built
/// or required, with `--skip-clone` nothing is cloned, no devcontainer is
/// applied and no snapshot is taken.
pub proof fn lemma_vm_new_flags(args: VmNewArgs)
    ensures
        args.no_snapshots ==> none_of(
            vm_new_spec(args),
            |s: StepView| s is Snapshot,
        ),
        args.skip_build ==> none_of(
            vm_new_spec(args),
            |s: StepView| runs_script(s, RemoteScript::BuildImages) || s is EnsureProfileImage,
        ),
        args.skip_clone ==> none_of(
            vm_new_spec(args),
            |s: StepView|
                runs_script(s, RemoteScript::CloneRepo) || runs_script(
                    s,
                    RemoteScript::ApplyDevcontainer,
                ) || s is Snapshot,
        ),
{
    if !vm_new_accepts(args) {
        let plan = vm_new_spec(args);
        assert(plan.len() == 2);
        assert(!(plan[0] is Snapshot) && !(plan[1] is Snapshot));
        assert(!(plan[0] is EnsureProfileImage) && !(plan[1] is EnsureProfileImage));
        assert(!(plan[0] is RemoteScript) && !(plan[1] is RemoteScript));
    } else {
        let (org, repo) = resolve_repo(
            args.repo.org@,
            opt_string_view(args.repo.repo),
            opt_string_view(args.repo.repo_url),
        )->Ok_0;
        let vm = vm_new_vm(args);
        let client = args.client@;
        let host = lima_host_name(vm);
        let profile = args.profile;
        let clone_url = crate::github::clone_url_for(org, repo);
        let head = seq![StepOf::RequireCommands(vm_new_required())];
        let setup = vm_new_setup(args, vm);
        let clone_part: Seq<StepView> = if !args.skip_clone {
            seq![StepOf::RemoteScript(host, RemoteScript::CloneRepo, seq![repo, clone_url])]
                + snapshot_unless(args.no_snapshots, vm, "clean-clone"@)
        } else {
            seq![]
        };
        let build_part: Seq<StepView> = if !args.skip_build {
            seq![
                StepOf::RemoteScript(
                    host,
                    RemoteScript::BuildImages,
                    seq![profile.name(), "trusted"@, ""@],
                ),
                StepOf::EnsureProfileImage { host, profile, client, vm },
            ]
        } else {
            seq![]
        };
        let apply_part: Seq<StepView> = if !args.skip_clone {
            (if args.skip_build {
                seq![StepOf::WarnSkipBuild { client, vm, profile }]
            } else {
                seq![]
            }) + seq![
                StepOf::RemoteScript(host, RemoteScript::ApplyDevcontainer, seq![repo, profile.name()]),
            ] + snapshot_unless(args.no_snapshots, vm, "trusted-devcontainer-ready"@)
        } else {
            seq![]
        };
        let last = seq![
            StepOf::PrintNextSteps {
                client,
                repo,
                clone_url,
                vm,
                host,
                profile,
                skip_build: args.skip_build,
            },
        ];
        let plan = vm_new_spec(args);
        assert(plan == head + (setup + clone_part + build_part + apply_part + last));
        let p_snap = |s: StepView| s is Snapshot;
        let p_build = |s: StepView| runs_script(s, RemoteScript::BuildImages) || s is EnsureProfileImage;
        let p_clone = |s: StepView|
            runs_script(s, RemoteScript::CloneRepo) || runs_script(s, RemoteScript::ApplyDevcontainer)
                || s is Snapshot;
        if args.no_snapshots {
            assert(none_of(head, p_snap));
            assert(none_of(setup, p_snap));
            assert(none_of(clone_part, p_snap)) by {
                if !args.skip_clone {
                    assert(clone_part =~= seq![
                        StepOf::RemoteScript(host, RemoteScript::CloneRepo, seq![repo, clone_url]),
                    ]);
                }
            }
            assert(none_of(build_part, p_snap));
            assert(none_of(apply_part, p_snap)) by {
                if !args.skip_clone {
                    if args.skip_build {
                        assert(apply_part =~= seq![
                            StepOf::WarnSkipBuild { client, vm, profile },
                            StepOf::RemoteScript(
                                host,
                                RemoteScript::ApplyDevcontainer,
                                seq![repo, profile.name()],
                            ),
                        ]);
                    } else {
                        assert(apply_part =~= seq![
                            StepOf::RemoteScript(
                                host,
                                RemoteScript::ApplyDevcontainer,
                                seq![repo, profile.name()],
                            ),
                        ]);
                    }
                }
            }
            assert(none_of(last, p_snap));
            lemma_none_of_add(setup, clone_part, p_snap);
            lemma_none_of_add(setup + clone_part, build_part, p_snap);
            lemma_none_of_add(setup + clone_part + build_part, apply_part, p_snap);
            lemma_none_of_add(setup + clone_part + build_part + apply_part, last, p_snap);
            lemma_none_of_add(head, setup + clone_part + build_part + apply_part + last, p_snap);
        }
        if args.skip_build {
            assert(none_of(head, p_build));
            assert(none_of(setup, p_build));
            assert(none_of(clone_part, p_build)) by {
                if !args.skip_clone {
                    if !args.no_snapshots {
                        assert(clone_part =~= seq![
                            StepOf::RemoteScript(host, RemoteScript::CloneRepo, seq![repo, clone_url]),
                            StepOf::Snapshot { vm, tag: "clean-clone"@ },
                        ]);
                    } else {
                        assert(clone_part =~= seq![
                            StepOf::RemoteScript(host, RemoteScript::CloneRepo, seq![repo, clone_url]),
                        ]);
                    }
                }
            }
            assert(none_of(build_part, p_build));
            assert(none_of(apply_part, p_build)) by {
                if !args.skip_clone {
                    let tail = snapshot_unless(args.no_snapshots, vm, "trusted-devcontainer-ready"@);
                    assert(apply_part =~= seq![
                        StepOf::WarnSkipBuild { client, vm, profile },
                        StepOf::RemoteScript(
                            host,
                            RemoteScript::ApplyDevcontainer,
                            seq![repo, profile.name()],
                        ),
                    ] + tail);
                    lemma_none_of_add(
                        seq![
                            StepOf::WarnSkipBuild { client, vm, profile },
                            StepOf::RemoteScript(
                                host,
                                RemoteScript::ApplyDevcontainer,
                                seq![repo, profile.name()],
                            ),
                        ],
                        tail,
                        p_build,
                    );
                }
            }
            assert(none_of(last, p_build));
            lemma_none_of_add(setup, clone_part, p_build);
            lemma_none_of_add(setup + clone_part, build_part, p_build);
            lemma_none_of_add(setup + clone_part + build_part, apply_part, p_build);
            lemma_none_of_add(setup + clone_part + build_part + apply_part, last, p_build);
            lemma_none_of_add(head, setup + clone_part + build_part + apply_part + last, p_build);
        }
        if args.skip_clone {
            assert(none_of(head, p_clone));
            assert(none_of(setup, p_clone));
            assert(none_of(clone_part, p_clone));
            assert(none_of(build_part, p_clone));
            assert(none_of(apply_part, p_clone));
            assert(none_of(last, p_clone));
            lemma_none_of_add(setup, clone_part, p_clone);
            lemma_none_of_add(setup + clone_part, build_part, p_clone);
            lemma_none_of_add(setup + clone_part + build_part, apply_part, p_clone);
            lemma_none_of_add(setup + clone_part + build_part + apply_part, last, p_clone);
            lemma_none_of_add(head, setup + clone_part + build_part + apply_part + last, p_clone);
        }
    }
}

/// Without `--vm`, `vm new --client C` brings up the VM `client-C`, reaches it
/// as the SSH host `lima-client-C`, and ends by reporting both with the
/// repository and its clone URL.
pub proof fn lemma_vm_new_default_vm(args: VmNewArgs)
    requires
        vm_new_accepts(args),
        args.vm is None,
    ensures
        ({
            let plan = vm_new_spec(args);
            let (org, repo) = resolve_repo(
                args.repo.org@,
                opt_string_view(args.repo.repo),
                opt_string_view(args.repo.repo_url),
            )->Ok_0;
            let vm = "client-"@ + args.client@;
            &&& plan[3] == StepOf::<Seq<char>, Seq<Seq<char>>>::StartVm {
                vm,
                vm_type: args.vm_type,
                cpus: args.cpus,
                memory: args.memory,
                disk: args.disk,
            }
            &&& plan[4] == StepOf::<Seq<char>, Seq<Seq<char>>>::WaitForSsh("lima-"@ + vm)
            &&& plan.last() == StepOf::<Seq<char>, Seq<Seq<char>>>::PrintNextSteps {
                client: args.client@,
                repo,
                clone_url: crate::github::clone_url_for(org, repo),
                vm,
                host: "lima-"@ + vm,
                profile: args.profile,
                skip_build: args.skip_build,
            }
        }),
{
    let plan = vm_new_spec(args);
    let (org, repo) = resolve_repo(
        args.repo.org@,
        opt_string_view(args.repo.repo),
        opt_string_view(args.repo.repo_url),
    )->Ok_0;
    let vm = vm_new_vm(args);
    let steps = vm_new_steps(args, org, repo, vm);
    assert(plan == seq![StepOf::RequireCommands(vm_new_required())] + steps);
    assert(plan[3] == vm_new_setup(args, vm)[2]);
    assert(plan[4] == vm_new_setup(args, vm)[3]);
    assert(plan.last() == steps.last());
}

// ---------------------------------------------------------------------------
// Laws of images and devcontainer configs
// ---------------------------------------------------------------------------

/// The host a VM script runs on.
pub open spec fn script_host(step: StepView) -> Seq<char> {
    match step {
        StepOf::RemoteScript(h, _, _) => h,
        _ => seq![],
    }
}

/// Whether a step requires the image of `profile` on `host`.
pub open spec fn checks_profile_image(step: StepView, host: Seq<char>, profile: Profile) -> bool {
    step matches StepOf::EnsureProfileImage { host: h, profile: p, .. } && h == host && p == profile
}

/// Whether every step of `plan` that writes a devcontainer config comes after
/// a step that requires the image of `profile` on the same host.
pub open spec fn image_checked_before_config(plan: Seq<StepView>, profile: Profile) -> bool {
    forall|i: int|
        0 <= i < plan.len() && runs_script(#[trigger] plan[i], RemoteScript::ApplyDevcontainer)
            ==> exists|j: int|
            0 <= j < i && checks_profile_image(#[trigger] plan[j], script_host(plan[i]), profile)
}

proof fn lemma_image_checked_after(a: Seq<StepView>, b: Seq<StepView>, host: Seq<char>, profile: Profile)
    requires
        a.len() > 0,
        none_of(a, |s: StepView| runs_script(s, RemoteScript::ApplyDevcontainer)),
        checks_profile_image(a.last(), host, profile),
        forall|i: int|
            0 <= i < b.len() && runs_script(#[trigger] b[i], RemoteScript::ApplyDevcontainer)
                ==> script_host(b[i]) == host,
    ensures
        image_checked_before_config(a + b, profile),
{
    let plan = a + b;
    assert forall|i: int|
        0 <= i < plan.len() && runs_script(
            #[trigger] plan[i],
            RemoteScript::ApplyDevcontainer,
        ) implies exists|j: int|
        0 <= j < i && checks_profile_image(#[trigger] plan[j], script_host(plan[i]), profile) by {
        if i < a.len() {
            assert(plan[i] == a[i]);
            assert(!(|s: StepView| runs_script(s, RemoteScript::ApplyDevcontainer))(a[i]));
        } else {
            assert(plan[i] == b[i - a.len()]);
            assert(plan[a.len() - 1] == a.last());
            assert(checks_profile_image(plan[a.len() - 1], script_host(plan[i]), profile));
        }
    }
}

/// `devcontainer use` writes the config only after it found the profile's
/// image in the VM, whatever the arguments.
pub proof fn lemma_devcontainer_use_checks_image_first(args: DevcontainerUseArgs)
    ensures
        image_checked_before_config(devcontainer_use_spec(args), args.profile),
{
    let plan = devcontainer_use_spec(args);
    let apply = |s: StepView| runs_script(s, RemoteScript::ApplyDevcontainer);
    let head = require(seq!["ssh"@, "rsync"@]);
    if plan.len() == 6 {
        let host = script_host(plan[5]);
        let a = plan.take(5);
        assert(a + plan.skip(5) =~= plan);
        assert(none_of(a, apply)) by {
            assert forall|i: int| 0 <= i < a.len() implies !apply(#[trigger] a[i]) by {
                assert(a[i] == plan[i]);
            }
        }
        lemma_image_checked_after(a, plan.skip(5), host, args.profile);
    } else {
        assert(plan.len() == 2);
        assert forall|i: int|
            0 <= i < plan.len() && runs_script(
                #[trigger] plan[i],
                RemoteScript::ApplyDevcontainer,
            ) implies exists|j: int|
            0 <= j < i && checks_profile_image(
                #[trigger] plan[j],
                script_host(plan[i]),
                args.profile,
            ) by {
            assert(!apply(plan[i]));
        }
    }
}

/// `vm new` without `--skip-build` writes the config only after it found the
/// profile's image in the VM.
pub proof fn lemma_vm_new_checks_image_first(args: VmNewArgs)
    requires
        !args.skip_build,
    ensures
        image_checked_before_config(vm_new_spec(args), args.profile),
{
    let plan = vm_new_spec(args);
    let apply = |s: StepView| runs_script(s, RemoteScript::ApplyDevcontainer);
    if vm_new_accepts(args) {
        let (org, repo) = resolve_repo(
            args.repo.org@,
            opt_string_view(args.repo.repo),
            opt_string_view(args.repo.repo_url),
        )->Ok_0;
        let vm = vm_new_vm(args);
        let client = args.client@;
        let host = lima_host_name(vm);
        let profile = args.profile;
        let clone_url = crate::github::clone_url_for(org, repo);
        let head = seq![StepOf::RequireCommands(vm_new_required())];
        let setup = vm_new_setup(args, vm);
        let clone_part: Seq<StepView> = if !args.skip_clone {
            seq![StepOf::RemoteScript(host, RemoteScript::CloneRepo, seq![repo, clone_url])]
                + snapshot_unless(args.no_snapshots, vm, "clean-clone"@)
        } else {
            seq![]
        };
        let build_part: Seq<StepView> = seq![
            StepOf::RemoteScript(
                host,
                RemoteScript::BuildImages,
                seq![profile.name(), "trusted"@, ""@],
            ),
            StepOf::EnsureProfileImage { host, profile, client, vm },
        ];
        let apply_part: Seq<StepView> = if !args.skip_clone {
            seq![
                StepOf::RemoteScript(
                    host,
                    RemoteScript::ApplyDevcontainer,
                    seq![repo, profile.name()],
                ),
            ] + snapshot_unless(args.no_snapshots, vm, "trusted-devcontainer-ready"@)
        } else {
            seq![]
        };
        let last = seq![
            StepOf::PrintNextSteps {
                client,
                repo,
                clone_url,
                vm,
                host,
                profile,
                skip_build: args.skip_build,
            },
        ];
        let a = head + setup + clone_part + build_part;
        let b = apply_part + last;
        assert(plan =~= a + b);
        assert(none_of(clone_part, apply)) by {
            if !args.skip_clone {
                assert forall|i: int| 0 <= i < clone_part.len() implies !apply(
                    #[trigger] clone_part[i],
                ) by {
                    if i > 0 {
                        assert(clone_part[i] == snapshot_unless(
                            args.no_snapshots,
                            vm,
                            "clean-clone"@,
                        )[i - 1]);
                    }
                }
            }
        }
        assert(none_of(head, apply));
        assert(none_of(setup, apply));
        assert(none_of(build_part, apply));
        lemma_none_of_add(head, setup, apply);
        lemma_none_of_add(head + setup, clone_part, apply);
        lemma_none_of_add(head + setup + clone_part, build_part, apply);
        assert(a.last() == build_part[1]);
        assert forall|i: int|
            0 <= i < b.len() && runs_script(#[trigger] b[i], RemoteScript::ApplyDevcontainer)
                implies script_host(b[i]) == host by {
            if i < apply_part.len() {
                assert(b[i] == apply_part[i]);
                if i > 0 {
                    assert(apply_part[i] == snapshot_unless(
                        args.no_snapshots,
                        vm,
                        "trusted-devcontainer-ready"@,
                    )[i - 1]);
                }
            } else {
                assert(b[i] == last[i - apply_part.len()]);
            }
        }
        lemma_image_checked_after(a, b, host, profile);
    } else {
        assert(plan.len() == 2);
        assert forall|i: int|
            0 <= i < plan.len() && runs_script(
                #[trigger] plan[i],
                RemoteScript::ApplyDevcontainer,
            ) implies exists|j: int|
            0 <= j < i && checks_profile_image(
                #[trigger] plan[j],
                script_host(plan[i]),
                args.profile,
            ) by {
            assert(!apply(plan[i]));
        }
    }
}

/// `images build` ends by requiring every image that the build was to produce,
/// on the host it built on, for the profile, namespace and version it built.
pub proof fn lemma_images_build_verifies_build(args: ImagesBuildArgs)
    ensures
        ({
            let plan = images_build_spec(args);
            forall|i: int|
                0 <= i < plan.len() && runs_script(#[trigger] plan[i], RemoteScript::BuildImages)
                    ==> i + 1 == plan.len() - 1 && plan[i + 1] == StepOf::<
                    Seq<char>,
                    Seq<Seq<char>>,
                >::EnsureBuiltImages {
                    host: script_host(plan[i]),
                    profile: args.profile.name(),
                    namespace: args.namespace@,
                    version: opt_string_view(args.version),
                }
        }),
{
}

// ---------------------------------------------------------------------------
// Laws of the arguments that steer a plan
// ---------------------------------------------------------------------------

/// `devcontainer use` writes the config into the checkout of the repository
/// that `--repo`/`--repo-url` names (the repository, never its owner), with
/// the chosen profile, on the selected VM; and it does so whenever it accepts.
pub proof fn lemma_devcontainer_use_targets_the_repo(args: DevcontainerUseArgs)
    ensures
        ({
            let plan = devcontainer_use_spec(args);
            let named = resolve_repo(
                args.repo.org@,
                opt_string_view(args.repo.repo),
                opt_string_view(args.repo.repo_url),
            );
            let vm = match args.vm {
                Some(v) => v@,
                None => "client-"@ + args.client@,
            };
            &&& forall|i: int|
                0 <= i < plan.len() ==> (#[trigger] plan[i] matches StepOf::RemoteScript(
                    h,
                    RemoteScript::ApplyDevcontainer,
                    a,
                ) ==> named is Ok && a == seq![named->Ok_0.1, args.profile.name()] && h == "lima-"@
                    + vm)
            &&& forall|i: int|
                0 <= i < plan.len() ==> (#[trigger] plan[i] matches StepOf::RemoteScript(
                    _,
                    RemoteScript::ApplyDevcontainer,
                    a,
                ) ==> (args.repo.repo matches Some(r) ==> a[0] == r@))
            &&& (is_slug(args.client@) && named is Ok && is_slug(vm)) ==> plan.last()
                == StepOf::<Seq<char>, Seq<Seq<char>>>::RemoteScript(
                "lima-"@ + vm,
                RemoteScript::ApplyDevcontainer,
                seq![named->Ok_0.1, args.profile.name()],
            )
        }),
{
}

/// `repo delete` passes `1` to the delete script exactly when `--force` was
/// given, and `0` otherwise, for the repository (not its owner) that was
/// named; and it runs the script whenever it accepts.
pub proof fn lemma_repo_delete_force_flag(args: RepoDeleteArgs)
    ensures
        ({
            let plan = repo_delete_spec(args);
            let named = resolve_repo(
                args.repo.org@,
                opt_string_view(args.repo.repo),
                opt_string_view(args.repo.repo_url),
            );
            &&& forall|i: int|
                0 <= i < plan.len() ==> (#[trigger] plan[i] matches StepOf::RemoteScript(
                    _,
                    RemoteScript::DeleteRepo,
                    a,
                ) ==> named is Ok && a.len() == 2 && a[0] == named->Ok_0.1 && (a[1] == "1"@
                    <==> args.force) && (a[1] == "0"@ <==> !args.force))
            &&& (named is Ok && client_vm_spec(args.client@, opt_string_view(args.vm)) is Ok)
                ==> exists|i: int|
                0 <= i < plan.len() && #[trigger] plan[i] matches StepOf::RemoteScript(
                    _,
                    RemoteScript::DeleteRepo,
                    _,
                )
        }),
{
    reveal_strlit("1");
    reveal_strlit("0");
    assert("1"@ != "0"@) by {
        assert("1"@[0] != "0"@[0]);
    }
    let plan = repo_delete_spec(args);
    let named = resolve_repo(
        args.repo.org@,
        opt_string_view(args.repo.repo),
        opt_string_view(args.repo.repo_url),
    );
    if named is Ok && client_vm_spec(args.client@, opt_string_view(args.vm)) is Ok {
        assert(plan[1] matches StepOf::RemoteScript(_, RemoteScript::DeleteRepo, _));
    }
}

/// `vm code` opens the folder in the devcontainer exactly when `--container`
/// was given, and in a new or reused window as `--new-window` and
/// `--reuse-window` ask, on the selected VM's SSH host.
pub proof fn lemma_vm_code_honours_flags(args: VmCodeOpenArgs)
    ensures
        ({
            let plan = vm_code_spec(args);
            let target = target_vm_spec(
                opt_string_view(args.target.client),
                opt_string_view(args.target.vm),
                CODE_USAGE@,
            );
            &&& forall|i: int|
                0 <= i < plan.len() ==> (#[trigger] plan[i] matches StepOf::OpenInCode {
                    host,
                    container,
                    new_window,
                    reuse_window,
                    ..
                } ==> target is Ok && host == "lima-"@ + target->Ok_0 && container == args.container
                    && new_window == args.new_window && reuse_window == args.reuse_window)
            &&& (target is Ok && code_path_spec(args) is Ok) ==> (plan.last() matches StepOf::OpenInCode {
                container,
                ..
            } && container == args.container)
        }),
{
}

/// `vm snapshot apply` restores the tagged snapshot of the selected VM and
/// never takes one; `vm snapshot create` takes it and never restores one.
pub proof fn lemma_snapshot_apply_restores(args: VmSnapshotTagArgs)
    ensures
        ({
            let apply_plan = snapshot_change_spec(args, true);
            let create_plan = snapshot_change_spec(args, false);
            let c = opt_string_view(args.target.client);
            let v = opt_string_view(args.target.vm);
            &&& forall|i: int| 0 <= i < apply_plan.len() ==> !(#[trigger] apply_plan[i] is Snapshot)
            &&& forall|i: int|
                0 <= i < create_plan.len() ==> !(#[trigger] create_plan[i] is ApplySnapshot)
            &&& target_vm_spec(c, v, SNAPSHOT_APPLY_USAGE@) matches Ok(vm) ==> apply_plan.last()
                == StepOf::<Seq<char>, Seq<Seq<char>>>::ApplySnapshot { vm, tag: args.tag@ }
            &&& target_vm_spec(c, v, SNAPSHOT_CREATE_USAGE@) matches Ok(vm) ==> create_plan.last()
                == StepOf::<Seq<char>, Seq<Seq<char>>>::Snapshot { vm, tag: args.tag@ }
        }),
{
}

/// `vm new` prints the client's key on the VM's SSH host and waits for Enter
/// unless `--no-prompt` was given, and it does so before anything is cloned.
/// No other key step ever appears.
pub proof fn lemma_vm_new_waits_for_key(args: VmNewArgs)
    ensures
        ({
            let plan = vm_new_spec(args);
            &&& forall|i: int|
                0 <= i < plan.len() ==> (#[trigger] plan[i] matches StepOf::PrintKeyAndMaybeWait {
                    host,
                    key_name,
                    prompt,
                } ==> vm_new_accepts(args) && prompt == !args.no_prompt && key_name == args.client@
                    + "_github"@ && host == "lima-"@ + vm_new_vm(args))
            &&& vm_new_accepts(args) ==> plan[8] == StepOf::<
                Seq<char>,
                Seq<Seq<char>>,
            >::PrintKeyAndMaybeWait {
                host: "lima-"@ + vm_new_vm(args),
                key_name: args.client@ + "_github"@,
                prompt: !args.no_prompt,
            }
            &&& forall|j: int|
                0 <= j < plan.len() && runs_script(#[trigger] plan[j], RemoteScript::CloneRepo) ==> 8 < j
        }),
{
    let plan = vm_new_spec(args);
    let key_step = |s: StepView| s is PrintKeyAndMaybeWait;
    if !vm_new_accepts(args) {
        assert(plan.len() == 2);
        assert(!key_step(plan[0]) && !key_step(plan[1]));
        assert(!runs_script(plan[0], RemoteScript::CloneRepo));
        assert(!runs_script(plan[1], RemoteScript::CloneRepo));
    } else {
        let (org, repo) = resolve_repo(
            args.repo.org@,
            opt_string_view(args.repo.repo),
            opt_string_view(args.repo.repo_url),
        )->Ok_0;
        let vm = vm_new_vm(args);
        let client = args.client@;
        let host = lima_host_name(vm);
        let profile = args.profile;
        let clone_url = crate::github::clone_url_for(org, repo);
        let head = seq![StepOf::RequireCommands(vm_new_required())];
        let setup = vm_new_setup(args, vm);
        let clone_part: Seq<StepView> = if !args.skip_clone {
            seq![StepOf::RemoteScript(host, RemoteScript::CloneRepo, seq![repo, clone_url])]
                + snapshot_unless(args.no_snapshots, vm, "clean-clone"@)
        } else {
            seq![]
        };
        let build_part: Seq<StepView> = if !args.skip_build {
            seq![
                StepOf::RemoteScript(
                    host,
                    RemoteScript::BuildImages,
                    seq![profile.name(), "trusted"@, ""@],
                ),
                StepOf::EnsureProfileImage { host, profile, client, vm },
            ]
        } else {
            seq![]
        };
        let apply_part: Seq<StepView> = if !args.skip_clone {
            (if args.skip_build {
                seq![StepOf::WarnSkipBuild { client, vm, profile }]
            } else {
                seq![]
            }) + seq![
                StepOf::RemoteScript(
                    host,
                    RemoteScript::ApplyDevcontainer,
                    seq![repo, profile.name()],
                ),
            ] + snapshot_unless(args.no_snapshots, vm, "trusted-devcontainer-ready"@)
        } else {
            seq![]
        };
        let last = seq![
            StepOf::PrintNextSteps {
                client,
                repo,
                clone_url,
                vm,
                host,
                profile,
                skip_build: args.skip_build,
            },
        ];
        let first = head + setup;
        let rest = clone_part + build_part + apply_part + last;
        assert(plan =~= first + rest);
        assert(first.len() == 9);
        assert(none_of(clone_part, key_step)) by {
            assert forall|i: int| 0 <= i < clone_part.len() implies !key_step(
                #[trigger] clone_part[i],
            ) by {
                if i > 0 {
                    assert(clone_part[i] == snapshot_unless(
                        args.no_snapshots,
                        vm,
                        "clean-clone"@,
                    )[i - 1]);
                }
            }
        }
        assert(none_of(build_part, key_step));
        assert(none_of(apply_part, key_step)) by {
            assert forall|i: int| 0 <= i < apply_part.len() implies !key_step(
                #[trigger] apply_part[i],
            ) by {
                let warn: Seq<StepView> = if args.skip_build {
                    seq![StepOf::WarnSkipBuild { client, vm, profile }]
                } else {
                    seq![]
                };
                let mid = warn + seq![
                    StepOf::RemoteScript(
                        host,
                        RemoteScript::ApplyDevcontainer,
                        seq![repo, profile.name()],
                    ),
                ];
                let snap = snapshot_unless(args.no_snapshots, vm, "trusted-devcontainer-ready"@);
                assert(apply_part =~= mid + snap);
                if i < mid.len() {
                    assert(apply_part[i] == mid[i]);
                    if i < warn.len() {
                        assert(mid[i] == warn[i]);
                    }
                } else {
                    assert(apply_part[i] == snap[i - mid.len()]);
                }
            }
        }
        assert(none_of(last, key_step));
        lemma_none_of_add(clone_part, build_part, key_step);
        lemma_none_of_add(clone_part + build_part, apply_part, key_step);
        lemma_none_of_add(clone_part + build_part + apply_part, last, key_step);
        assert forall|i: int|
            0 <= i < plan.len() && (#[trigger] plan[i] matches StepOf::PrintKeyAndMaybeWait {
                ..
            }) implies i == 8 by {
            if i >= 9 {
                assert(plan[i] == rest[i - 9]);
                assert(!key_step(rest[i - 9]));
            } else {
                assert(plan[i] == first[i]);
                if i >= 1 {
                    assert(first[i] == setup[i - 1]);
                }
            }
        }
        assert(plan[8] == setup[7]);
        assert forall|j: int|
            0 <= j < plan.len() && runs_script(
                #[trigger] plan[j],
                RemoteScript::CloneRepo,
            ) implies 8 < j by {
            if j <= 8 {
                assert(plan[j] == first[j]);
                if j >= 1 {
                    assert(first[j] == setup[j - 1]);
                }
            }
        }
    }
}

} // verus!
