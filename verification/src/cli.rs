//! The arguments of `tdc`'s subcommands, as plain values.
use vstd::prelude::*;

use crate::model::{BuildTarget, Profile, VmType};

verus! {

#[derive(Clone, Debug)]
pub struct VmArgs {
    pub command: VmCommand,
}

#[derive(Clone, Debug)]
pub enum VmCommand {
    New(VmNewArgs),
    List,
    Snapshot(VmSnapshotArgs),
    Key(VmKeyArgs),
    Code(VmCodeOpenArgs),
    Ssh(VmTargetArgs),
    Status(VmTargetArgs),
    Start(VmTargetArgs),
    Stop(VmStopArgs),
    Delete(VmDeleteArgs),
}

/// `--repo`, `--repo-url` and `--org`.
#[derive(Clone, Debug)]
pub struct RepoInputArgs {
    pub repo: Option<String>,
    pub repo_url: Option<String>,
    pub org: String,
}

#[derive(Clone, Debug)]
pub struct VmNewArgs {
    pub client: String,
    pub repo: RepoInputArgs,
    pub profile: Profile,
    pub vm: Option<String>,
    pub vm_type: VmType,
    pub cpus: u16,
    pub memory: u16,
    pub disk: u16,
    pub no_prompt: bool,
    pub skip_clone: bool,
    pub skip_build: bool,
    pub no_snapshots: bool,
}

#[derive(Clone, Debug)]
pub struct VmSnapshotArgs {
    pub command: VmSnapshotCommand,
}

#[derive(Clone, Debug)]
pub enum VmSnapshotCommand {
    List(VmTargetArgs),
    Create(VmSnapshotTagArgs),
    Apply(VmSnapshotTagArgs),
    Delete(VmSnapshotTagArgs),
}

#[derive(Clone, Debug)]
pub struct VmSnapshotTagArgs {
    pub target: VmTargetArgs,
    pub tag: String,
}

#[derive(Clone, Debug)]
pub struct VmKeyArgs {
    pub command: VmKeyCommand,
}

#[derive(Clone, Debug)]
pub enum VmKeyCommand {
    Show(VmClientTargetArgs),
    Remove(VmKeyRemoveArgs),
}

/// A required `--client` with an optional `--vm` override.
#[derive(Clone, Debug)]
pub struct VmClientTargetArgs {
    pub client: String,
    pub vm: Option<String>,
}

#[derive(Clone, Debug)]
pub struct VmKeyRemoveArgs {
    pub target: VmClientTargetArgs,
    pub yes: bool,
}

/// `tdc vm code`: open a VM folder in VS Code, over SSH or in the devcontainer.
#[derive(Clone, Debug)]
pub struct VmCodeOpenArgs {
    pub target: VmTargetArgs,
    pub repo: RepoInputArgs,
    pub path: Option<String>,
    pub container: bool,
    pub new_window: bool,
    pub reuse_window: bool,
}

#[derive(Clone, Debug)]
pub struct VmStopArgs {
    pub target: VmTargetArgs,
    pub force: bool,
}

#[derive(Clone, Debug)]
pub struct VmDeleteArgs {
    pub target: VmTargetArgs,
    pub force: bool,
}

/// One of `--client` and `--vm`.
#[derive(Clone, Debug)]
pub struct VmTargetArgs {
    pub client: Option<String>,
    pub vm: Option<String>,
}

#[derive(Clone, Debug)]
pub struct RepoArgs {
    pub command: RepoCommand,
}

#[derive(Clone, Debug)]
pub enum RepoCommand {
    List(VmTargetArgs),
    Delete(RepoDeleteArgs),
}

#[derive(Clone, Debug)]
pub struct RepoDeleteArgs {
    pub client: String,
    pub vm: Option<String>,
    pub repo: RepoInputArgs,
    pub force: bool,
}

#[derive(Clone, Debug)]
pub struct ImagesArgs {
    pub command: ImagesCommand,
}

#[derive(Clone, Debug)]
pub enum ImagesCommand {
    Build(ImagesBuildArgs),
}

#[derive(Clone, Debug)]
pub struct ImagesBuildArgs {
    pub profile: BuildTarget,
    pub target: VmTargetArgs,
    pub namespace: String,
    pub version: Option<String>,
}

#[derive(Clone, Debug)]
pub struct DevcontainerArgs {
    pub command: DevcontainerCommand,
}

#[derive(Clone, Debug)]
pub enum DevcontainerCommand {
    Use(DevcontainerUseArgs),
}

#[derive(Clone, Debug)]
pub struct DevcontainerUseArgs {
    pub client: String,
    pub vm: Option<String>,
    pub repo: RepoInputArgs,
    pub profile: Profile,
}

#[derive(Clone, Debug)]
pub struct ManpageArgs {
    pub raw: bool,
    pub install: bool,
    pub install_dir: Option<String>,
}

} // verus!
