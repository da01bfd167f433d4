use tdc::workflow::ssh_config_addition;
use tdc::cli::{
    DevcontainerUseArgs, ImagesBuildArgs,
    RepoDeleteArgs, RepoInputArgs, VmKeyRemoveArgs, VmClientTargetArgs, VmNewArgs, VmStopArgs,
    VmTargetArgs,
};
use tdc::error::Failure;
use tdc::model::{BuildTarget, Profile, VmType, DEFAULT_CPUS, DEFAULT_DISK_GB, DEFAULT_MEMORY_GB, DEFAULT_ORG};
use tdc::scripts::RemoteScript;
use tdc::workflow::{
    client_vm, devcontainer_use, github_key_name, doctor, images_build, repo_delete, vm_key_remove, vm_new,
    vm_stop, target_vm, Step, StepOf,
};

fn new_args(repo_url: &str) -> VmNewArgs {
    VmNewArgs {
        client: "exampleco".to_owned(),
        repo: RepoInputArgs {
            repo: None,
            repo_url: Some(repo_url.to_owned()),
            org: DEFAULT_ORG.to_owned(),
        },
        profile: Profile::Base,
        vm: None,
        vm_type: VmType::Vz,
        cpus: DEFAULT_CPUS,
        memory: DEFAULT_MEMORY_GB,
        disk: DEFAULT_DISK_GB,
        no_prompt: false,
        skip_clone: false,
        skip_build: false,
        no_snapshots: true,
    }
}

fn scripts(plan: &[Step]) -> Vec<RemoteScript> {
    plan.iter()
        .filter_map(|s| match s {
            StepOf::RemoteScript(_, script, _) => Some(*script),
            _ => None,
        })
        .collect()
}

#[test]
fn vm_new_follows_the_normal_lifecycle() {
    let plan = vm_new(&new_args("https://github.com/cantina-forks/protocol"));
    match &plan[3] {
        StepOf::StartVm { vm, vm_type, cpus, memory, disk } => {
            assert_eq!(vm, "client-exampleco");
            assert_eq!(*vm_type, VmType::Vz);
            assert_eq!((*cpus, *memory, *disk), (6, 12, 120));
        }
        other => panic!("unexpected {other:?}"),
    }
    assert!(matches!(&plan[4], StepOf::WaitForSsh(h) if h == "lima-client-exampleco"));
    assert_eq!(
        scripts(&plan),
        vec![
            RemoteScript::UserLocalBinPath,
            RemoteScript::SetupGithubKey,
            RemoteScript::CloneRepo,
            RemoteScript::BuildImages,
            RemoteScript::ApplyDevcontainer,
        ]
    );
    assert!(!plan.iter().any(|s| matches!(s, StepOf::Snapshot { .. })));
    match plan.last().unwrap() {
        StepOf::PrintNextSteps { repo, clone_url, host, .. } => {
            assert_eq!(repo, "protocol");
            assert_eq!(clone_url, "git@github.com:cantina-forks/protocol.git");
            assert_eq!(host, "lima-client-exampleco");
        }
        other => panic!("unexpected {other:?}"),
    }
}

#[test]
fn vm_new_snapshots_after_clone_and_at_the_end() {
    let mut args = new_args("git@github.com:o/r.git");
    args.no_snapshots = false;
    let tags: Vec<String> = vm_new(&args)
        .into_iter()
        .filter_map(|s| match s {
            StepOf::Snapshot { tag, .. } => Some(tag),
            _ => None,
        })
        .collect();
    assert_eq!(tags, vec!["clean-clone", "trusted-devcontainer-ready"]);
}

#[test]
fn vm_new_skip_build_warns_and_builds_nothing() {
    let mut args = new_args("git@github.com:o/r.git");
    args.skip_build = true;
    let plan = vm_new(&args);
    assert!(!scripts(&plan).contains(&RemoteScript::BuildImages));
    assert!(plan.iter().any(|s| matches!(s, StepOf::WarnSkipBuild { .. })));
}

#[test]
fn vm_new_refuses_before_any_work() {
    let mut args = new_args("https://gitlab.com/a/b");
    let plan = vm_new(&args);
    assert_eq!(plan.len(), 2);
    assert!(matches!(&plan[0], StepOf::RequireCommands(c) if c == &vec!["limactl", "ssh", "rsync"]));
    assert!(matches!(&plan[1], StepOf::Fail(Failure::UnsupportedHttpsUrl(_))));
    args.client = "bad client".to_owned();
    let plan = vm_new(&args);
    assert!(matches!(&plan[1], StepOf::Fail(Failure::InvalidClientSlug(c)) if c == "bad client"));
    let mut args = new_args("git@github.com:o/r.git");
    args.vm = Some("bad vm".to_owned());
    let plan = vm_new(&args);
    assert!(matches!(&plan[1], StepOf::Fail(Failure::InvalidVmName(v)) if v == "bad vm"));
}

#[test]
fn selects_target_vm() {
    let t = |client: Option<&str>, vm: Option<&str>| VmTargetArgs {
        client: client.map(str::to_owned),
        vm: vm.map(str::to_owned),
    };
    assert_eq!(target_vm(&t(Some("acme"), None), "u").unwrap(), "client-acme");
    assert_eq!(target_vm(&t(None, Some("v")), "u").unwrap(), "v");
    assert_eq!(
        target_vm(&t(Some("a"), Some("v")), "u"),
        Err(Failure::ClientVmConflict("u".to_owned()))
    );
    assert_eq!(target_vm(&t(None, None), "u"), Err(Failure::MissingVmTarget("u".to_owned())));
    assert_eq!(client_vm("acme", None).unwrap(), "client-acme");
    assert_eq!(client_vm("acme", Some("x y")), Err(Failure::InvalidVmName("x y".to_owned())));
    assert_eq!(github_key_name("acme"), "acme_github");
}

#[test]
fn key_remove_needs_confirmation() {
    let args = VmKeyRemoveArgs {
        target: VmClientTargetArgs { client: "acme".to_owned(), vm: None },
        yes: false,
    };
    let plan = vm_key_remove(&args);
    assert!(matches!(&plan[1], StepOf::Fail(Failure::KeyRemoveNotConfirmed)));
    let plan = vm_key_remove(&VmKeyRemoveArgs { yes: true, ..args });
    match &plan[1] {
        StepOf::RemoteScript(host, RemoteScript::RemoveGithubKey, a) => {
            assert_eq!(host, "lima-client-acme");
            assert_eq!(a, &vec!["acme", "acme_github"]);
        }
        other => panic!("unexpected {other:?}"),
    }
}

#[test]
fn stop_passes_force() {
    let plan = vm_stop(&VmStopArgs {
        target: VmTargetArgs { client: Some("acme".to_owned()), vm: None },
        force: true,
    });
    assert!(matches!(&plan[1], StepOf::Run(a) if a == &vec!["limactl", "stop", "--force", "client-acme"]));
}

#[test]
fn repo_delete_passes_force_flag() {
    let plan = repo_delete(&RepoDeleteArgs {
        client: "acme".to_owned(),
        vm: None,
        repo: RepoInputArgs {
            repo: Some("protocol".to_owned()),
            repo_url: None,
            org: DEFAULT_ORG.to_owned(),
        },
        force: true,
    });
    match &plan[1] {
        StepOf::RemoteScript(_, RemoteScript::DeleteRepo, a) => assert_eq!(a, &vec!["protocol", "1"]),
        other => panic!("unexpected {other:?}"),
    }
}

#[test]
fn doctor_reports_then_requires() {
    let plan = doctor();
    assert!(matches!(&plan[0], StepOf::DoctorReport(c) if c == &vec!["limactl", "ssh", "rsync"]));
    assert!(matches!(&plan[1], StepOf::RequireCommands(_)));
    assert!(matches!(&plan[2], StepOf::PrintPackagedVersion));
}

#[test]
fn devcontainer_use_checks_the_image_before_writing_the_config() {
    let plan = devcontainer_use(&DevcontainerUseArgs {
        client: "exampleco".to_owned(),
        vm: None,
        repo: RepoInputArgs {
            repo: Some("protocol".to_owned()),
            repo_url: None,
            org: DEFAULT_ORG.to_owned(),
        },
        profile: Profile::SolidityFoundry,
    });
    let check = plan
        .iter()
        .position(|s| matches!(s, StepOf::EnsureProfileImage { host, profile: Profile::SolidityFoundry, .. } if host == "lima-client-exampleco"))
        .unwrap();
    let apply = plan
        .iter()
        .position(|s| matches!(s, StepOf::RemoteScript(h, RemoteScript::ApplyDevcontainer, _) if h == "lima-client-exampleco"))
        .unwrap();
    assert!(check < apply);
}

#[test]
fn images_build_verifies_what_it_built() {
    let plan = images_build(&ImagesBuildArgs {
        profile: BuildTarget::All,
        target: VmTargetArgs { client: Some("exampleco".to_owned()), vm: None },
        namespace: "trusted".to_owned(),
        version: Some("0.1.0".to_owned()),
    });
    let n = plan.len();
    assert!(matches!(&plan[n - 2], StepOf::RemoteScript(h, RemoteScript::BuildImages, a)
        if h == "lima-client-exampleco" && a == &vec!["all".to_owned(), "trusted".to_owned(), "0.1.0".to_owned()]));
    assert!(matches!(&plan[n - 1], StepOf::EnsureBuiltImages { host, profile, namespace, version }
        if host == "lima-client-exampleco" && profile == "all" && namespace == "trusted" && version.as_deref() == Some("0.1.0")));
}

#[test]
fn adds_the_ssh_include_once() {
    let line = "Include /Users/a/.lima/*/ssh.config";
    let current = "Host x\n  User y";
    let addition = ssh_config_addition(current, line).unwrap();
    assert_eq!(addition, "\nInclude /Users/a/.lima/*/ssh.config\n");
    let after = format!("{current}{addition}");
    assert_eq!(ssh_config_addition(&after, line), None);
    assert_eq!(ssh_config_addition("a\r\nInclude /Users/a/.lima/*/ssh.config\r\n", line), None);
    assert_eq!(ssh_config_addition("", line).as_deref(), Some("\nInclude /Users/a/.lima/*/ssh.config\n"));
}
