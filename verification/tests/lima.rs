use tdc::lima::{create_outcome, snapshot_begin, snapshot_next, CreateOutcome, SnapshotAction};
use tdc::error::Failure;
use tdc::lima::{
    create_failure_warning, snapshot_failure_context, snapshot_list_failure, snapshot_status,
    ensure_started_action, qemu_binary_for_host, snapshot_commands, snapshot_list_warning_detail,
    snapshots_unimplemented, start_vm, vm_is_running_status, vm_list_output,
    vm_status_from_listing, vm_type_prerequisite, StartVm,
};

#[test]
fn finds_vm_status_in_listing() {
    let listing = "client-a\tRunning\nclient-b\t Stopped \r\nbroken line\n";
    assert_eq!(vm_status_from_listing(listing, "client-b").as_deref(), Some("Stopped"));
    assert_eq!(vm_status_from_listing(listing, "client-a").as_deref(), Some("Running"));
    assert_eq!(vm_status_from_listing(listing, "client-c"), None);
}

#[test]
fn running_ignores_ascii_case() {
    assert!(vm_is_running_status(Some("RUNNING")));
    assert!(vm_is_running_status(Some("running")));
    assert!(!vm_is_running_status(Some("Stopped")));
    assert!(!vm_is_running_status(None));
}

#[test]
fn decides_how_to_start_a_vm() {
    assert!(matches!(start_vm("v", "vz", 6, 12, 120, Some("Running")), StartVm::AlreadyRunning));
    match start_vm("v", "vz", 6, 12, 120, Some("Stopped")) {
        StartVm::StartExisting(argv) => assert_eq!(argv, vec!["limactl", "start", "v"]),
        other => panic!("unexpected {other:?}"),
    }
    match start_vm("client-a", "qemu", 6, 12, 120, None) {
        StartVm::Create(argv) => assert_eq!(
            argv,
            vec![
                "limactl",
                "start",
                "--yes",
                "--name=client-a",
                "--cpus=6",
                "--memory=12",
                "--disk=120",
                "--vm-type=qemu",
                "--mount-none",
                "template:docker",
            ]
        ),
        other => panic!("unexpected {other:?}"),
    }
}

#[test]
fn builds_snapshot_commands() {
    let (stop, change, start) = snapshot_commands("client-a", "pre-install", false);
    assert_eq!(stop, vec!["limactl", "stop", "client-a"]);
    assert_eq!(change, vec!["limactl", "snapshot", "create", "client-a", "--tag", "pre-install"]);
    assert_eq!(start, vec!["limactl", "start", "client-a"]);
    let (_, change, _) = snapshot_commands("client-a", "t", true);
    assert_eq!(change[2], "apply");
}

#[test]
fn reads_snapshot_failures() {
    assert!(snapshots_unimplemented("error: unimplemented for vz"));
    assert!(!snapshots_unimplemented("error: not found"));
    assert_eq!(snapshot_list_warning_detail("first\nsecond line\n"), "second line");
    assert_eq!(snapshot_list_warning_detail("  \n"), "unknown error");
}

#[test]
fn reports_empty_vm_list() {
    assert_eq!(vm_list_output(" \n"), "No VMs found.\n");
    assert_eq!(vm_list_output("NAME\nclient-a\n"), "NAME\nclient-a\n");
}

#[test]
fn picks_qemu_binary() {
    assert_eq!(qemu_binary_for_host("x86_64"), "qemu-system-x86_64");
    assert_eq!(qemu_binary_for_host("aarch64"), "qemu-system-aarch64");
    assert_eq!(qemu_binary_for_host("riscv64"), "qemu-system-aarch64");
    assert_eq!(vm_type_prerequisite("vz", "x86_64"), None);
    assert_eq!(vm_type_prerequisite("qemu", "aarch64"), Some("qemu-system-aarch64"));
}

#[test]
fn starts_existing_vm_for_code() {
    assert_eq!(
        ensure_started_action("client-a", None),
        Err(Failure::VmNotFound("client-a".to_owned()))
    );
    assert_eq!(ensure_started_action("client-a", Some("Running")), Ok(None));
    assert_eq!(
        ensure_started_action("client-a", Some("Stopped")),
        Ok(Some(vec!["limactl".to_owned(), "start".to_owned(), "client-a".to_owned()]))
    );
}

#[test]
fn shows_snapshot_status() {
    assert_eq!(snapshot_status(true, " \n", ""), (None, None));
    assert_eq!(
        snapshot_status(true, "TAG\npre\n", ""),
        (Some("TAG\npre\n".to_owned()), None)
    );
    assert_eq!(
        snapshot_status(false, "", "FATA[0000] unimplemented\n"),
        (None, Some("Snapshots: unavailable with this limactl snapshot backend".to_owned()))
    );
    assert_eq!(
        snapshot_status(false, "", "first\nsecond problem\n"),
        (None, Some("warning: failed to list snapshots: second problem".to_owned()))
    );
}

#[test]
fn explains_snapshot_failures() {
    assert_eq!(
        snapshot_list_failure("client-a", "exit status: 1", "unimplemented"),
        "snapshots unavailable with this limactl snapshot backend; recreate the VM with --vm-type qemu for snapshot support"
    );
    assert_eq!(
        snapshot_list_failure("client-a", "exit status: 1", " boom \n"),
        "limactl snapshot list client-a exited with exit status: 1: boom"
    );
    assert_eq!(
        snapshot_failure_context("pre", true),
        "failed to apply snapshot 'pre'. If this VM uses Lima's vz backend, snapshots may be unavailable; use --vm-type qemu for snapshot support"
    );
    assert_eq!(
        snapshot_failure_context("pre", false),
        "failed to create snapshot 'pre'. If this VM uses Lima's vz backend, snapshots may be unavailable; retry with --vm-type qemu for snapshot support or --no-snapshots to skip setup snapshots"
    );
    assert_eq!(
        create_failure_warning("limactl start x", "exit status: 1", "x"),
        "warning: limactl start x exited with exit status: 1, but VM 'x' is running; continuing setup"
    );
}

#[test]
fn existing_vm_keeps_its_type() {
    let a = start_vm("client-a", "vz", 6, 12, 120, Some("Stopped"));
    let b = start_vm("client-a", "qemu", 2, 4, 50, Some("Stopped"));
    match (a, b) {
        (StartVm::StartExisting(x), StartVm::StartExisting(y)) => assert_eq!(x, y),
        other => panic!("unexpected {other:?}"),
    }
}

#[test]
fn builds_listing_commands() {
    assert_eq!(tdc::lima::vm_list_command(), vec!["limactl", "list"]);
    assert_eq!(
        tdc::lima::snapshot_list_command("client-a"),
        vec!["limactl", "snapshot", "list", "client-a"]
    );
    assert_eq!(
        tdc::completion::vm_names_listing_command(),
        vec!["limactl", "list", "--quiet", "--tty=false"]
    );
    assert_eq!(
        tdc::completion::snapshot_tags_listing_command("client-a"),
        vec!["limactl", "snapshot", "list", "client-a", "--quiet", "--tty=false"]
    );
    assert_eq!(
        tdc::images::image_inspect_command("lima-client-a", "trusted/base:0.1.1"),
        vec!["ssh", "lima-client-a", "docker", "image", "inspect", "trusted/base:0.1.1", "--format", "{{.Id}}"]
    );
    assert_eq!(
        tdc::vscode::remote_home_command("lima-client-a"),
        vec!["ssh", "lima-client-a", "printf %s \"$HOME\""]
    );
    assert_eq!(
        tdc::vscode::docker_host_command("lima-client-a"),
        vec![
            "ssh",
            "lima-client-a",
            r#"docker context inspect "$(docker context show)" --format '{{ (index .Endpoints "docker").Host }}' 2>/dev/null"#
        ]
    );
}

fn run_snapshot(apply: bool, outcomes: &[Result<(), &str>]) -> (Vec<String>, Result<(), String>) {
    let mut seen = Vec::new();
    let (mut phase, mut action) = snapshot_begin("client-a");
    let mut outcomes = outcomes.iter();
    loop {
        match &action {
            SnapshotAction::Run(argv) => seen.push(format!("run {}", argv.join(" "))),
            SnapshotAction::Capture(argv) => seen.push(format!("capture {}", argv.join(" "))),
            SnapshotAction::WaitForSsh(host) => seen.push(format!("wait {host}")),
            SnapshotAction::Finish(result) => {
                return (seen, result.clone().map_err(|e| e.message()));
            }
        }
        let outcome = outcomes.next().unwrap().map_err(|e| e.to_owned());
        (phase, action) = snapshot_next("client-a", "pre", apply, phase, outcome);
    }
}

#[test]
fn snapshot_change_stops_changes_starts_and_waits() {
    let (seen, result) = run_snapshot(true, &[Ok(()), Ok(()), Ok(()), Ok(())]);
    assert_eq!(
        seen,
        vec![
            "run limactl stop client-a",
            "capture limactl snapshot apply client-a --tag pre",
            "run limactl start client-a",
            "wait lima-client-a",
        ]
    );
    assert_eq!(result, Ok(()));
}

#[test]
fn snapshot_change_failures() {
    let (seen, result) = run_snapshot(false, &[Err("stop failed")]);
    assert_eq!(seen, vec!["run limactl stop client-a"]);
    assert_eq!(result, Err("stop failed".to_owned()));

    let (seen, result) = run_snapshot(false, &[Ok(()), Err("unimplemented"), Ok(())]);
    assert_eq!(seen.len(), 3);
    assert_eq!(seen[2], "run limactl start client-a");
    assert_eq!(
        result,
        Err("failed to create snapshot 'pre'. If this VM uses Lima's vz backend, snapshots may be unavailable; retry with --vm-type qemu for snapshot support or --no-snapshots to skip setup snapshots: unimplemented".to_owned())
    );

    let (_, result) = run_snapshot(true, &[Ok(()), Err("unimplemented"), Err("start failed")]);
    assert_eq!(result, Err("start failed".to_owned()));

    let (seen, result) = run_snapshot(true, &[Ok(()), Ok(()), Ok(()), Err("timed out")]);
    assert_eq!(seen.len(), 4);
    assert_eq!(result, Err("timed out".to_owned()));
}

#[test]
fn forgives_a_failed_create_of_a_running_vm() {
    assert_eq!(create_outcome(true, false), CreateOutcome::Created);
    assert_eq!(create_outcome(true, true), CreateOutcome::Created);
    assert_eq!(create_outcome(false, true), CreateOutcome::RunningAnyway);
    assert_eq!(create_outcome(false, false), CreateOutcome::Failed);
}
