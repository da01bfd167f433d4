//! Lima: reading its listings, and the `limactl` command lines that start VMs
//! and take or restore snapshots.
use vstd::prelude::*;

use crate::text::{
    char_views, chars_of, concat, contains_seq, decimal, decimal_string, lines, lines_chars,
    matches_at, split_once, split_once_chars, str_eq, string_of, trim, trim_chars, trim_str, views,
};
use crate::error::{ErrorView, Failure, TdcError};
use crate::process::{exit_failure, exit_failure_spec};

verus! {

/// The status of `vm` in the output of `limactl list --format
/// '{{.Name}}\t{{.Status}}'`: the trimmed status on the first line whose name
/// is `vm`; lines without a tab are skipped.
pub open spec fn status_in_lines(ls: Seq<Seq<char>>, vm: Seq<char>) -> Option<Seq<char>>
    decreases ls.len(),
{
    if ls.len() == 0 {
        None
    } else {
        match split_once(ls[0], '\t') {
            Some((name, status)) if name == vm => Some(trim(status)),
            _ => status_in_lines(ls.drop_first(), vm),
        }
    }
}

pub fn vm_status_from_listing(listing: &str, vm: &str) -> (r: Option<String>)
    ensures
        crate::vscode::opt_string_view(r) == status_in_lines(lines(listing@), vm@),
{
    let v = chars_of(listing);
    let vm_chars = chars_of(vm);
    let ls = lines_chars(v.as_slice());
    let ghost all = char_views(ls@);
    let mut i: usize = 0;
    assert(all.skip(0) =~= all);
    while i < ls.len()
        invariant
            0 <= i <= ls.len(),
            all == char_views(ls@),
            vm_chars@ == vm@,
            status_in_lines(lines(listing@), vm@) == status_in_lines(all.skip(i as int), vm@),
        decreases ls.len() - i,
    {
        let ghost rest = all.skip(i as int);
        assert(rest[0] == ls@[i as int]@);
        assert(rest.drop_first() =~= all.skip(i + 1));
        if let Some((name, status)) = split_once_chars(ls[i].as_slice(), '\t') {
            if crate::text::chars_eq(name.as_slice(), vm_chars.as_slice()) {
                let t = trim_chars(status.as_slice());
                return Some(string_of(t.as_slice()));
            }
        }
        i = i + 1;
    }
    None
}

/// ASCII upper-case letters folded to lower case.
pub open spec fn ascii_lower(c: char) -> char {
    if 'A' <= c && c <= 'Z' {
        ((c as u32 + 32) as u8) as char
    } else {
        c
    }
}

/// `status.eq_ignore_ascii_case("running")`.
pub open spec fn is_running_status(status: Seq<char>) -> bool {
    &&& status.len() == 7
    &&& forall|i: int| 0 <= i < 7 ==> #[trigger] ascii_lower(status[i]) == "running"@[i]
}

fn ascii_lower_exec(c: char) -> (r: char)
    ensures
        r == ascii_lower(c),
{
    if 'A' <= c && c <= 'Z' {
        ((c as u32 + 32) as u8) as char
    } else {
        c
    }
}

/// Whether a VM with this status (none when Lima does not list it) is running.
pub fn vm_is_running_status(status: Option<&str>) -> (r: bool)
    ensures
        r == match status {
            Some(s) => is_running_status(s@),
            None => false,
        },
{
    match status {
        None => false,
        Some(s) => {
            let v = chars_of(s);
            let want = chars_of("running");
            proof {
                reveal_strlit("running");
            }
            assert(want.len() == 7);
            if v.len() != 7 {
                return false;
            }
            let mut i: usize = 0;
            while i < 7
                invariant
                    0 <= i <= 7,
                    v.len() == 7,
                    v@ == s@,
                    status == Some(s),
                    want@ == "running"@,
                    want.len() == 7,
                    forall|j: int| 0 <= j < i ==> #[trigger] ascii_lower(v@[j]) == "running"@[j],
                decreases 7 - i,
            {
                if ascii_lower_exec(v[i]) != want[i] {
                    assert(ascii_lower(s@[i as int]) != "running"@[i as int]);
                    assert(!is_running_status(s@));
                    return false;
                }
                i = i + 1;
            }
            true
        },
    }
}

/// The QEMU system binary for the host architecture.
pub open spec fn qemu_binary_spec(arch: Seq<char>) -> Seq<char> {
    if arch == "x86_64"@ {
        "qemu-system-x86_64"@
    } else {
        "qemu-system-aarch64"@
    }
}

pub fn qemu_binary_for_host(arch: &str) -> (r: &'static str)
    ensures
        r@ == qemu_binary_spec(arch@),
{
    if str_eq(arch, "x86_64") {
        "qemu-system-x86_64"
    } else {
        "qemu-system-aarch64"
    }
}

/// The binary that must be on `PATH` before a VM of this type is created:
/// the QEMU binary for the `qemu` backend, nothing for the others.
pub open spec fn vm_type_prerequisite_spec(vm_type: Seq<char>, arch: Seq<char>) -> Option<
    Seq<char>,
> {
    if vm_type == "qemu"@ {
        Some(qemu_binary_spec(arch))
    } else {
        None
    }
}

pub fn vm_type_prerequisite(vm_type: &str, arch: &str) -> (r: Option<&'static str>)
    ensures
        match vm_type_prerequisite_spec(vm_type@, arch@) {
            Some(b) => r matches Some(x) && x@ == b,
            None => r is None,
        },
{
    if !str_eq(vm_type, "qemu") {
        return None;
    }
    Some(qemu_binary_for_host(arch))
}

/// What bringing a VM up takes, given its current status.
#[derive(Clone, Debug)]
pub enum StartVm {
    /// It is running: nothing to do.
    AlreadyRunning,
    /// It exists and is stopped: run this `limactl start`.
    StartExisting(Vec<String>),
    /// It does not exist: run this `limactl start` that creates it.
    Create(Vec<String>),
}

/// `StartVm` in specifications.
pub enum StartVmView {
    AlreadyRunning,
    StartExisting(Seq<Seq<char>>),
    Create(Seq<Seq<char>>),
}

impl View for StartVm {
    type V = StartVmView;

    open spec fn view(&self) -> StartVmView {
        match self {
            StartVm::AlreadyRunning => StartVmView::AlreadyRunning,
            StartVm::StartExisting(a) => StartVmView::StartExisting(views(a@)),
            StartVm::Create(a) => StartVmView::Create(views(a@)),
        }
    }
}

/// The `limactl` command line that creates a VM from the docker template with
/// no host mounts.
pub open spec fn create_vm_args(
    vm: Seq<char>,
    vm_type: Seq<char>,
    cpus: u16,
    memory: u16,
    disk: u16,
) -> Seq<Seq<char>> {
    seq![
        "limactl"@,
        "start"@,
        "--yes"@,
        "--name="@ + vm,
        "--cpus="@ + decimal(cpus as nat),
        "--memory="@ + decimal(memory as nat),
        "--disk="@ + decimal(disk as nat),
        "--vm-type="@ + vm_type,
        "--mount-none"@,
        "template:docker"@,
    ]
}

/// What to do for a VM with the given status (none when it does not exist).
pub open spec fn start_vm_spec(
    vm: Seq<char>,
    vm_type: Seq<char>,
    cpus: u16,
    memory: u16,
    disk: u16,
    status: Option<Seq<char>>,
) -> StartVmView {
    match status {
        Some(s) => if is_running_status(s) {
            StartVmView::AlreadyRunning
        } else {
            StartVmView::StartExisting(seq!["limactl"@, "start"@, vm])
        },
        None => StartVmView::Create(create_vm_args(vm, vm_type, cpus, memory, disk)),
    }
}

/// A VM's backend and resources are fixed when it is created: for a VM that
/// exists, starting it does the same whatever type and resources are asked for,
/// and only a VM that does not exist is created with them.
pub proof fn lemma_existing_vm_keeps_its_type(
    vm: Seq<char>,
    status: Option<Seq<char>>,
    vm_type: Seq<char>,
    cpus: u16,
    memory: u16,
    disk: u16,
    other_type: Seq<char>,
    other_cpus: u16,
    other_memory: u16,
    other_disk: u16,
)
    ensures
        status is Some ==> start_vm_spec(vm, vm_type, cpus, memory, disk, status) == start_vm_spec(
            vm,
            other_type,
            other_cpus,
            other_memory,
            other_disk,
            status,
        ),
        status is Some ==> !(start_vm_spec(vm, vm_type, cpus, memory, disk, status) is Create),
        status is None ==> start_vm_spec(vm, vm_type, cpus, memory, disk, status)
            == StartVmView::Create(create_vm_args(vm, vm_type, cpus, memory, disk)),
{
}

fn flag_value(flag: &str, n: u16) -> (r: String)
    ensures
        r@ == flag@ + decimal(n as nat),
{
    let d = decimal_string(n as u64);
    concat(flag, d.as_str())
}

pub fn start_vm(vm: &str, vm_type: &str, cpus: u16, memory: u16, disk: u16, status: Option<&str>) -> (r:
    StartVm)
    ensures
        r@ == start_vm_spec(vm@, vm_type@, cpus, memory, disk, crate::github::opt_view(status)),
{
    match status {
        Some(s) => {
            if vm_is_running_status(Some(s)) {
                StartVm::AlreadyRunning
            } else {
                let mut a: Vec<String> = Vec::new();
                a.push("limactl".to_owned());
                a.push("start".to_owned());
                a.push(vm.to_owned());
                assert(views(a@) =~= seq!["limactl"@, "start"@, vm@]);
                StartVm::StartExisting(a)
            }
        },
        None => {
            let mut a: Vec<String> = Vec::new();
            a.push("limactl".to_owned());
            a.push("start".to_owned());
            a.push("--yes".to_owned());
            a.push(concat("--name=", vm));
            a.push(flag_value("--cpus=", cpus));
            a.push(flag_value("--memory=", memory));
            a.push(flag_value("--disk=", disk));
            a.push(concat("--vm-type=", vm_type));
            a.push("--mount-none".to_owned());
            a.push("template:docker".to_owned());
            assert(views(a@) =~= create_vm_args(vm@, vm_type@, cpus, memory, disk));
            StartVm::Create(a)
        },
    }
}

/// The `limactl` command lines of a snapshot change: stop the VM, create (or
/// apply) the tagged snapshot, start the VM again.
pub open spec fn snapshot_commands_spec(vm: Seq<char>, tag: Seq<char>, apply: bool) -> (
    Seq<Seq<char>>,
    Seq<Seq<char>>,
    Seq<Seq<char>>,
) {
    (
        seq!["limactl"@, "stop"@, vm],
        seq![
            "limactl"@,
            "snapshot"@,
            if apply {
                "apply"@
            } else {
                "create"@
            },
            vm,
            "--tag"@,
            tag,
        ],
        seq!["limactl"@, "start"@, vm],
    )
}

pub fn snapshot_commands(vm: &str, tag: &str, apply: bool) -> (r: (
    Vec<String>,
    Vec<String>,
    Vec<String>,
))
    ensures
        (views(r.0@), views(r.1@), views(r.2@)) == snapshot_commands_spec(vm@, tag@, apply),
{
    let mut stop: Vec<String> = Vec::new();
    stop.push("limactl".to_owned());
    stop.push("stop".to_owned());
    stop.push(vm.to_owned());
    let mut change: Vec<String> = Vec::new();
    change.push("limactl".to_owned());
    change.push("snapshot".to_owned());
    if apply {
        change.push("apply".to_owned());
    } else {
        change.push("create".to_owned());
    }
    change.push(vm.to_owned());
    change.push("--tag".to_owned());
    change.push(tag.to_owned());
    let mut start: Vec<String> = Vec::new();
    start.push("limactl".to_owned());
    start.push("start".to_owned());
    start.push(vm.to_owned());
    let ghost want = snapshot_commands_spec(vm@, tag@, apply);
    assert(views(stop@) =~= want.0);
    assert(views(change@) =~= want.1);
    assert(views(start@) =~= want.2);
    (stop, change, start)
}

/// Whether `limactl` said that the VM's backend has no snapshots.
pub open spec fn snapshots_unimplemented_spec(stderr: Seq<char>) -> bool {
    contains_seq(stderr, "unimplemented"@)
}

pub fn snapshots_unimplemented(stderr: &str) -> (r: bool)
    ensures
        r == snapshots_unimplemented_spec(stderr@),
{
    let v = chars_of(stderr);
    let needle = chars_of("unimplemented");
    let mut i: usize = 0;
    while i < v.len()
        invariant
            0 <= i <= v.len(),
            v@ == stderr@,
            needle@ == "unimplemented"@,
            forall|j: int| 0 <= j < i ==> !needle@.is_prefix_of(#[trigger] v@.skip(j)),
        decreases v.len() - i,
    {
        if matches_at(v.as_slice(), i, needle.as_slice()) {
            return true;
        }
        i = i + 1;
    }
    matches_at(v.as_slice(), i, needle.as_slice())
}

/// The detail shown when listing snapshots fails for another reason: the last
/// line of the trimmed error output.
pub open spec fn snapshot_warning_detail(stderr: Seq<char>) -> Seq<char> {
    let ls = lines(trim(stderr));
    if ls.len() == 0 {
        "unknown error"@
    } else {
        ls.last()
    }
}

pub fn snapshot_list_warning_detail(stderr: &str) -> (r: String)
    ensures
        r@ == snapshot_warning_detail(stderr@),
{
    let v = chars_of(stderr);
    let t = trim_chars(v.as_slice());
    let ls = lines_chars(t.as_slice());
    if ls.len() == 0 {
        "unknown error".to_owned()
    } else {
        assert(char_views(ls@).last() == ls@[ls.len() - 1]@);
        string_of(ls[ls.len() - 1].as_slice())
    }
}

/// What `tdc vm list` prints of a successful `limactl list`.
pub open spec fn vm_list_output_spec(stdout: Seq<char>) -> Seq<char> {
    if trim(stdout).len() == 0 {
        "No VMs found.\n"@
    } else {
        stdout
    }
}

pub fn vm_list_output(stdout: &str) -> (r: String)
    ensures
        r@ == vm_list_output_spec(stdout@),
{
    let t = crate::text::trim_str(stdout);
    if t.as_str().is_empty() {
        "No VMs found.\n".to_owned()
    } else {
        stdout.to_owned()
    }
}


/// What `vm code` does to a VM before opening it: refuse a VM that Lima does
/// not list, start a stopped one, leave a running one alone.
pub open spec fn ensure_started_spec(vm: Seq<char>, status: Option<Seq<char>>) -> Result<
    Option<Seq<Seq<char>>>,
    crate::error::ErrorView,
> {
    match status {
        None => Err(crate::error::Failure::VmNotFound(vm)),
        Some(s) => if is_running_status(s) {
            Ok(None)
        } else {
            Ok(Some(seq!["limactl"@, "start"@, vm]))
        },
    }
}

pub fn ensure_started_action(vm: &str, status: Option<&str>) -> (r: Result<
    Option<Vec<String>>,
    crate::error::TdcError,
>)
    ensures
        match ensure_started_spec(vm@, crate::github::opt_view(status)) {
            Ok(None) => r matches Ok(None),
            Ok(Some(cmd)) => r matches Ok(Some(c)) && views(c@) == cmd,
            Err(e) => r matches Err(x) && x@ == e,
        },
{
    match status {
        None => Err(crate::error::Failure::VmNotFound(vm.to_owned())),
        Some(s) => {
            if vm_is_running_status(Some(s)) {
                Ok(None)
            } else {
                let c = vec!["limactl".to_owned(), "start".to_owned(), vm.to_owned()];
                assert(views(c@) =~= seq!["limactl"@, "start"@, vm@]);
                Ok(Some(c))
            }
        },
    }
}

/// `limactl list --format '{{.Name}}\t{{.Status}}'`, read by
/// [`vm_status_from_listing`].
pub open spec fn status_listing_command_spec() -> Seq<Seq<char>> {
    seq!["limactl"@, "list"@, "--format"@, "{{.Name}}\t{{.Status}}"@]
}

pub fn status_listing_command() -> (r: Vec<String>)
    ensures
        views(r@) == status_listing_command_spec(),
{
    let r = vec![
        "limactl".to_owned(),
        "list".to_owned(),
        "--format".to_owned(),
        "{{.Name}}\t{{.Status}}".to_owned(),
    ];
    assert(views(r@) =~= status_listing_command_spec());
    r
}

/// How many times `WaitForSsh` probes the host before it gives up.
pub const SSH_WAIT_ATTEMPTS: u32 = 90;

/// The seconds `WaitForSsh` waits after a failed probe.
pub const SSH_WAIT_INTERVAL_SECS: u64 = 2;

/// The probe that `WaitForSsh` repeats until it succeeds.
pub open spec fn ssh_probe_command_spec(host: Seq<char>) -> Seq<Seq<char>> {
    seq!["ssh"@, "-o"@, "BatchMode=yes"@, "-o"@, "ConnectTimeout=5"@, host, "true"@]
}

pub fn ssh_probe_command(host: &str) -> (r: Vec<String>)
    ensures
        views(r@) == ssh_probe_command_spec(host@),
{
    let r = vec![
        "ssh".to_owned(),
        "-o".to_owned(),
        "BatchMode=yes".to_owned(),
        "-o".to_owned(),
        "ConnectTimeout=5".to_owned(),
        host.to_owned(),
        "true".to_owned(),
    ];
    assert(views(r@) =~= ssh_probe_command_spec(host@));
    r
}

/// How `vm status` shows the VM's snapshots, from the outcome of `limactl
/// snapshot list`: the listing to print (when not blank), or the line to
/// print on standard error.
pub open spec fn snapshot_status_spec(success: bool, stdout: Seq<char>, stderr: Seq<char>) -> (
    Option<Seq<char>>,
    Option<Seq<char>>,
) {
    if success {
        if trim(stdout).len() == 0 {
            (None, None)
        } else {
            (Some(stdout), None)
        }
    } else if snapshots_unimplemented_spec(stderr) {
        (None, Some("Snapshots: unavailable with this limactl snapshot backend"@))
    } else {
        (None, Some("warning: failed to list snapshots: "@ + snapshot_warning_detail(stderr)))
    }
}

pub fn snapshot_status(success: bool, stdout: &str, stderr: &str) -> (r: (
    Option<String>,
    Option<String>,
))
    ensures
        (crate::vscode::opt_string_view(r.0), crate::vscode::opt_string_view(r.1))
            == snapshot_status_spec(success, stdout@, stderr@),
{
    if success {
        let t = trim_str(stdout);
        if t.as_str().is_empty() {
            (None, None)
        } else {
            (Some(stdout.to_owned()), None)
        }
    } else if snapshots_unimplemented(stderr) {
        (None, Some("Snapshots: unavailable with this limactl snapshot backend".to_owned()))
    } else {
        let detail = snapshot_list_warning_detail(stderr);
        (None, Some(concat("warning: failed to list snapshots: ", detail.as_str())))
    }
}

/// Why `vm snapshot list` failed: the backend has no snapshots, or
/// `limactl snapshot list` exited with `status`.
pub open spec fn snapshot_list_failure_spec(vm: Seq<char>, status: Seq<char>, stderr: Seq<char>) -> Seq<
    char,
> {
    if snapshots_unimplemented_spec(stderr) {
        "snapshots unavailable with this limactl snapshot backend; recreate the VM with --vm-type qemu for snapshot support"@
    } else {
        exit_failure_spec("limactl snapshot list "@ + vm, status, Some(stderr))
    }
}

pub fn snapshot_list_failure(vm: &str, status: &str, stderr: &str) -> (r: String)
    ensures
        r@ == snapshot_list_failure_spec(vm@, status@, stderr@),
{
    if snapshots_unimplemented(stderr) {
        "snapshots unavailable with this limactl snapshot backend; recreate the VM with --vm-type qemu for snapshot support".to_owned()
    } else {
        let display = concat("limactl snapshot list ", vm);
        exit_failure(display.as_str(), status, Some(stderr))
    }
}

/// What a failed snapshot change adds to the error of `limactl snapshot`.
pub open spec fn snapshot_failure_context_spec(tag: Seq<char>, apply: bool) -> Seq<char> {
    if apply {
        "failed to apply snapshot '"@ + tag
            + "'. If this VM uses Lima's vz backend, snapshots may be unavailable; use --vm-type qemu for snapshot support"@
    } else {
        "failed to create snapshot '"@ + tag
            + "'. If this VM uses Lima's vz backend, snapshots may be unavailable; retry with --vm-type qemu for snapshot support or --no-snapshots to skip setup snapshots"@
    }
}

pub fn snapshot_failure_context(tag: &str, apply: bool) -> (r: String)
    ensures
        r@ == snapshot_failure_context_spec(tag@, apply),
{
    if apply {
        let mut r = concat("failed to apply snapshot '", tag);
        r.append(
            "'. If this VM uses Lima's vz backend, snapshots may be unavailable; use --vm-type qemu for snapshot support",
        );
        r
    } else {
        let mut r = concat("failed to create snapshot '", tag);
        r.append(
            "'. If this VM uses Lima's vz backend, snapshots may be unavailable; retry with --vm-type qemu for snapshot support or --no-snapshots to skip setup snapshots",
        );
        r
    }
}

/// The warning when creating the VM failed but the VM runs anyway, so setup
/// goes on.
pub open spec fn create_failure_warning_spec(display: Seq<char>, status: Seq<char>, vm: Seq<char>) -> Seq<
    char,
> {
    "warning: "@ + display + " exited with "@ + status + ", but VM '"@ + vm
        + "' is running; continuing setup"@
}

pub fn create_failure_warning(display: &str, status: &str, vm: &str) -> (r: String)
    ensures
        r@ == create_failure_warning_spec(display@, status@, vm@),
{
    let mut r = concat("warning: ", display);
    r.append(" exited with ");
    r.append(status);
    r.append(", but VM '");
    r.append(vm);
    r.append("' is running; continuing setup");
    r
}

/// `limactl list`, as `vm list` prints it.
pub open spec fn vm_list_command_spec() -> Seq<Seq<char>> {
    seq!["limactl"@, "list"@]
}

pub fn vm_list_command() -> (r: Vec<String>)
    ensures
        views(r@) == vm_list_command_spec(),
{
    let r = vec![
        "limactl".to_owned(),
        "list".to_owned(),
    ];
    assert(views(r@) =~= vm_list_command_spec());
    r
}

/// `limactl snapshot list` for a VM.
pub open spec fn snapshot_list_command_spec(vm: Seq<char>) -> Seq<Seq<char>> {
    seq!["limactl"@, "snapshot"@, "list"@, vm]
}

pub fn snapshot_list_command(vm: &str) -> (r: Vec<String>)
    ensures
        views(r@) == snapshot_list_command_spec(vm@),
{
    let r = vec![
        "limactl".to_owned(),
        "snapshot".to_owned(),
        "list".to_owned(),
        vm.to_owned(),
    ];
    assert(views(r@) =~= snapshot_list_command_spec(vm@));
    r
}

// ---------------------------------------------------------------------------
// Taking and restoring snapshots
// ---------------------------------------------------------------------------

/// How far a snapshot change has come: the step whose outcome is handed back
/// next.
#[derive(Debug)]
pub enum SnapshotPhase {
    /// `limactl stop` was run.
    Stop,
    /// `limactl snapshot create` (or `apply`) was run.
    Change,
    /// `limactl start` was run, after the change had this outcome.
    Start { change: Result<(), String> },
    /// The wait for SSH was run.
    Wait,
    /// Nothing is left to run.
    Done,
}

/// `SnapshotPhase` in specifications.
pub enum SnapshotPhaseView {
    Stop,
    Change,
    Start { change: Result<(), Seq<char>> },
    Wait,
    Done,
}

/// The text of an outcome's error.
pub open spec fn outcome_view(o: Result<(), String>) -> Result<(), Seq<char>> {
    match o {
        Ok(()) => Ok(()),
        Err(e) => Err(e@),
    }
}

impl View for SnapshotPhase {
    type V = SnapshotPhaseView;

    open spec fn view(&self) -> SnapshotPhaseView {
        match self {
            SnapshotPhase::Stop => SnapshotPhaseView::Stop,
            SnapshotPhase::Change => SnapshotPhaseView::Change,
            SnapshotPhase::Start { change } => SnapshotPhaseView::Start {
                change: outcome_view(*change),
            },
            SnapshotPhase::Wait => SnapshotPhaseView::Wait,
            SnapshotPhase::Done => SnapshotPhaseView::Done,
        }
    }
}

/// What to do next in a snapshot change.
#[derive(Debug)]
pub enum SnapshotAction {
    /// Run this command line; its outcome is whether it succeeded.
    Run(Vec<String>),
    /// Run this command line capturing its output; its outcome is whether it
    /// succeeded.
    Capture(Vec<String>),
    /// Wait until this SSH host answers.
    WaitForSsh(String),
    /// The change is over, with this result.
    Finish(Result<(), TdcError>),
}

/// `SnapshotAction` in specifications.
pub enum SnapshotActionView {
    Run(Seq<Seq<char>>),
    Capture(Seq<Seq<char>>),
    WaitForSsh(Seq<char>),
    Finish(Result<(), ErrorView>),
}

impl View for SnapshotAction {
    type V = SnapshotActionView;

    open spec fn view(&self) -> SnapshotActionView {
        match self {
            SnapshotAction::Run(a) => SnapshotActionView::Run(views(a@)),
            SnapshotAction::Capture(a) => SnapshotActionView::Capture(views(a@)),
            SnapshotAction::WaitForSsh(h) => SnapshotActionView::WaitForSsh(h@),
            SnapshotAction::Finish(r) => SnapshotActionView::Finish(
                match r {
                    Ok(()) => Ok(()),
                    Err(e) => Err(e@),
                },
            ),
        }
    }
}

/// The first step of a snapshot change: stop the VM.
pub open spec fn snapshot_begin_spec(vm: Seq<char>) -> (SnapshotPhaseView, SnapshotActionView) {
    (SnapshotPhaseView::Stop, SnapshotActionView::Run(snapshot_commands_spec(vm, ""@, false).0))
}

pub fn snapshot_begin(vm: &str) -> (r: (SnapshotPhase, SnapshotAction))
    ensures
        (r.0@, r.1@) == snapshot_begin_spec(vm@),
{
    let (stop, _, _) = snapshot_commands(vm, "", false);
    (SnapshotPhase::Stop, SnapshotAction::Run(stop))
}

/// The step after `phase` had `outcome`: a failed stop ends the change; the
/// snapshot is created (or applied) after the stop; the VM is started again
/// whatever the change gave; a failed start wins over a failed change, which
/// is reported with [`snapshot_failure_context_spec`]; only when all of that
/// succeeded is SSH waited for, and the change ends with the wait's outcome.
pub open spec fn snapshot_next_spec(
    vm: Seq<char>,
    tag: Seq<char>,
    apply: bool,
    phase: SnapshotPhaseView,
    outcome: Result<(), Seq<char>>,
) -> (SnapshotPhaseView, SnapshotActionView) {
    let commands = snapshot_commands_spec(vm, tag, apply);
    match phase {
        SnapshotPhaseView::Stop => match outcome {
            Err(e) => (SnapshotPhaseView::Done, SnapshotActionView::Finish(Err(Failure::StepFailed(e)))),
            Ok(()) => (SnapshotPhaseView::Change, SnapshotActionView::Capture(commands.1)),
        },
        SnapshotPhaseView::Change => (
            SnapshotPhaseView::Start { change: outcome },
            SnapshotActionView::Run(commands.2),
        ),
        SnapshotPhaseView::Start { change } => match outcome {
            Err(e) => (SnapshotPhaseView::Done, SnapshotActionView::Finish(Err(Failure::StepFailed(e)))),
            Ok(()) => match change {
                Err(c) => (
                    SnapshotPhaseView::Done,
                    SnapshotActionView::Finish(
                        Err(Failure::SnapshotFailed(snapshot_failure_context_spec(tag, apply), c)),
                    ),
                ),
                Ok(()) => (
                    SnapshotPhaseView::Wait,
                    SnapshotActionView::WaitForSsh(crate::model::lima_host_name(vm)),
                ),
            },
        },
        SnapshotPhaseView::Wait => match outcome {
            Err(e) => (SnapshotPhaseView::Done, SnapshotActionView::Finish(Err(Failure::StepFailed(e)))),
            Ok(()) => (SnapshotPhaseView::Done, SnapshotActionView::Finish(Ok(()))),
        },
        SnapshotPhaseView::Done => (SnapshotPhaseView::Done, SnapshotActionView::Finish(Ok(()))),
    }
}

pub fn snapshot_next(
    vm: &str,
    tag: &str,
    apply: bool,
    phase: SnapshotPhase,
    outcome: Result<(), String>,
) -> (r: (SnapshotPhase, SnapshotAction))
    ensures
        (r.0@, r.1@) == snapshot_next_spec(vm@, tag@, apply, phase@, outcome_view(outcome)),
{
    let (_, change, start) = snapshot_commands(vm, tag, apply);
    match phase {
        SnapshotPhase::Stop => match outcome {
            Err(e) => (SnapshotPhase::Done, SnapshotAction::Finish(Err(Failure::StepFailed(e)))),
            Ok(()) => (SnapshotPhase::Change, SnapshotAction::Capture(change)),
        },
        SnapshotPhase::Change => (SnapshotPhase::Start { change: outcome }, SnapshotAction::Run(start)),
        SnapshotPhase::Start { change } => match outcome {
            Err(e) => (SnapshotPhase::Done, SnapshotAction::Finish(Err(Failure::StepFailed(e)))),
            Ok(()) => match change {
                Err(c) => (
                    SnapshotPhase::Done,
                    SnapshotAction::Finish(
                        Err(Failure::SnapshotFailed(snapshot_failure_context(tag, apply), c)),
                    ),
                ),
                Ok(()) => (SnapshotPhase::Wait, SnapshotAction::WaitForSsh(crate::model::lima_host(vm))),
            },
        },
        SnapshotPhase::Wait => match outcome {
            Err(e) => (SnapshotPhase::Done, SnapshotAction::Finish(Err(Failure::StepFailed(e)))),
            Ok(()) => (SnapshotPhase::Done, SnapshotAction::Finish(Ok(()))),
        },
        SnapshotPhase::Done => (SnapshotPhase::Done, SnapshotAction::Finish(Ok(()))),
    }
}

/// A snapshot change runs, in order: stop the VM; create (or apply) the
/// snapshot; start the VM, whatever the change gave; wait for SSH; done.
/// When the change failed and the start succeeded it ends with the change's
/// error in its context, and a failed start ends it with the start's error.
pub proof fn lemma_snapshot_sequence(
    vm: Seq<char>,
    tag: Seq<char>,
    apply: bool,
    change: Result<(), Seq<char>>,
    start_error: Seq<char>,
)
    ensures
        snapshot_begin_spec(vm) == (
            SnapshotPhaseView::Stop,
            SnapshotActionView::Run(seq!["limactl"@, "stop"@, vm]),
        ),
        snapshot_next_spec(vm, tag, apply, SnapshotPhaseView::Stop, Ok(())) == (
            SnapshotPhaseView::Change,
            SnapshotActionView::Capture(snapshot_commands_spec(vm, tag, apply).1),
        ),
        snapshot_next_spec(vm, tag, apply, SnapshotPhaseView::Change, change) == (
            SnapshotPhaseView::Start { change },
            SnapshotActionView::Run(seq!["limactl"@, "start"@, vm]),
        ),
        snapshot_next_spec(vm, tag, apply, SnapshotPhaseView::Start { change }, Err(start_error))
            == (
            SnapshotPhaseView::Done,
            SnapshotActionView::Finish(Err(Failure::StepFailed(start_error))),
        ),
        snapshot_next_spec(vm, tag, apply, SnapshotPhaseView::Start { change }, Ok(())) == (match change {
            Ok(()) => (SnapshotPhaseView::Wait, SnapshotActionView::WaitForSsh("lima-"@ + vm)),
            Err(c) => (
                SnapshotPhaseView::Done,
                SnapshotActionView::Finish(
                    Err(Failure::SnapshotFailed(snapshot_failure_context_spec(tag, apply), c)),
                ),
            ),
        }),
        snapshot_next_spec(vm, tag, apply, SnapshotPhaseView::Wait, Ok(())) == (
            SnapshotPhaseView::Done,
            SnapshotActionView::Finish(Ok(())),
        ),
{
}

/// How creating a VM ended, once the create command has exited.
#[derive(Clone, Copy, Debug, PartialEq, Eq, Structural)]
pub enum CreateOutcome {
    /// The create command succeeded.
    Created,
    /// It failed, but the VM runs anyway: warn and go on with setup.
    RunningAnyway,
    /// It failed and the VM does not run: the setup fails.
    Failed,
}

/// A failed create is forgiven when the VM runs afterwards; whether it runs
/// is looked at only after a failure.
pub open spec fn create_outcome_spec(create_ok: bool, running_after: bool) -> CreateOutcome {
    if create_ok {
        CreateOutcome::Created
    } else if running_after {
        CreateOutcome::RunningAnyway
    } else {
        CreateOutcome::Failed
    }
}

pub fn create_outcome(create_ok: bool, running_after: bool) -> (r: CreateOutcome)
    ensures
        r == create_outcome_spec(create_ok, running_after),
{
    if create_ok {
        CreateOutcome::Created
    } else if running_after {
        CreateOutcome::RunningAnyway
    } else {
        CreateOutcome::Failed
    }
}

} // verus!
