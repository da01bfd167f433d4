use tdc::error::Failure;

#[test]
fn refusal_messages() {
    assert_eq!(
        Failure::<String>::RepoArgsConflict.message(),
        "--repo and --repo-url are mutually exclusive"
    );
    assert_eq!(
        Failure::InvalidOwner("bad org".to_owned()).message(),
        "invalid GitHub owner: bad org"
    );
    assert_eq!(
        Failure::VmNotFound("client-x".to_owned()).message(),
        "VM 'client-x' does not exist. Create it first with `tdc vm new`."
    );
    assert_eq!(
        Failure::ClientVmConflict("tdc vm ssh".to_owned()).message(),
        "the argument '--client <CLIENT>' cannot be used with '--vm <VM>'\n\nUsage: tdc vm ssh"
    );
    assert_eq!(
        Failure::MissingProfileImage(
            "trusted/base:0.1.1".to_owned(),
            "base".to_owned(),
            "--client acme".to_owned()
        )
        .message(),
        "missing trusted image in VM: trusted/base:0.1.1\n\nBuild it with:\n  tdc images build base --client acme\n\nThen retry the devcontainer operation."
    );
    assert_eq!(
        Failure::MissingQemu("qemu-system-aarch64".to_owned()).message(),
        "QEMU VM backend requested but `qemu-system-aarch64` is not on PATH.\n\nInstall QEMU with:\n  brew install qemu\n\nIf QEMU is already installed, make sure its bin directory is on PATH.\nFor a VZ-backed VM without setup snapshots, use:\n  --vm-type vz --no-snapshots"
    );
}

#[test]
fn refuses_missing_vm_path() {
    assert_eq!(
        Failure::VmPathMissing("/home/a/work/x".to_owned()).message(),
        "VM path does not exist or is not a directory: /home/a/work/x"
    );
}

#[test]
fn reports_ssh_timeout() {
    assert_eq!(
        Failure::SshTimeout("lima-client-a".to_owned()).message(),
        "timed out waiting for SSH host lima-client-a"
    );
    assert_eq!(tdc::lima::SSH_WAIT_ATTEMPTS, 90);
    assert_eq!(tdc::lima::SSH_WAIT_INTERVAL_SECS, 2);
}
