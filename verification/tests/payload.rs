use include_dir::{Dir, DirEntry, File};
use tdc::error::Failure;
use tdc::payload::{is_executable_payload, packaged_version};

static ENTRIES: [DirEntry<'static>; 1] = [DirEntry::File(File::new("VERSION", b" 0.1.1\n"))];
static WITH_VERSION: Dir<'static> = Dir::new("", &ENTRIES);
static EMPTY: Dir<'static> = Dir::new("", &[]);

#[test]
fn reads_trimmed_packaged_version() {
    assert_eq!(packaged_version(&WITH_VERSION).unwrap(), "0.1.1");
}

#[test]
fn refuses_payload_without_version() {
    assert_eq!(packaged_version(&EMPTY), Err(Failure::MissingVersionFile));
}

#[test]
fn marks_bin_and_image_scripts_executable() {
    assert!(is_executable_payload("bin/build-images"));
    assert!(is_executable_payload("bin"));
    assert!(is_executable_payload("images/scripts/install.sh"));
    assert!(is_executable_payload("images//scripts/x.sh"));
    assert!(!is_executable_payload("binary/x"));
    assert!(!is_executable_payload("images/base/Dockerfile"));
    assert!(!is_executable_payload("/bin/x"));
    assert!(!is_executable_payload("./bin/x"));
    assert!(!is_executable_payload("ssh/github_known_hosts"));
}
