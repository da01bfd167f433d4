use tdc::cli::ManpageArgs;
use tdc::error::Failure;
use tdc::images::{missing_built_images, trusted_image_status_args, version_or_packaged};
use tdc::manpage::{expand_home, manpage_install_paths, manpage_mode, manpath_entries, ManpageMode};
use tdc::model::Profile;
use tdc::report::{doctor_line, manpage_installed_lines, next_steps_lines, skip_build_warning_lines};

static EMPTY: include_dir::Dir<'static> = include_dir::Dir::new("", &[]);

#[test]
fn prints_next_steps() {
    let lines = next_steps_lines(
        "exampleco",
        "protocol",
        "git@github.com:cantina-forks/protocol.git",
        "client-exampleco",
        "lima-client-exampleco",
        Profile::Base,
        false,
    );
    assert_eq!(lines[1], "VM ready: client-exampleco");
    assert_eq!(lines[2], "SSH host: lima-client-exampleco");
    assert_eq!(lines[3], "Repo path: ~/work/protocol");
    assert_eq!(lines[5], "Profile: base");
    assert_eq!(
        lines[8],
        "  1. Open VS Code over SSH: tdc vm code --client exampleco --repo protocol"
    );
    assert_eq!(lines.len(), 10);
    let lines = next_steps_lines("a", "r", "u", "audit-a", "lima-audit-a", Profile::Node, true);
    assert_eq!(lines[8], "  1. Build the profile image: tdc images build node --vm audit-a");
    assert_eq!(
        lines[10],
        "  3. Open VS Code in the devcontainer: tdc vm code --container --client a --repo r"
    );
}

#[test]
fn warns_about_skipped_build() {
    let lines = skip_build_warning_lines("a", "client-a", Profile::SolidityFoundry);
    assert_eq!(
        lines[1],
        "warning: build it before opening VS Code: tdc images build solidity-foundry --client a"
    );
}

#[test]
fn doctor_lines() {
    assert_eq!(doctor_line("ssh", true), "ok: ssh");
    assert_eq!(doctor_line("rsync", false), "missing: rsync");
}

#[test]
fn manpage_modes() {
    let args = |raw, install| ManpageArgs { raw, install, install_dir: None };
    assert_eq!(manpage_mode(&args(true, true), true, true), Err(Failure::RawInstallConflict));
    assert_eq!(manpage_mode(&args(false, true), true, true), Ok(ManpageMode::Install));
    assert_eq!(manpage_mode(&args(true, false), true, true), Ok(ManpageMode::Print));
    assert_eq!(manpage_mode(&args(false, false), false, true), Ok(ManpageMode::Print));
    assert_eq!(manpage_mode(&args(false, false), true, false), Ok(ManpageMode::Print));
    assert_eq!(manpage_mode(&args(false, false), true, true), Ok(ManpageMode::Show));
}

#[test]
fn manpage_install_locations() {
    let p = manpage_install_paths(None, Some("/home/u")).unwrap();
    assert_eq!(p.man1, "/home/u/.local/share/man/man1");
    assert_eq!(p.manpath_dir, "/home/u/.local/share/man");
    assert_eq!(p.target, "/home/u/.local/share/man/man1/tdc.1");
    let p = manpage_install_paths(Some("~/man/man1"), Some("/home/u")).unwrap();
    assert_eq!(p.man1, "/home/u/man/man1");
    assert_eq!(p.manpath_dir, "/home/u/man");
    assert!(manpage_install_paths(None, Some("")).is_err());
    assert_eq!(expand_home("~", Some("/h")).unwrap(), "/h");
    assert_eq!(expand_home("/abs", None).unwrap(), "/abs");
    assert_eq!(expand_home("~/x", None), Err(Failure::HomeNotSet));
}

#[test]
fn manpage_install_hints() {
    assert_eq!(
        manpage_installed_lines("/m/man1/tdc.1", "/m", true),
        vec!["Installed manpage: /m/man1/tdc.1", "Try: man tdc"]
    );
    let lines = manpage_installed_lines("/m/man1/tdc.1", "/m", false);
    assert_eq!(lines[3], "  export MANPATH=\"/m:$MANPATH\"");
}

#[test]
fn reads_manpath() {
    assert_eq!(manpath_entries(" /a::/b\n"), vec!["/a", "/b"]);
}

#[test]
fn image_versions_and_missing_images() {
    assert_eq!(version_or_packaged(Some("0.2.0"), &EMPTY).unwrap(), "0.2.0");
    assert_eq!(version_or_packaged(Some(""), &EMPTY), Err(Failure::MissingVersionFile));
    assert_eq!(missing_built_images(&vec![]), None);
    assert_eq!(
        missing_built_images(&vec!["t/a:1".to_owned(), "t/b:1".to_owned()]),
        Some(Failure::MissingBuiltImages("t/a:1\n  t/b:1".to_owned()))
    );
    assert_eq!(trusted_image_status_args("1").len(), 5);
    assert_eq!(trusted_image_status_args("1")[4], "trusted/solidity-foundry-node:1");
}
