use tdc::error::Failure;
use tdc::process::{
    command_candidates, display_command, exit_failure, require_commands, shell_display,
};
use tdc::text::{decimal_string, replace_all_str, trim_str};

#[test]
fn trims_unicode_whitespace() {
    assert_eq!(trim_str("\u{3000} a b \t\n"), "a b");
    assert_eq!(trim_str("   "), "");
}

#[test]
fn renders_decimals() {
    assert_eq!(decimal_string(0), "0");
    assert_eq!(decimal_string(120), "120");
    assert_eq!(decimal_string(65535), "65535");
}

#[test]
fn replaces_without_overlap() {
    assert_eq!(replace_all_str("aaa", "aa", "b"), "ba");
    assert_eq!(replace_all_str(":VM:_default x :VM:_default", ":VM:_default", "V"), "V x V");
}

#[test]
fn reports_first_missing_command() {
    assert_eq!(require_commands(&[("limactl", true), ("ssh", true)]), Ok(()));
    assert_eq!(
        require_commands(&[("limactl", true), ("ssh", false), ("rsync", false)]),
        Err(Failure::MissingCommand("ssh".to_owned()))
    );
}

#[test]
fn looks_up_commands_on_path() {
    assert_eq!(
        command_candidates("ssh", Some("/usr/bin:/opt/bin/:")),
        vec!["/usr/bin/ssh", "/opt/bin/ssh", "ssh"]
    );
    assert_eq!(command_candidates("./bin/tool", Some("/usr/bin")), vec!["./bin/tool"]);
    assert!(command_candidates("ssh", None).is_empty());
}

#[test]
fn shows_command_lines_with_quoting() {
    assert_eq!(shell_display("lima-client-a"), "lima-client-a");
    assert_eq!(shell_display("a b"), "\"a b\"");
    assert_eq!(
        display_command("ssh", &["host".to_owned(), "cat ~/.ssh/k.pub".to_owned()]),
        "ssh host \"cat ~/.ssh/k.pub\""
    );
}

#[test]
fn reports_failed_commands() {
    assert_eq!(exit_failure("limactl list", "exit status: 2", None), "limactl list exited with exit status: 2");
    assert_eq!(
        exit_failure("limactl list", "exit status: 2", Some("  no such VM\n")),
        "limactl list exited with exit status: 2: no such VM"
    );
}
