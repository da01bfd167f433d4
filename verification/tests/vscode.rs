use tdc::cli::{RepoInputArgs, VmCodeOpenArgs, VmTargetArgs};
use tdc::error::Failure;
use tdc::vscode::{
    absolute_vm_path, code_open_args, code_path_arg, devcontainer_authority_config,
    directory_check, docker_host_from_output, hex_encode, json_string, remote_home_from_output,
    uri_encode_path, vm_path_is_absolute,
};

#[test]
fn escapes_json_strings() {
    assert_eq!(json_string("a\"b\\c\n\r\t"), "\"a\\\"b\\\\c\\n\\r\\t\"");
    assert_eq!(json_string("\u{1}x\u{7f}"), "\"\\u0001x\\u007f\"");
    assert_eq!(json_string("é"), "\"é\"");
}

#[test]
fn hex_encodes_utf8_bytes() {
    assert_eq!(hex_encode("/a"), "2f61");
    assert_eq!(hex_encode("é"), "c3a9");
    assert_eq!(hex_encode(""), "");
}

#[test]
fn percent_encodes_uri_paths() {
    assert_eq!(uri_encode_path("/a b/é~_.-"), "/a%20b/%C3%A9~_.-");
}

#[test]
fn builds_authority_config() {
    assert_eq!(devcontainer_authority_config("/w", None), "/w");
    assert_eq!(
        devcontainer_authority_config("/w", Some("unix:///d")),
        "{\"hostPath\":\"/w\",\"settings\":{\"host\":\"unix:///d\"}}"
    );
}

#[test]
fn resolves_vm_paths_against_home() {
    assert!(vm_path_is_absolute("/srv"));
    assert!(!vm_path_is_absolute("~/work"));
    assert_eq!(absolute_vm_path("~", "/home/u"), "/home/u");
    assert_eq!(absolute_vm_path("~/work/p", "/home/u/"), "/home/u/work/p");
    assert_eq!(absolute_vm_path("/srv/p", "/home/u"), "/srv/p");
    assert_eq!(absolute_vm_path("work/p", "/home/u"), "/home/u/work/p");
}

#[test]
fn reads_remote_home_and_docker_host() {
    assert_eq!(remote_home_from_output(" /home/u\n").unwrap(), "/home/u");
    assert_eq!(remote_home_from_output(" \n"), Err(Failure::EmptyRemoteHome));
    assert_eq!(docker_host_from_output(true, "unix:///x\n").as_deref(), Some("unix:///x"));
    assert_eq!(docker_host_from_output(true, "  "), None);
    assert_eq!(docker_host_from_output(false, "unix:///x"), None);
}

fn code_args(repo: Option<&str>, path: Option<&str>) -> VmCodeOpenArgs {
    VmCodeOpenArgs {
        target: VmTargetArgs { client: Some("acme".to_owned()), vm: None },
        repo: RepoInputArgs {
            repo: repo.map(str::to_owned),
            repo_url: None,
            org: "cantina-forks".to_owned(),
        },
        path: path.map(str::to_owned),
        container: false,
        new_window: false,
        reuse_window: false,
    }
}

#[test]
fn chooses_code_folder() {
    assert_eq!(code_path_arg(&code_args(Some("protocol"), None)).unwrap(), "~/work/protocol");
    assert_eq!(code_path_arg(&code_args(None, Some("/srv"))).unwrap(), "/srv");
    assert_eq!(code_path_arg(&code_args(None, None)), Err(Failure::MissingCodePath));
    assert_eq!(code_path_arg(&code_args(Some("p"), Some("/srv"))), Err(Failure::PathWithRepo));
    assert_eq!(code_path_arg(&code_args(None, Some("  "))), Err(Failure::EmptyPath));
}

#[test]
fn builds_code_arguments() {
    assert_eq!(code_open_args("u", false, false), vec!["--new-window", "--folder-uri", "u"]);
    assert_eq!(code_open_args("u", false, true), vec!["--reuse-window", "--folder-uri", "u"]);
    assert_eq!(
        code_open_args("u", true, true),
        vec!["--new-window", "--reuse-window", "--folder-uri", "u"]
    );
}

#[test]
fn quotes_directory_checks() {
    assert_eq!(directory_check("/tmp/it's"), "test -d '/tmp/it'\\''s'");
}

#[test]
fn refuses_workspace_without_name() {
    assert_eq!(
        tdc::vscode::default_devcontainer_workspace_path("///"),
        Err(Failure::NoWorkspacePath)
    );
    assert_eq!(
        tdc::vscode::vscode_devcontainer_uri("h", "/", None),
        Err(Failure::NoWorkspacePath)
    );
}
