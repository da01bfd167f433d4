use tdc::completion::{client_from_vm_name, parse_completion_target};
use tdc::images::{build_target_selector, image_refs_for_build_target};
use tdc::vscode::{
    default_devcontainer_workspace_path, join_remote_path, shell_quote, vscode_devcontainer_uri,
    vscode_remote_ssh_uri,
};

#[test]
fn strips_client_prefix_for_client_completion() {
    assert_eq!(client_from_vm_name("client-polymarket").as_deref(), Some("polymarket"));
    assert_eq!(
        client_from_vm_name("client-client-polymarket").as_deref(),
        Some("client-polymarket")
    );
    assert_eq!(client_from_vm_name("polymarket"), None);
}

#[test]
fn parses_completion_target_flags() {
    let target = parse_completion_target(&[
        "--client".to_owned(),
        "polymarket".to_owned(),
        "--ignored".to_owned(),
    ]);
    assert_eq!(target.client.as_deref(), Some("polymarket"));
    assert_eq!(target.vm.as_deref(), None);

    let target = parse_completion_target(&["--vm=client-polymarket".to_owned()]);
    assert_eq!(target.client.as_deref(), None);
    assert_eq!(target.vm.as_deref(), Some("client-polymarket"));
}

#[test]
fn renders_image_refs_for_single_and_all_build_targets() {
    assert_eq!(
        image_refs_for_build_target("node", "trusted", "0.1.1"),
        vec!["trusted/node:0.1.1"]
    );

    assert_eq!(
        image_refs_for_build_target("all", "trusted", "0.1.1"),
        vec![
            "trusted/base:0.1.1",
            "trusted/node:0.1.1",
            "trusted/solidity-foundry:0.1.1",
            "trusted/solidity-foundry-node:0.1.1",
        ]
    );
}

#[test]
fn selects_build_target_flag_for_default_and_custom_vm_names() {
    assert_eq!(
        build_target_selector("polymarket", "client-polymarket"),
        "--client polymarket"
    );
    assert_eq!(
        build_target_selector("polymarket", "audit-polymarket"),
        "--vm audit-polymarket"
    );
}

#[test]
fn renders_vscode_remote_ssh_uri() {
    assert_eq!(
        vscode_remote_ssh_uri("lima-client-polymarket", "/home/a user/work/deposit-wallet"),
        "vscode-remote://ssh-remote+lima-client-polymarket/home/a%20user/work/deposit-wallet"
    );
}

#[test]
fn renders_vscode_devcontainer_uri() {
    assert_eq!(
        vscode_devcontainer_uri(
            "lima-client-polymarket",
            "/home/giodisiena.guest/work/deposit-wallet",
            None
        )
        .unwrap(),
        "vscode-remote://dev-container+2f686f6d652f67696f64697369656e612e67756573742f776f726b2f6465706f7369742d77616c6c6574@ssh-remote+lima-client-polymarket/workspaces/deposit-wallet"
    );
}

#[test]
fn renders_vscode_devcontainer_uri_with_docker_host() {
    assert_eq!(
        vscode_devcontainer_uri(
            "lima-client-polymarket",
            "/home/giodisiena.guest/work/deposit-wallet",
            Some("unix:///run/user/501/docker.sock")
        )
        .unwrap(),
        "vscode-remote://dev-container+7b22686f737450617468223a222f686f6d652f67696f64697369656e612e67756573742f776f726b2f6465706f7369742d77616c6c6574222c2273657474696e6773223a7b22686f7374223a22756e69783a2f2f2f72756e2f757365722f3530312f646f636b65722e736f636b227d7d@ssh-remote+lima-client-polymarket/workspaces/deposit-wallet"
    );
}

#[test]
fn derives_default_devcontainer_workspace_path() {
    assert_eq!(
        default_devcontainer_workspace_path("/home/auditor/work/protocol/").unwrap(),
        "/workspaces/protocol"
    );
}

#[test]
fn joins_remote_paths_without_duplicate_slashes() {
    assert_eq!(
        join_remote_path("/home/auditor/", "/work/deposit-wallet"),
        "/home/auditor/work/deposit-wallet"
    );
}

#[test]
fn shell_quotes_remote_paths() {
    assert_eq!(shell_quote("/tmp/it's ok"), "'/tmp/it'\\''s ok'");
}
