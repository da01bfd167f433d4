use tdc::cli::VmTargetArgs;
use tdc::completion::{
    complete, completion_clients, completion_lines, completion_target_vm, patch_zsh_completion,
    text_less,
    snapshot_tags_from_listing, vm_names_from_listing, CompletionRequest,
    ZSH_DYNAMIC_COMPLETIONS,
};
use tdc::model::vm_default;

fn words(items: &[&str]) -> Vec<String> {
    items.iter().map(|s| (*s).to_owned()).collect()
}

#[test]
fn reads_completion_requests() {
    assert!(matches!(complete(&words(&["clients"])), CompletionRequest::Clients));
    assert!(matches!(complete(&words(&["vms"])), CompletionRequest::Vms));
    assert!(matches!(complete(&words(&[])), CompletionRequest::Nothing));
    assert!(matches!(complete(&words(&["other"])), CompletionRequest::Nothing));
    match complete(&words(&["snapshot-tags", "--vm", "a", "--client=b"])) {
        CompletionRequest::SnapshotTags(t) => {
            assert_eq!(t.vm.as_deref(), Some("a"));
            assert_eq!(t.client.as_deref(), Some("b"));
        }
        other => panic!("unexpected {other:?}"),
    }
}

#[test]
fn trailing_flag_clears_its_value() {
    match complete(&words(&["snapshot-tags", "--client=a", "--client"])) {
        CompletionRequest::SnapshotTags(t) => assert_eq!(t.client, None),
        other => panic!("unexpected {other:?}"),
    }
}

#[test]
fn selects_completion_vm() {
    let target = |client: Option<&str>, vm: Option<&str>| VmTargetArgs {
        client: client.map(str::to_owned),
        vm: vm.map(str::to_owned),
    };
    assert_eq!(completion_target_vm(&target(Some("acme"), None)).as_deref(), Some("client-acme"));
    assert_eq!(completion_target_vm(&target(None, Some("v1"))).as_deref(), Some("v1"));
    assert_eq!(completion_target_vm(&target(Some("a"), Some("b"))), None);
    assert_eq!(completion_target_vm(&target(None, None)), None);
    assert_eq!(completion_target_vm(&target(Some("a b"), None)), None);
}

#[test]
fn offers_clients_of_client_vms() {
    assert_eq!(
        completion_clients(&words(&["client-a", "audit-b", "client-", "client-c"])),
        vec!["a", "c"]
    );
    assert_eq!(completion_clients(&[vm_default("acme")]), vec!["acme"]);
}

#[test]
fn reads_listings() {
    assert_eq!(
        vm_names_from_listing(" client-a \nnot a slug\n\nclient-b\r\n"),
        vec!["client-a", "client-b"]
    );
    assert_eq!(snapshot_tags_from_listing("pre\n  \n post \n"), vec!["pre", "post"]);
}

#[test]
fn patches_zsh_script() {
    let script = patch_zsh_completion("a:CLIENT:_default b:VM:_default c:TAG:_default");
    assert!(script.starts_with(
        "a:CLIENT:_tdc_complete_clients b:VM:_tdc_complete_vms c:TAG:_tdc_complete_snapshot_tags"
    ));
    assert!(script.ends_with(ZSH_DYNAMIC_COMPLETIONS));
    assert!(script.contains("tdc __complete clients"));
    assert!(!script.contains(":CLIENT:_default"));
}

#[test]
fn patched_script_keeps_no_default_completer() {
    let generated = "'--client=[x]:CLIENT:_default' ':VM:_default:VM:_default' \
                     ':TAG::CLIENT:_default_default' ':VM::VM:_default_default' '*:FILE:_default'";
    let script = patch_zsh_completion(generated);
    let patched = &script[..script.len() - ZSH_DYNAMIC_COMPLETIONS.len()];
    assert!(!patched.contains(":CLIENT:_default"));
    assert!(!patched.contains(":VM:_default"));
    assert!(!patched.contains(":TAG:_default"));
    assert!(patched.contains(":FILE:_default"));
    assert!(!ZSH_DYNAMIC_COMPLETIONS.contains(":CLIENT:_default"));
    assert!(!ZSH_DYNAMIC_COMPLETIONS.contains(":VM:_default"));
    assert!(!ZSH_DYNAMIC_COMPLETIONS.contains(":TAG:_default"));
}

#[test]
fn prints_candidates_sorted_once() {
    let values = words(&["client-b", "client-a", "client-b", "Client-z", "client-ab", "é", "client-a"]);
    let mut expected = values.clone();
    expected.sort();
    expected.dedup();
    assert_eq!(completion_lines(&values), expected);
    assert_eq!(
        completion_lines(&values),
        words(&["Client-z", "client-a", "client-ab", "client-b", "é"])
    );
    assert!(completion_lines(&[]).is_empty());
}

#[test]
fn orders_text_like_str() {
    for (a, b) in [("a", "b"), ("a", "ab"), ("", "a"), ("ab", "b"), ("z", "é"), ("b", "a"), ("a", "a")] {
        assert_eq!(text_less(a, b), a < b, "{a:?} < {b:?}");
    }
}
