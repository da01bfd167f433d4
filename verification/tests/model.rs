use tdc::model::{is_valid_slug, lima_host, vm_default, BuildTarget, Profile, VmType};

#[test]
fn validates_slugs() {
    assert!(is_valid_slug("exampleco"));
    assert!(is_valid_slug("example.co_1-2"));
    assert!(!is_valid_slug(""));
    assert!(!is_valid_slug("owner/repo"));
    assert!(!is_valid_slug("repo name"));
}

#[test]
fn derives_vm_names() {
    assert_eq!(vm_default("acme"), "client-acme");
    assert_eq!(lima_host("client-acme"), "lima-client-acme");
}

#[test]
fn renders_vm_types() {
    assert_eq!(VmType::Qemu.as_str(), "qemu");
    assert_eq!(VmType::Vz.as_str(), "vz");
    assert_eq!(VmType::Krunkit.as_str(), "krunkit");
}

#[test]
fn renders_profiles_and_build_targets() {
    assert_eq!(Profile::Base.as_str(), "base");
    assert_eq!(Profile::SolidityFoundryNode.as_str(), "solidity-foundry-node");
    assert_eq!(BuildTarget::All.as_str(), "all");
    assert_eq!(BuildTarget::SolidityFoundry.as_str(), "solidity-foundry");
}

#[test]
fn slugs_refuse_non_ascii() {
    assert!(!is_valid_slug("café"));
    assert!(is_valid_slug("-._"));
}

#[test]
fn default_vm_of_valid_client_is_valid() {
    assert!(is_valid_slug(&vm_default("example.co_1-2")));
}
