//! Trusted image references and what to do when an image is missing.
use vstd::prelude::*;

use crate::error::{ErrorView, Failure, TdcError};
use crate::model::{default_vm_name, vm_default, Profile};
use crate::text::{concat, join_strings, join_with, str_eq, views};

verus! {

/// `namespace/image:version`.
pub open spec fn image_ref_spec(namespace: Seq<char>, image: Seq<char>, version: Seq<char>) -> Seq<
    char,
> {
    namespace + "/"@ + image + ":"@ + version
}

pub fn image_ref(namespace: &str, image: &str, version: &str) -> (r: String)
    ensures
        r@ == image_ref_spec(namespace@, image@, version@),
{
    let mut r = namespace.to_owned();
    r.append("/");
    r.append(image);
    r.append(":");
    r.append(version);
    r
}

/// The image of a profile in the `trusted` namespace.
pub fn trusted_image_ref(image: &str, version: &str) -> (r: String)
    ensures
        r@ == image_ref_spec("trusted"@, image@, version@),
{
    image_ref("trusted", image, version)
}

/// The images a build target produces: all four profile images for `all`, in
/// profile order, otherwise the one image named like the target.
pub open spec fn build_target_refs(profile: Seq<char>, namespace: Seq<char>, version: Seq<char>) -> Seq<
    Seq<char>,
> {
    if profile == "all"@ {
        seq![
            image_ref_spec(namespace, "base"@, version),
            image_ref_spec(namespace, "node"@, version),
            image_ref_spec(namespace, "solidity-foundry"@, version),
            image_ref_spec(namespace, "solidity-foundry-node"@, version),
        ]
    } else {
        seq![image_ref_spec(namespace, profile, version)]
    }
}

pub fn image_refs_for_build_target(profile: &str, namespace: &str, version: &str) -> (r: Vec<
    String,
>)
    ensures
        views(r@) == build_target_refs(profile@, namespace@, version@),
{
    let mut r: Vec<String> = Vec::new();
    if str_eq(profile, "all") {
        r.push(image_ref(namespace, "base", version));
        r.push(image_ref(namespace, "node", version));
        r.push(image_ref(namespace, "solidity-foundry", version));
        r.push(image_ref(namespace, "solidity-foundry-node", version));
    } else {
        r.push(image_ref(namespace, profile, version));
    }
    assert(views(r@) =~= build_target_refs(profile@, namespace@, version@));
    r
}

/// How a later command selects this VM: by client when it has the client's
/// default name, otherwise by VM name.
pub open spec fn target_selector_spec(client: Seq<char>, vm: Seq<char>) -> Seq<char> {
    if vm == default_vm_name(client) {
        "--client "@ + client
    } else {
        "--vm "@ + vm
    }
}

pub fn build_target_selector(client: &str, vm: &str) -> (r: String)
    ensures
        r@ == target_selector_spec(client@, vm@),
{
    let default_vm = vm_default(client);
    if str_eq(vm, default_vm.as_str()) {
        concat("--client ", client)
    } else {
        concat("--vm ", vm)
    }
}

/// The image version: the one given, unless it is empty, else the packaged one.
pub open spec fn image_version_spec(
    version: Option<Seq<char>>,
    files: Map<Seq<char>, Seq<u8>>,
) -> Result<Seq<char>, ErrorView> {
    match version {
        Some(v) if v.len() > 0 => Ok(v),
        _ => match crate::payload::packaged_version_spec(files) {
            Some(p) => Ok(p),
            None => Err(Failure::MissingVersionFile),
        },
    }
}

pub fn version_or_packaged(version: Option<&str>, payload: &include_dir::Dir<'static>) -> (r:
    Result<String, TdcError>)
    ensures
        match image_version_spec(
            crate::github::opt_view(version),
            crate::payload::dir_files(*payload),
        ) {
            Ok(v) => r matches Ok(s) && s@ == v,
            Err(e) => r matches Err(x) && x@ == e,
        },
{
    match version {
        Some(v) if !v.is_empty() => Ok(v.to_owned()),
        _ => crate::payload::packaged_version(payload),
    }
}

/// The refusal for a profile image that is missing in the VM.
pub open spec fn missing_profile_image_spec(
    image_ref: Seq<char>,
    profile: Profile,
    client: Seq<char>,
    vm: Seq<char>,
) -> ErrorView {
    Failure::MissingProfileImage(image_ref, profile.name(), target_selector_spec(client, vm))
}

pub fn missing_profile_image(image_ref: &str, profile: Profile, client: &str, vm: &str) -> (r:
    TdcError)
    ensures
        r@ == missing_profile_image_spec(image_ref@, profile, client@, vm@),
{
    Failure::MissingProfileImage(
        image_ref.to_owned(),
        profile.as_str().to_owned(),
        build_target_selector(client, vm),
    )
}

/// The refusal after a build when expected images are missing, if any are.
pub open spec fn missing_built_images_spec(missing: Seq<Seq<char>>) -> Option<ErrorView> {
    if missing.len() == 0 {
        None
    } else {
        Some(Failure::MissingBuiltImages(join_with(missing, "\n  "@)))
    }
}

pub fn missing_built_images(missing: &Vec<String>) -> (r: Option<TdcError>)
    ensures
        match missing_built_images_spec(views(missing@)) {
            None => r is None,
            Some(e) => r matches Some(x) && x@ == e,
        },
{
    if missing.len() == 0 {
        None
    } else {
        Some(Failure::MissingBuiltImages(join_strings(missing, "\n  ")))
    }
}

/// The arguments of the trusted image status script: the version, then every
/// trusted image reference of that version.
pub open spec fn image_status_args_spec(version: Seq<char>) -> Seq<Seq<char>> {
    seq![version] + build_target_refs("all"@, "trusted"@, version)
}

pub fn trusted_image_status_args(version: &str) -> (r: Vec<String>)
    ensures
        views(r@) == image_status_args_spec(version@),
{
    let mut r: Vec<String> = Vec::new();
    r.push(version.to_owned());
    let refs = image_refs_for_build_target("all", "trusted", version);
    let mut i: usize = 0;
    while i < refs.len()
        invariant
            0 <= i <= refs.len(),
            views(refs@) == build_target_refs("all"@, "trusted"@, version@),
            views(r@) == seq![version@] + views(refs@).take(i as int),
        decreases refs.len() - i,
    {
        let ghost before = r@;
        let item = refs[i].clone();
        r.push(item);
        assert(views(r@) =~= views(before).push(item@));
        assert(views(refs@).take(i + 1) =~= views(refs@).take(i as int).push(refs@[i as int]@));
        i = i + 1;
    }
    assert(views(refs@).take(refs.len() as int) =~= views(refs@));
    r
}


/// The selector printed for rebuilding an image names the same VM when given
/// back to a command: `--client C` selects C's default VM, `--vm V` selects V.
pub proof fn lemma_selector_selects_vm(client: Seq<char>, vm: Seq<char>, usage: Seq<char>)
    requires
        crate::model::is_slug(client),
        crate::model::is_slug(vm),
    ensures
        vm == default_vm_name(client) ==> target_selector_spec(client, vm) == "--client "@ + client
            && crate::workflow::target_vm_spec(Some(client), None, usage) == Ok::<
            Seq<char>,
            ErrorView,
        >(vm),
        vm != default_vm_name(client) ==> target_selector_spec(client, vm) == "--vm "@ + vm
            && crate::workflow::target_vm_spec(None, Some(vm), usage) == Ok::<
            Seq<char>,
            ErrorView,
        >(vm),
{
}

/// The check that an image exists in the VM: it succeeds exactly when it does.
pub open spec fn image_inspect_command_spec(host: Seq<char>, image_ref: Seq<char>) -> Seq<Seq<char>> {
    seq!["ssh"@, host, "docker"@, "image"@, "inspect"@, image_ref, "--format"@, "{{.Id}}"@]
}

pub fn image_inspect_command(host: &str, image_ref: &str) -> (r: Vec<String>)
    ensures
        views(r@) == image_inspect_command_spec(host@, image_ref@),
{
    let r = vec![
        "ssh".to_owned(),
        host.to_owned(),
        "docker".to_owned(),
        "image".to_owned(),
        "inspect".to_owned(),
        image_ref.to_owned(),
        "--format".to_owned(),
        "{{.Id}}".to_owned(),
    ];
    assert(views(r@) =~= image_inspect_command_spec(host@, image_ref@));
    r
}

} // verus!
