//! The text tdc prints for the user: next steps after `vm new`, warnings, the
//! doctor report, and the manpage install hints.
use vstd::prelude::*;

use crate::images::{build_target_selector, target_selector_spec};
use crate::model::Profile;
use crate::text::{concat, views};

verus! {

fn cat(parts: &[&str]) -> (r: String)
    ensures
        r@ == cat_spec(parts@),
{
    let mut r = String::new();
    let mut i: usize = 0;
    while i < parts.len()
        invariant
            0 <= i <= parts.len(),
            r@ == cat_spec(parts@.take(i as int)),
        decreases parts.len() - i,
    {
        assert(parts@.take(i + 1).drop_last() =~= parts@.take(i as int));
        r.append(parts[i]);
        i = i + 1;
    }
    assert(parts@.take(parts.len() as int) =~= parts@);
    r
}

/// The texts of `parts` one after another.
pub open spec fn cat_spec(parts: Seq<&str>) -> Seq<char>
    decreases parts.len(),
{
    if parts.len() == 0 {
        seq![]
    } else {
        cat_spec(parts.drop_last()) + parts.last()@
    }
}

/// The lines printed after `vm new`: where things are, then what to run next,
/// starting with building the image when the build was skipped.
pub open spec fn next_steps_spec(
    client: Seq<char>,
    repo: Seq<char>,
    clone_url: Seq<char>,
    vm: Seq<char>,
    host: Seq<char>,
    profile: Profile,
    skip_build: bool,
) -> Seq<Seq<char>> {
    let ssh = "Open VS Code over SSH: tdc vm code --client "@ + client + " --repo "@ + repo;
    let container = "Open VS Code in the devcontainer: tdc vm code --container --client "@ + client
        + " --repo "@ + repo;
    seq![
        ""@,
        "VM ready: "@ + vm,
        "SSH host: "@ + host,
        "Repo path: ~/work/"@ + repo,
        "Clone URL: "@ + clone_url,
        "Profile: "@ + profile.name(),
        ""@,
        "Next:"@,
    ] + if skip_build {
        seq![
            "  1. Build the profile image: tdc images build "@ + profile.name() + " "@
                + target_selector_spec(client, vm),
            "  2. "@ + ssh,
            "  3. "@ + container,
        ]
    } else {
        seq!["  1. "@ + ssh, "  2. "@ + container]
    }
}

pub fn next_steps_lines(
    client: &str,
    repo: &str,
    clone_url: &str,
    vm: &str,
    host: &str,
    profile: Profile,
    skip_build: bool,
) -> (r: Vec<String>)
    ensures
        views(r@) == next_steps_spec(client@, repo@, clone_url@, vm@, host@, profile, skip_build),
{
    let mut r: Vec<String> = Vec::new();
    r.push("".to_owned());
    r.push(concat("VM ready: ", vm));
    r.push(concat("SSH host: ", host));
    r.push(concat("Repo path: ~/work/", repo));
    r.push(concat("Clone URL: ", clone_url));
    r.push(concat("Profile: ", profile.as_str()));
    r.push("".to_owned());
    r.push("Next:".to_owned());
    let ssh = cat(&["Open VS Code over SSH: tdc vm code --client ", client, " --repo ", repo]);
    let container = cat(
        &[
            "Open VS Code in the devcontainer: tdc vm code --container --client ",
            client,
            " --repo ",
            repo,
        ],
    );
    proof {
        reveal_with_fuel(cat_spec, 5);
    }
    if skip_build {
        let selector = build_target_selector(client, vm);
        r.push(
            cat(
                &[
                    "  1. Build the profile image: tdc images build ",
                    profile.as_str(),
                    " ",
                    selector.as_str(),
                ],
            ),
        );
        r.push(concat("  2. ", ssh.as_str()));
        r.push(concat("  3. ", container.as_str()));
    } else {
        r.push(concat("  1. ", ssh.as_str()));
        r.push(concat("  2. ", container.as_str()));
    }
    assert(views(r@) =~= next_steps_spec(
        client@,
        repo@,
        clone_url@,
        vm@,
        host@,
        profile,
        skip_build,
    ));
    r
}

/// The warnings printed when `vm new --skip-build` applies a devcontainer.
pub open spec fn skip_build_warning_spec(client: Seq<char>, vm: Seq<char>, profile: Profile) -> Seq<
    Seq<char>,
> {
    seq![
        "warning: --skip-build leaves the devcontainer config pointing at a local image that may not exist"@,
        "warning: build it before opening VS Code: tdc images build "@ + profile.name() + " "@
            + target_selector_spec(client, vm),
    ]
}

pub fn skip_build_warning_lines(client: &str, vm: &str, profile: Profile) -> (r: Vec<String>)
    ensures
        views(r@) == skip_build_warning_spec(client@, vm@, profile),
{
    let selector = build_target_selector(client, vm);
    proof {
        reveal_with_fuel(cat_spec, 5);
    }
    let r = vec![
        "warning: --skip-build leaves the devcontainer config pointing at a local image that may not exist".to_owned(),
        cat(
            &[
                "warning: build it before opening VS Code: tdc images build ",
                profile.as_str(),
                " ",
                selector.as_str(),
            ],
        ),
    ];
    assert(views(r@) =~= skip_build_warning_spec(client@, vm@, profile));
    r
}

/// One line of `tdc doctor`: whether a command is on `PATH`.
pub open spec fn doctor_line_spec(command: Seq<char>, found: bool) -> Seq<char> {
    if found {
        "ok: "@ + command
    } else {
        "missing: "@ + command
    }
}

pub fn doctor_line(command: &str, found: bool) -> (r: String)
    ensures
        r@ == doctor_line_spec(command@, found),
{
    if found {
        concat("ok: ", command)
    } else {
        concat("missing: ", command)
    }
}

/// The lines printed after installing the manpage: where it went, and either
/// how to read it or how to put its directory on `MANPATH`.
pub open spec fn manpage_installed_spec(target: Seq<char>, manpath_dir: Seq<char>, on_manpath: bool) -> Seq<
    Seq<char>,
> {
    seq!["Installed manpage: "@ + target] + if on_manpath {
        seq!["Try: man tdc"@]
    } else {
        seq![
            ""@,
            "Add this to your shell config so `man tdc` can find it:"@,
            "  export MANPATH=\""@ + manpath_dir + ":$MANPATH\""@,
            ""@,
            "Then restart zsh:"@,
            "  exec zsh -l"@,
        ]
    }
}

pub fn manpage_installed_lines(target: &str, manpath_dir: &str, on_manpath: bool) -> (r: Vec<
    String,
>)
    ensures
        views(r@) == manpage_installed_spec(target@, manpath_dir@, on_manpath),
{
    let mut r: Vec<String> = Vec::new();
    r.push(concat("Installed manpage: ", target));
    if on_manpath {
        r.push("Try: man tdc".to_owned());
    } else {
        proof {
            reveal_with_fuel(cat_spec, 4);
        }
        r.push("".to_owned());
        r.push("Add this to your shell config so `man tdc` can find it:".to_owned());
        r.push(cat(&["  export MANPATH=\"", manpath_dir, ":$MANPATH\""]));
        r.push("".to_owned());
        r.push("Then restart zsh:".to_owned());
        r.push("  exec zsh -l".to_owned());
    }
    assert(views(r@) =~= manpage_installed_spec(target@, manpath_dir@, on_manpath));
    r
}

} // verus!
