# tdc

`tdc` provisions per-client Lima VMs and applies reviewed devcontainer profiles
to client repositories cloned inside them.

The crate is a Verus project. `src/` holds the decisions `tdc` takes (which
steps run and in what order, which error is reported, what is printed), each
function with a contract that Verus proves; `app/` is the program around it,
which reads the command line and the host, carries out what the library
decides, hands the outcomes back, and prints. What `app/` still computes is
what needs the `clap` command derived there (completion scripts, the manpage)
and file-system questions (canonical paths, executable bits).

## Layout

- `src/workflow.rs`: each subcommand as a plan, the outside steps in the order
  they run, and the laws of `vm new`, `devcontainer use` and `images build`.
- `src/github.rs`: repository shorthands and GitHub URLs.
- `src/model.rs`: VM types, profiles, build targets, slugs and default names.
- `src/lima.rs`: reading Lima's listings and the `limactl` command lines.
- `src/vscode.rs`: VM paths, shell quoting and the VS Code URIs.
- `src/decoding.rs`: how a shell, VS Code and a JSON parser read back what the
  library encodes.
- `src/completion.rs`: dynamic shell completion and the zsh script patch.
- `src/images.rs`, `src/report.rs`, `src/manpage.rs`, `src/payload.rs`,
  `src/process.rs`, `src/scripts.rs`: images, printed reports, the manpage,
  the embedded payload, host commands and the scripts run in the VM.
- `src/text.rs`: the text operations the rest is built from.
- `app/`: `main`, the plan executor, file and process I/O, and the `clap` types.
- `tests/`: tests of the library on concrete values.

The embedded payload (`assets/payload`, Dockerfiles, devcontainer templates and
VM helper scripts) is compiled into the program by `app/`.
