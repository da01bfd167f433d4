//! The bash scripts that tdc runs inside a VM over `ssh <host> bash -s -- ARGS`.
use vstd::prelude::*;

verus! {

/// A script run in the VM; its arguments are passed as `$1`, `$2`, ...
#[derive(Clone, Copy, Debug, PartialEq, Eq, Structural)]
pub enum RemoteScript {
    /// Creates the payload directory `~/trusted-devcontainers`.
    PreparePayloadDir,
    /// Makes the synced payload's helper scripts executable.
    MarkPayloadExecutable,
    /// Puts `~/.local/bin` on the VM user's `PATH` in `.profile` and `.bashrc`.
    UserLocalBinPath,
    /// Seeds GitHub host keys, creates the client's key and its SSH config
    /// block (`client`, `key_name`, `comment`).
    SetupGithubKey,
    /// Removes the client's key and SSH config block (`client`, `key_name`).
    RemoveGithubKey,
    /// Clones a repository into `~/work` (`repo`, `clone_url`).
    CloneRepo,
    /// Lists the checkouts under `~/work`.
    ListRepos,
    /// Builds trusted images (`profile`, `namespace`, `version` or empty).
    BuildImages,
    /// Applies a devcontainer profile to a checkout (`repo`, `profile`).
    ApplyDevcontainer,
    /// Deletes a checkout, refusing dirty or unpushed ones unless forced
    /// (`repo`, `1` to force or `0`).
    DeleteRepo,
    /// Reports which trusted images exist (`version`, then image references).
    TrustedImageStatus,
}

pub const PREPARE_PAYLOAD_DIR: &'static str = r#"set -euo pipefail
mkdir -p "$HOME/trusted-devcontainers"
"#;

pub const MARK_PAYLOAD_EXECUTABLE: &'static str = r#"set -euo pipefail
chmod +x "$HOME/trusted-devcontainers/bin/"*
chmod +x "$HOME/trusted-devcontainers/images/scripts/"*.sh
"#;

pub const USER_LOCAL_BIN_PATH: &'static str = r##"set -euo pipefail

mkdir -p "$HOME/.local/bin"

for shell_file in "$HOME/.profile" "$HOME/.bashrc"; do
  touch "${shell_file}"
  if grep -qxF "# trusted-devcontainers:user-path:start" "${shell_file}"; then
    continue
  fi

  cat >> "${shell_file}" <<'EOF'

# trusted-devcontainers:user-path:start
if [ -d "$HOME/.local/bin" ]; then
  case ":$PATH:" in
    *:"$HOME/.local/bin":*) ;;
    *) export PATH="$HOME/.local/bin:$PATH" ;;
  esac
fi
# trusted-devcontainers:user-path:end
EOF
done
"##;

pub const SETUP_GITHUB_KEY: &'static str = r##"set -euo pipefail

client="$1"
key_name="$2"
comment="$3"
key_path="$HOME/.ssh/${key_name}"
marker_start="# trusted-devcontainers:${client}:github:start"
marker_end="# trusted-devcontainers:${client}:github:end"

mkdir -p "$HOME/.ssh"
chmod 700 "$HOME/.ssh"
touch "$HOME/.ssh/known_hosts"
chmod 600 "$HOME/.ssh/known_hosts"

cat "$HOME/trusted-devcontainers/ssh/github_known_hosts" | while IFS= read -r known_host; do
  grep -qxF "${known_host}" "$HOME/.ssh/known_hosts" || printf '%s\n' "${known_host}" >> "$HOME/.ssh/known_hosts"
done

if [[ ! -f "${key_path}" ]]; then
  ssh-keygen -t ed25519 -N "" -f "${key_path}" -C "${comment}"
fi

touch "$HOME/.ssh/config"
chmod 600 "$HOME/.ssh/config"

if ! grep -qxF "${marker_start}" "$HOME/.ssh/config"; then
  cat >> "$HOME/.ssh/config" <<EOF

${marker_start}
Host github.com
  HostName github.com
  User git
  IdentityFile ~/.ssh/${key_name}
  IdentitiesOnly yes
${marker_end}
EOF
fi

chmod 600 "$HOME/.ssh/config" "${key_path}"
chmod 644 "${key_path}.pub"
"##;

pub const REMOVE_GITHUB_KEY: &'static str = r##"set -euo pipefail

client="$1"
key_name="$2"
key_path="$HOME/.ssh/${key_name}"
config="$HOME/.ssh/config"
marker_start="# trusted-devcontainers:${client}:github:start"
marker_end="# trusted-devcontainers:${client}:github:end"

rm -f "${key_path}" "${key_path}.pub"

if [[ -f "${config}" ]]; then
  tmp="$(mktemp)"
  awk -v start="${marker_start}" -v end="${marker_end}" '
    $0 == start { skip = 1; next }
    $0 == end { skip = 0; next }
    !skip { print }
  ' "${config}" > "${tmp}"
  cat "${tmp}" > "${config}"
  rm -f "${tmp}"
  chmod 600 "${config}"
fi

echo "Removed VM-local GitHub key: ~/.ssh/${key_name}"
"##;

pub const CLONE_REPO: &'static str = r#"set -euo pipefail

repo="$1"
clone_url="$2"
repo_dir="$HOME/work/${repo}"

mkdir -p "$(dirname "${repo_dir}")"

if [[ -d "${repo_dir}/.git" ]]; then
  echo "Repo already cloned: ${repo_dir}"
else
  git clone "${clone_url}" "${repo_dir}"
fi

# Hardened devcontainers can see Lima bind mounts as root-owned even when the VM
# user owns them. Keep the checkout writable by the remoteUser for dependency
# installs, build outputs, and Git metadata updates.
chmod -R o+rwX "${repo_dir}"

git -C "${repo_dir}" status --short
"#;

pub const LIST_REPOS: &'static str = r#"set -euo pipefail

work_dir="$HOME/work"

if [[ ! -d "${work_dir}" ]]; then
  echo "No repo checkouts found in ~/work"
  exit 0
fi

shopt -s nullglob
repos=()
for repo_dir in "${work_dir}"/*; do
  if [[ -d "${repo_dir}/.git" || -f "${repo_dir}/.git" ]]; then
    repos+=("${repo_dir}")
  fi
done

if [[ "${#repos[@]}" -eq 0 ]]; then
  echo "No repo checkouts found in ~/work"
  exit 0
fi

printf "%-32s %-24s %-48s %s\n" "NAME" "BRANCH" "REMOTE" "PATH"
for repo_dir in "${repos[@]}"; do
  name="$(basename "${repo_dir}")"
  branch="$(git -C "${repo_dir}" symbolic-ref --quiet --short HEAD 2>/dev/null || git -C "${repo_dir}" rev-parse --short HEAD 2>/dev/null || printf "%s" "-")"
  remote="$(git -C "${repo_dir}" remote get-url origin 2>/dev/null || printf "%s" "-")"
  path="~/work/${name}"
  printf "%-32s %-24s %-48s %s\n" "${name}" "${branch}" "${remote}" "${path}"
done
"#;

pub const BUILD_IMAGES: &'static str = r#"set -euo pipefail

profile="$1"
namespace="$2"
version="${3:-}"

cd "$HOME/trusted-devcontainers"

args=(bin/build-images "${profile}" --namespace "${namespace}")
if [[ -n "${version}" ]]; then
  args+=(--version "${version}")
fi

"${args[@]}"
"#;

pub const APPLY_DEVCONTAINER: &'static str = r#"set -euo pipefail

repo="$1"
profile="$2"
repo_dir="$HOME/work/${repo}"

cd "${repo_dir}"
"$HOME/trusted-devcontainers/bin/devcontainer-use" "${profile}" .
"#;

pub const DELETE_REPO: &'static str = r#"set -euo pipefail

repo="$1"
force="$2"
repo_dir="$HOME/work/${repo}"

if [[ ! -e "${repo_dir}" ]]; then
  echo "Repo checkout not found: ${repo_dir}"
  exit 0
fi

if [[ -d "${repo_dir}/.git" && "${force}" != "1" ]]; then
  status="$(git -C "${repo_dir}" status --porcelain)"
  if [[ -n "${status}" ]]; then
    echo "Refusing to delete dirty checkout: ${repo_dir}" >&2
    echo "Review or commit changes first, or rerun with --force." >&2
    git -C "${repo_dir}" status --short >&2
    exit 1
  fi

  if upstream="$(git -C "${repo_dir}" rev-parse --abbrev-ref --symbolic-full-name '@{upstream}' 2>/dev/null)"; then
    counts="$(git -C "${repo_dir}" rev-list --left-right --count "${upstream}...HEAD")"
    ahead="${counts##* }"
    if [[ "${ahead}" != "0" ]]; then
      echo "Refusing to delete checkout with unpushed commits: ${repo_dir}" >&2
      echo "Push or export commits first, or rerun with --force." >&2
      exit 1
    fi
  else
    echo "Refusing to delete checkout without an upstream branch: ${repo_dir}" >&2
    echo "Verify commits are no longer needed, then rerun with --force." >&2
    exit 1
  fi
fi

rm -rf "${repo_dir}"
rmdir "$HOME/work" 2>/dev/null || true
echo "Deleted repo checkout: ${repo_dir}"
"#;

pub const TRUSTED_IMAGE_STATUS: &'static str = r#"set -euo pipefail

version="$1"
shift

echo "Trusted images (${version}):"
for image_ref in "$@"; do
  if docker image inspect "${image_ref}" >/dev/null 2>&1; then
    echo "  ok: ${image_ref}"
  else
    echo "  missing: ${image_ref}"
  fi
done
"#;

impl RemoteScript {
    /// The script's bash source.
    pub open spec fn source(self) -> Seq<char> {
        match self {
            RemoteScript::PreparePayloadDir => PREPARE_PAYLOAD_DIR@,
            RemoteScript::MarkPayloadExecutable => MARK_PAYLOAD_EXECUTABLE@,
            RemoteScript::UserLocalBinPath => USER_LOCAL_BIN_PATH@,
            RemoteScript::SetupGithubKey => SETUP_GITHUB_KEY@,
            RemoteScript::RemoveGithubKey => REMOVE_GITHUB_KEY@,
            RemoteScript::CloneRepo => CLONE_REPO@,
            RemoteScript::ListRepos => LIST_REPOS@,
            RemoteScript::BuildImages => BUILD_IMAGES@,
            RemoteScript::ApplyDevcontainer => APPLY_DEVCONTAINER@,
            RemoteScript::DeleteRepo => DELETE_REPO@,
            RemoteScript::TrustedImageStatus => TRUSTED_IMAGE_STATUS@,
        }
    }

    pub fn text(&self) -> (r: &'static str)
        ensures
            r@ == self.source(),
    {
        match self {
            RemoteScript::PreparePayloadDir => PREPARE_PAYLOAD_DIR,
            RemoteScript::MarkPayloadExecutable => MARK_PAYLOAD_EXECUTABLE,
            RemoteScript::UserLocalBinPath => USER_LOCAL_BIN_PATH,
            RemoteScript::SetupGithubKey => SETUP_GITHUB_KEY,
            RemoteScript::RemoveGithubKey => REMOVE_GITHUB_KEY,
            RemoteScript::CloneRepo => CLONE_REPO,
            RemoteScript::ListRepos => LIST_REPOS,
            RemoteScript::BuildImages => BUILD_IMAGES,
            RemoteScript::ApplyDevcontainer => APPLY_DEVCONTAINER,
            RemoteScript::DeleteRepo => DELETE_REPO,
            RemoteScript::TrustedImageStatus => TRUSTED_IMAGE_STATUS,
        }
    }
}

/// The command line of `ssh <host> bash -s -- ARGS`, which runs a script fed
/// on standard input.
pub open spec fn ssh_script_command_spec(host: Seq<char>, args: Seq<Seq<char>>) -> Seq<Seq<char>> {
    seq!["ssh"@, host, "bash"@, "-s"@, "--"@] + args
}

pub fn ssh_script_command(host: &str, args: &[String]) -> (r: Vec<String>)
    ensures
        crate::text::views(r@) == ssh_script_command_spec(host@, crate::text::views(args@)),
{
    let mut r: Vec<String> = Vec::new();
    r.push("ssh".to_owned());
    r.push(host.to_owned());
    r.push("bash".to_owned());
    r.push("-s".to_owned());
    r.push("--".to_owned());
    let mut i: usize = 0;
    while i < args.len()
        invariant
            0 <= i <= args.len(),
            crate::text::views(r@) == seq!["ssh"@, host@, "bash"@, "-s"@, "--"@]
                + crate::text::views(args@).take(i as int),
        decreases args.len() - i,
    {
        let ghost before = r@;
        let item = args[i].clone();
        r.push(item);
        assert(crate::text::views(r@) =~= crate::text::views(before).push(item@));
        assert(crate::text::views(args@).take(i + 1) =~= crate::text::views(args@).take(
            i as int,
        ).push(args@[i as int]@));
        i = i + 1;
    }
    assert(crate::text::views(args@).take(args.len() as int) =~= crate::text::views(args@));
    r
}

} // verus!
