//! VM backends, devcontainer profiles, build targets, and the naming rules for
//! client VMs.
use vstd::prelude::*;

verus! {

/// CPU count for a new VM.
pub const DEFAULT_CPUS: u16 = 6;

/// Memory in GB for a new VM.
pub const DEFAULT_MEMORY_GB: u16 = 12;

/// Disk in GB for a new VM.
pub const DEFAULT_DISK_GB: u16 = 120;

/// GitHub owner used for `--repo` when `--org` is not given.
pub const DEFAULT_ORG: &'static str = "cantina-forks";

/// Lima VM backend.
#[derive(Clone, Copy, Debug, PartialEq, Eq, Structural)]
pub enum VmType {
    Qemu,
    Vz,
    Krunkit,
}

/// Trusted devcontainer profile.
#[derive(Clone, Copy, Debug, PartialEq, Eq, Structural)]
pub enum Profile {
    Base,
    Node,
    SolidityFoundry,
    SolidityFoundryNode,
}

/// What `tdc images build` builds: every profile image, or one of them.
#[derive(Clone, Copy, Debug, PartialEq, Eq, Structural)]
pub enum BuildTarget {
    All,
    Base,
    Node,
    SolidityFoundry,
    SolidityFoundryNode,
}

impl VmType {
    /// The name Lima knows the backend by.
    pub open spec fn name(self) -> Seq<char> {
        match self {
            VmType::Qemu => "qemu"@,
            VmType::Vz => "vz"@,
            VmType::Krunkit => "krunkit"@,
        }
    }

    pub fn as_str(&self) -> (r: &'static str)
        ensures
            r@ == self.name(),
    {
        match self {
            VmType::Qemu => "qemu",
            VmType::Vz => "vz",
            VmType::Krunkit => "krunkit",
        }
    }
}

impl Profile {
    /// The profile's name, which is also the name of its image.
    pub open spec fn name(self) -> Seq<char> {
        match self {
            Profile::Base => "base"@,
            Profile::Node => "node"@,
            Profile::SolidityFoundry => "solidity-foundry"@,
            Profile::SolidityFoundryNode => "solidity-foundry-node"@,
        }
    }

    pub fn as_str(&self) -> (r: &'static str)
        ensures
            r@ == self.name(),
    {
        match self {
            Profile::Base => "base",
            Profile::Node => "node",
            Profile::SolidityFoundry => "solidity-foundry",
            Profile::SolidityFoundryNode => "solidity-foundry-node",
        }
    }
}

impl BuildTarget {
    /// The target's name on the command line.
    pub open spec fn name(self) -> Seq<char> {
        match self {
            BuildTarget::All => "all"@,
            BuildTarget::Base => "base"@,
            BuildTarget::Node => "node"@,
            BuildTarget::SolidityFoundry => "solidity-foundry"@,
            BuildTarget::SolidityFoundryNode => "solidity-foundry-node"@,
        }
    }

    pub fn as_str(&self) -> (r: &'static str)
        ensures
            r@ == self.name(),
    {
        match self {
            BuildTarget::All => "all",
            BuildTarget::Base => "base",
            BuildTarget::Node => "node",
            BuildTarget::SolidityFoundry => "solidity-foundry",
            BuildTarget::SolidityFoundryNode => "solidity-foundry-node",
        }
    }
}

/// The VM a client gets unless another name is given.
pub open spec fn default_vm_name(client: Seq<char>) -> Seq<char> {
    "client-"@ + client
}

/// The SSH host alias Lima writes for a VM.
pub open spec fn lima_host_name(vm: Seq<char>) -> Seq<char> {
    "lima-"@ + vm
}

/// A char allowed in client slugs, VM names, and GitHub owners and repos.
pub open spec fn is_slug_char(c: char) -> bool {
    ||| ('a' <= c && c <= 'z')
    ||| ('A' <= c && c <= 'Z')
    ||| ('0' <= c && c <= '9')
    ||| c == '.'
    ||| c == '_'
    ||| c == '-'
}

/// A non-empty run of ASCII letters, digits, `.`, `_` and `-`.
pub open spec fn is_slug(s: Seq<char>) -> bool {
    &&& s.len() > 0
    &&& forall|i: int| 0 <= i < s.len() ==> #[trigger] is_slug_char(s[i])
}

pub fn vm_default(client: &str) -> (r: String)
    ensures
        r@ == default_vm_name(client@),
{
    crate::text::concat("client-", client)
}

pub fn lima_host(vm: &str) -> (r: String)
    ensures
        r@ == lima_host_name(vm@),
{
    crate::text::concat("lima-", vm)
}

pub fn is_slug_char_exec(c: char) -> (r: bool)
    ensures
        r == is_slug_char(c),
{
    ('a' <= c && c <= 'z') || ('A' <= c && c <= 'Z') || ('0' <= c && c <= '9') || c == '.' || c
        == '_' || c == '-'
}

pub fn is_valid_slug(value: &str) -> (r: bool)
    ensures
        r == is_slug(value@),
{
    let v = crate::text::chars_of(value);
    if v.len() == 0 {
        return false;
    }
    let mut i: usize = 0;
    while i < v.len()
        invariant
            0 <= i <= v.len(),
            v@ == value@,
            forall|j: int| 0 <= j < i ==> #[trigger] is_slug_char(v@[j]),
        decreases v.len() - i,
    {
        if !is_slug_char_exec(v[i]) {
            return false;
        }
        i = i + 1;
    }
    true
}

/// The default VM name of a valid client slug is itself a valid slug, so
/// defaulting never produces a name that the VM-name check would refuse.
pub proof fn lemma_default_vm_name_is_slug(client: Seq<char>)
    requires
        is_slug(client),
    ensures
        is_slug(default_vm_name(client)),
{
    reveal_strlit("client-");
    let s = default_vm_name(client);
    assert forall|i: int| 0 <= i < s.len() implies #[trigger] is_slug_char(s[i]) by {
        if i >= 7 {
            assert(s[i] == client[i - 7]);
        }
    }
}

/// Slugs hold no whitespace, `/`, `#`, `?`, `:` or `@`.
pub proof fn lemma_slug_char_excludes(c: char)
    requires
        is_slug_char(c),
    ensures
        c != '/',
        c != '#',
        c != '?',
        c != ':',
        c != '@',
        !crate::text::is_whitespace(c),
{
}

} // verus!
