//! Configuration model: the closed sets of user choices and the record
//! the wizard hands to the installation planner.

use vstd::prelude::*;

verus! {

/// Desktop edition to install.
#[derive(Clone, Copy, PartialEq, Eq, Structural, Debug)]
pub enum Edition {
    Official,
    Gnome,
    Xfce,
    Blue,
    Hydra,
    Cybersecurity,
    Wayfire,
    Atomic,
}

/// Package-repository track.
#[derive(Clone, Copy, PartialEq, Eq, Structural, Debug)]
pub enum Branch {
    Stable,
    Testing,
    Unstable,
}

/// Root filesystem to create.
#[derive(Clone, Copy, PartialEq, Eq, Structural, Debug)]
pub enum Filesystem {
    Btrfs,
    Ext4,
    Zfs,
}

/// Upstream codename each branch maps to.
pub open spec fn spec_codename(b: Branch) -> Seq<char> {
    match b {
        Branch::Stable => "trixie"@,
        Branch::Testing => "forky"@,
        Branch::Unstable => "sid"@,
    }
}

/// The branch-to-codename mapping: total over `Branch` and fixed.
pub fn branch_codename(b: Branch) -> (r: &'static str)
    ensures
        r@ == spec_codename(b),
{
    match b {
        Branch::Stable => "trixie",
        Branch::Testing => "forky",
        Branch::Unstable => "sid",
    }
}

/// Law: the branch-to-codename mapping is total — every branch has a
/// codename — and fixed to these three words.
pub proof fn lemma_codename_total_and_fixed(b: Branch)
    ensures
        b == Branch::Stable ==> spec_codename(b) == "trixie"@,
        b == Branch::Testing ==> spec_codename(b) == "forky"@,
        b == Branch::Unstable ==> spec_codename(b) == "sid"@,
        spec_codename(b) == "trixie"@ || spec_codename(b) == "forky"@ || spec_codename(b)
            == "sid"@,
{
}

/// The hostname used when the wizard's hostname field is left blank.
pub open spec fn spec_default_hostname() -> Seq<char> {
    "hackeros"@
}

pub fn default_hostname() -> (r: &'static str)
    ensures
        r@ == spec_default_hostname(),
{
    "hackeros"
}

/// Frozen user choices, built by the wizard, read-only for the pipeline.
pub struct Configuration {
    pub username: String,
    pub password: String,
    pub hostname: String,
    pub edition: Edition,
    pub branch: Branch,
    pub filesystem: Filesystem,
    pub manual_partition: bool,
    pub disk: String,
}

impl Configuration {
    /// Every field the pipeline consumes is non-empty; the wizard is the
    /// sole gate that establishes this before the pipeline starts.
    pub open spec fn wf(self) -> bool {
        &&& self.username@.len() > 0
        &&& self.password@.len() > 0
        &&& self.hostname@.len() > 0
        &&& self.disk@.len() > 0
    }
}

} // verus!
