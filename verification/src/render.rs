//! Render descriptions: the fixed texts each wizard stage shows.  The
//! terminal layer draws them; nothing here touches a terminal.

use vstd::prelude::*;
use crate::config::Edition;
use crate::wizard::Stage;

verus! {

/// Title of the frame a stage is drawn in.
pub open spec fn spec_stage_title(s: Stage) -> Seq<char> {
    match s {
        Stage::Welcome => "Welcome"@,
        Stage::Username => "User Creation"@,
        Stage::Password => "Password"@,
        Stage::Hostname => "Hostname"@,
        Stage::Edition => "Select Edition"@,
        Stage::Branch => "Select Debian Branch"@,
        Stage::Filesystem => "Select Filesystem"@,
        Stage::PartitionMode => "Partitioning Mode"@,
        Stage::Disk => "Disk Selection"@,
        Stage::Summary => "Summary"@,
        Stage::Complete => "Summary"@,
    }
}

pub fn stage_title(s: Stage) -> (r: &'static str)
    ensures
        r@ == spec_stage_title(s),
{
    match s {
        Stage::Welcome => "Welcome",
        Stage::Username => "User Creation",
        Stage::Password => "Password",
        Stage::Hostname => "Hostname",
        Stage::Edition => "Select Edition",
        Stage::Branch => "Select Debian Branch",
        Stage::Filesystem => "Select Filesystem",
        Stage::PartitionMode => "Partitioning Mode",
        Stage::Disk => "Disk Selection",
        Stage::Summary => "Summary",
        Stage::Complete => "Summary",
    }
}

/// Label of an edition-list entry, by position.
pub open spec fn spec_edition_label(i: int) -> Seq<char> {
    if i == 0 {
        "Official (KDE Plasma + SDDM)"@
    } else if i == 1 {
        "Gnome (GNOME + GDM3)"@
    } else if i == 2 {
        "XFCE (XFCE + LightDM)"@
    } else if i == 3 {
        "Blue (Custom Environment)"@
    } else if i == 4 {
        "Hydra (Custom Look)"@
    } else if i == 5 {
        "Cybersecurity (With Tools)"@
    } else if i == 6 {
        "Wayfire (Wayfire + SDDM)"@
    } else {
        "Atomic (With Hammer)"@
    }
}

pub fn edition_label(i: usize) -> (r: &'static str)
    requires
        i < 8,
    ensures
        r@ == spec_edition_label(i as int),
{
    if i == 0 {
        "Official (KDE Plasma + SDDM)"
    } else if i == 1 {
        "Gnome (GNOME + GDM3)"
    } else if i == 2 {
        "XFCE (XFCE + LightDM)"
    } else if i == 3 {
        "Blue (Custom Environment)"
    } else if i == 4 {
        "Hydra (Custom Look)"
    } else if i == 5 {
        "Cybersecurity (With Tools)"
    } else if i == 6 {
        "Wayfire (Wayfire + SDDM)"
    } else {
        "Atomic (With Hammer)"
    }
}

/// Label of a branch-list entry, by position.
pub open spec fn spec_branch_label(i: int) -> Seq<char> {
    if i == 0 {
        "Stable (trixie)"@
    } else if i == 1 {
        "Testing (forky)"@
    } else {
        "Unstable (sid)"@
    }
}

pub fn branch_label(i: usize) -> (r: &'static str)
    requires
        i < 3,
    ensures
        r@ == spec_branch_label(i as int),
{
    if i == 0 {
        "Stable (trixie)"
    } else if i == 1 {
        "Testing (forky)"
    } else {
        "Unstable (sid)"
    }
}

/// Label of a filesystem-list entry, by position.
pub open spec fn spec_filesystem_label(i: int) -> Seq<char> {
    if i == 0 {
        "Btrfs"@
    } else if i == 1 {
        "Ext4"@
    } else {
        "Zfs"@
    }
}

pub fn filesystem_label(i: usize) -> (r: &'static str)
    requires
        i < 3,
    ensures
        r@ == spec_filesystem_label(i as int),
{
    if i == 0 {
        "Btrfs"
    } else if i == 1 {
        "Ext4"
    } else {
        "Zfs"
    }
}

/// Label of a partition-mode entry, by position.
pub open spec fn spec_partition_mode_label(i: int) -> Seq<char> {
    if i == 0 {
        "Automatic Partitioning"@
    } else {
        "Manual Partitioning"@
    }
}

pub fn partition_mode_label(i: usize) -> (r: &'static str)
    requires
        i < 2,
    ensures
        r@ == spec_partition_mode_label(i as int),
{
    if i == 0 {
        "Automatic Partitioning"
    } else {
        "Manual Partitioning"
    }
}

/// File name of the preview image an edition shows once after selection.
pub open spec fn spec_preview_image(e: Edition) -> Seq<char> {
    match e {
        Edition::Official => "plasma.png"@,
        Edition::Gnome => "gnome.png"@,
        Edition::Xfce => "xfce.png"@,
        Edition::Blue => "blue.png"@,
        Edition::Hydra => "hydra.png"@,
        Edition::Cybersecurity => "cybersecurity.png"@,
        Edition::Wayfire => "wayfire.png"@,
        Edition::Atomic => "atomic.png"@,
    }
}

pub fn preview_image(e: Edition) -> (r: &'static str)
    ensures
        r@ == spec_preview_image(e),
{
    match e {
        Edition::Official => "plasma.png",
        Edition::Gnome => "gnome.png",
        Edition::Xfce => "xfce.png",
        Edition::Blue => "blue.png",
        Edition::Hydra => "hydra.png",
        Edition::Cybersecurity => "cybersecurity.png",
        Edition::Wayfire => "wayfire.png",
        Edition::Atomic => "atomic.png",
    }
}

} // verus!
