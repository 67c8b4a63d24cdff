//! Installation planner: turns a frozen [`Configuration`] into the fixed,
//! ordered sequence of provisioning actions.  Phases follow one another in
//! a fixed order; the pipeline runner feeds them to the surrounding binary
//! one at a time and stops at the first failure.

use vstd::prelude::*;
use vstd::string::StringExecFns;
use crate::action::{Action, ActionSpec, fetch_action, plan_view, lemma_plan_view_add,
    spec_marks_executable, strv1, strv2, strv3, strv4, strv5, views_of};
use crate::config::{Branch, Configuration, Edition, Filesystem, branch_codename, spec_codename};

verus! {

/// The single line written over the package-source list.
pub open spec fn spec_sources_content(b: Branch) -> Seq<char> {
    "deb http://deb.debian.org/debian "@ + spec_codename(b) + " main"@
}

pub fn sources_content(b: Branch) -> (r: String)
    ensures
        r@ == spec_sources_content(b),
{
    "deb http://deb.debian.org/debian ".to_owned().concat(branch_codename(b)).concat(" main")
}

/// Fixed partition scheme of the automated path: a boot partition of
/// fixed size, the rest of the disk as root.
pub open spec fn spec_sfdisk_layout() -> Seq<char> {
    "label: gpt\nsize=512MiB, type=uefi\ntype=linux\n"@
}

/// First partition of the chosen disk, used for boot.
pub open spec fn spec_boot_partition(disk: Seq<char>) -> Seq<char> {
    disk + "1"@
}

/// Second partition of the chosen disk, used for root.
pub open spec fn spec_root_partition(disk: Seq<char>) -> Seq<char> {
    disk + "2"@
}

pub fn boot_partition(disk: &str) -> (r: String)
    ensures
        r@ == spec_boot_partition(disk@),
{
    disk.to_owned().concat("1")
}

pub fn root_partition(disk: &str) -> (r: String)
    ensures
        r@ == spec_root_partition(disk@),
{
    disk.to_owned().concat("2")
}

/// Repository configuration: overwrite the package-source list for the
/// chosen branch, then refresh the package index.
pub open spec fn spec_repo_phase(b: Branch) -> Seq<ActionSpec> {
    seq![
        ActionSpec::WriteFile {
            path: "/etc/apt/sources.list"@,
            content: spec_sources_content(b),
        },
        ActionSpec::Run { program: "apt"@, args: seq!["update"@], stdin: None },
    ]
}

pub fn repo_phase(b: Branch) -> (r: Vec<Action>)
    ensures
        plan_view(r@) == spec_repo_phase(b),
{
    let mut v: Vec<Action> = Vec::new();
    v.push(
        Action::WriteFile { path: "/etc/apt/sources.list".to_owned(), content: sources_content(b) },
    );
    v.push(
        Action::Run { program: "apt".to_owned(), args: strv1("update".to_owned()), stdin: None },
    );
    proof {
        assert(plan_view(v@) =~~= spec_repo_phase(b));
    }
    v
}

/// Partitioning: interactive tool on the manual path, the unattended tool
/// with an explicit layout on the automated one.
pub open spec fn spec_partition_phase(manual: bool, disk: Seq<char>) -> Seq<ActionSpec> {
    if manual {
        seq![ActionSpec::Run { program: "cfdisk"@, args: seq![disk], stdin: None }]
    } else {
        seq![
            ActionSpec::Run {
                program: "sfdisk"@,
                args: seq![disk],
                stdin: Some(spec_sfdisk_layout()),
            },
        ]
    }
}

pub fn partition_phase(manual: bool, disk: &str) -> (r: Vec<Action>)
    ensures
        plan_view(r@) == spec_partition_phase(manual, disk@),
{
    let mut v: Vec<Action> = Vec::new();
    if manual {
        v.push(
            Action::Run { program: "cfdisk".to_owned(), args: strv1(disk.to_owned()), stdin: None },
        );
    } else {
        v.push(
            Action::Run {
                program: "sfdisk".to_owned(),
                args: strv1(disk.to_owned()),
                stdin: Some("label: gpt\nsize=512MiB, type=uefi\ntype=linux\n".to_owned()),
            },
        );
    }
    proof {
        assert(plan_view(v@) =~~= spec_partition_phase(manual, disk@));
    }
    v
}

/// Filesystem creation: the formatter the chosen filesystem maps to, run
/// against the root partition.
pub open spec fn spec_format_phase(fs: Filesystem, disk: Seq<char>) -> Seq<ActionSpec> {
    match fs {
        Filesystem::Btrfs => seq![
            ActionSpec::Run {
                program: "mkfs.btrfs"@,
                args: seq![spec_root_partition(disk)],
                stdin: None,
            },
        ],
        Filesystem::Ext4 => seq![
            ActionSpec::Run {
                program: "mkfs.ext4"@,
                args: seq![spec_root_partition(disk)],
                stdin: None,
            },
        ],
        Filesystem::Zfs => seq![
            ActionSpec::Run {
                program: "zpool"@,
                args: seq!["create"@, "rpool"@, spec_root_partition(disk)],
                stdin: None,
            },
        ],
    }
}

pub fn format_phase(fs: Filesystem, disk: &str) -> (r: Vec<Action>)
    ensures
        plan_view(r@) == spec_format_phase(fs, disk@),
{
    let mut v: Vec<Action> = Vec::new();
    match fs {
        Filesystem::Btrfs => v.push(
            Action::Run {
                program: "mkfs.btrfs".to_owned(),
                args: strv1(root_partition(disk)),
                stdin: None,
            },
        ),
        Filesystem::Ext4 => v.push(
            Action::Run {
                program: "mkfs.ext4".to_owned(),
                args: strv1(root_partition(disk)),
                stdin: None,
            },
        ),
        Filesystem::Zfs => v.push(
            Action::Run {
                program: "zpool".to_owned(),
                args: strv3("create".to_owned(), "rpool".to_owned(), root_partition(disk)),
                stdin: None,
            },
        ),
    }
    proof {
        assert(plan_view(v@) =~~= spec_format_phase(fs, disk@));
    }
    v
}

/// Mounting: mount-point directories, then root and boot partitions.
pub open spec fn spec_mount_phase(disk: Seq<char>) -> Seq<ActionSpec> {
    seq![
        ActionSpec::CreateDir { path: "/mnt"@ },
        ActionSpec::Run {
            program: "mount"@,
            args: seq![spec_root_partition(disk), "/mnt"@],
            stdin: None,
        },
        ActionSpec::CreateDir { path: "/mnt/boot"@ },
        ActionSpec::Run {
            program: "mount"@,
            args: seq![spec_boot_partition(disk), "/mnt/boot"@],
            stdin: None,
        },
    ]
}

pub fn mount_phase(disk: &str) -> (r: Vec<Action>)
    ensures
        plan_view(r@) == spec_mount_phase(disk@),
{
    let mut v: Vec<Action> = Vec::new();
    v.push(Action::CreateDir { path: "/mnt".to_owned() });
    v.push(
        Action::Run {
            program: "mount".to_owned(),
            args: strv2(root_partition(disk), "/mnt".to_owned()),
            stdin: None,
        },
    );
    v.push(Action::CreateDir { path: "/mnt/boot".to_owned() });
    v.push(
        Action::Run {
            program: "mount".to_owned(),
            args: strv2(boot_partition(disk), "/mnt/boot".to_owned()),
            stdin: None,
        },
    );
    proof {
        assert(plan_view(v@) =~~= spec_mount_phase(disk@));
    }
    v
}

/// Base-system bootstrap into the mounted root.
pub open spec fn spec_bootstrap_phase(b: Branch) -> Seq<ActionSpec> {
    seq![
        ActionSpec::Run {
            program: "debootstrap"@,
            args: seq![spec_codename(b), "/mnt"@],
            stdin: None,
        },
    ]
}

pub fn bootstrap_phase(b: Branch) -> (r: Vec<Action>)
    ensures
        plan_view(r@) == spec_bootstrap_phase(b),
{
    let mut v: Vec<Action> = Vec::new();
    v.push(
        Action::Run {
            program: "debootstrap".to_owned(),
            args: strv2(branch_codename(b).to_owned(), "/mnt".to_owned()),
            stdin: None,
        },
    );
    proof {
        assert(plan_view(v@) =~~= spec_bootstrap_phase(b));
    }
    v
}

/// Bind mounts of the host interfaces into the target root, each
/// individually, in this fixed order.
pub open spec fn spec_bind_phase() -> Seq<ActionSpec> {
    seq![
        ActionSpec::CreateDir { path: "/mnt/dev"@ },
        ActionSpec::Run {
            program: "mount"@,
            args: seq!["--bind"@, "/dev"@, "/mnt/dev"@],
            stdin: None,
        },
        ActionSpec::CreateDir { path: "/mnt/proc"@ },
        ActionSpec::Run {
            program: "mount"@,
            args: seq!["--bind"@, "/proc"@, "/mnt/proc"@],
            stdin: None,
        },
        ActionSpec::CreateDir { path: "/mnt/sys"@ },
        ActionSpec::Run {
            program: "mount"@,
            args: seq!["--bind"@, "/sys"@, "/mnt/sys"@],
            stdin: None,
        },
        ActionSpec::CreateDir { path: "/mnt/run"@ },
        ActionSpec::Run {
            program: "mount"@,
            args: seq!["--bind"@, "/run"@, "/mnt/run"@],
            stdin: None,
        },
    ]
}

pub fn bind_phase() -> (r: Vec<Action>)
    ensures
        plan_view(r@) == spec_bind_phase(),
{
    let mut v: Vec<Action> = Vec::new();
    v.push(Action::CreateDir { path: "/mnt/dev".to_owned() });
    v.push(
        Action::Run {
            program: "mount".to_owned(),
            args: strv3("--bind".to_owned(), "/dev".to_owned(), "/mnt/dev".to_owned()),
            stdin: None,
        },
    );
    v.push(Action::CreateDir { path: "/mnt/proc".to_owned() });
    v.push(
        Action::Run {
            program: "mount".to_owned(),
            args: strv3("--bind".to_owned(), "/proc".to_owned(), "/mnt/proc".to_owned()),
            stdin: None,
        },
    );
    v.push(Action::CreateDir { path: "/mnt/sys".to_owned() });
    v.push(
        Action::Run {
            program: "mount".to_owned(),
            args: strv3("--bind".to_owned(), "/sys".to_owned(), "/mnt/sys".to_owned()),
            stdin: None,
        },
    );
    v.push(Action::CreateDir { path: "/mnt/run".to_owned() });
    v.push(
        Action::Run {
            program: "mount".to_owned(),
            args: strv3("--bind".to_owned(), "/run".to_owned(), "/mnt/run".to_owned()),
            stdin: None,
        },
    );
    proof {
        assert(plan_view(v@) =~~= spec_bind_phase());
    }
    v
}

/// Base packages and user setup inside the target root.  User-supplied
/// values travel as argument-vector entries or standard input, never
/// through a shell; the privilege entry goes into a sudoers drop-in.
pub open spec fn spec_user_phase(user: Seq<char>, pass: Seq<char>) -> Seq<ActionSpec> {
    seq![
        ActionSpec::RunInTarget { argv: seq!["apt"@, "update"@], stdin: None },
        ActionSpec::RunInTarget {
            argv: seq!["apt"@, "install"@, "-y"@, "linux-image-amd64"@, "grub-efi-amd64"@],
            stdin: None,
        },
        ActionSpec::RunInTarget { argv: seq!["useradd"@, "-m"@, "-G"@, "sudo"@, user], stdin: None },
        ActionSpec::RunInTarget { argv: seq!["chpasswd"@], stdin: Some(user + ":"@ + pass) },
        ActionSpec::WriteFile {
            path: "/mnt/etc/sudoers.d/"@ + user,
            content: user + " ALL=(ALL) ALL\n"@,
        },
    ]
}

pub fn user_phase(username: &str, password: &str) -> (r: Vec<Action>)
    ensures
        plan_view(r@) == spec_user_phase(username@, password@),
{
    let mut v: Vec<Action> = Vec::new();
    v.push(
        Action::RunInTarget { argv: strv2("apt".to_owned(), "update".to_owned()), stdin: None },
    );
    v.push(
        Action::RunInTarget {
            argv: strv5(
                "apt".to_owned(),
                "install".to_owned(),
                "-y".to_owned(),
                "linux-image-amd64".to_owned(),
                "grub-efi-amd64".to_owned(),
            ),
            stdin: None,
        },
    );
    v.push(
        Action::RunInTarget {
            argv: strv5(
                "useradd".to_owned(),
                "-m".to_owned(),
                "-G".to_owned(),
                "sudo".to_owned(),
                username.to_owned(),
            ),
            stdin: None,
        },
    );
    v.push(
        Action::RunInTarget {
            argv: strv1("chpasswd".to_owned()),
            stdin: Some(username.to_owned().concat(":").concat(password)),
        },
    );
    v.push(
        Action::WriteFile {
            path: "/mnt/etc/sudoers.d/".to_owned().concat(username),
            content: username.to_owned().concat(" ALL=(ALL) ALL\n"),
        },
    );
    proof {
        assert(plan_view(v@) =~~= spec_user_phase(username@, password@));
    }
    v
}

/// Hostname written into the target root.
pub open spec fn spec_hostname_phase(hostname: Seq<char>) -> Seq<ActionSpec> {
    seq![ActionSpec::WriteFile { path: "/mnt/etc/hostname"@, content: hostname }]
}

pub fn hostname_phase(hostname: &str) -> (r: Vec<Action>)
    ensures
        plan_view(r@) == spec_hostname_phase(hostname@),
{
    let mut v: Vec<Action> = Vec::new();
    v.push(
        Action::WriteFile { path: "/mnt/etc/hostname".to_owned(), content: hostname.to_owned() },
    );
    proof {
        assert(plan_view(v@) =~~= spec_hostname_phase(hostname@));
    }
    v
}

/// Per-user directory the Blue edition's prebuilt binaries land in.
pub open spec fn spec_blue_home(user: Seq<char>) -> Seq<char> {
    "/mnt/home/"@ + user + "/.hackeros/Blue-Environment"@
}

pub fn blue_home(username: &str) -> (r: String)
    ensures
        r@ == spec_blue_home(username@),
{
    "/mnt/home/".to_owned().concat(username).concat("/.hackeros/Blue-Environment")
}

/// Edition installation: one shared overlay copy, then the edition's own
/// action — package installs, prebuilt-binary fetches, or a repository
/// clone and copy.
pub open spec fn spec_edition_phase(e: Edition, user: Seq<char>) -> Seq<ActionSpec> {
    seq![
        ActionSpec::CopyDir { src: "/usr/share/HackerOS-Installer/official/"@, dest: "/mnt/"@ },
    ] + match e {
        Edition::Official => seq![
            ActionSpec::RunInTarget {
                argv: seq!["apt"@, "install"@, "-y"@, "kde-plasma-desktop"@, "sddm"@],
                stdin: None,
            },
        ],
        Edition::Gnome => seq![
            ActionSpec::RunInTarget {
                argv: seq!["apt"@, "install"@, "-y"@, "gnome"@, "gdm3"@],
                stdin: None,
            },
        ],
        Edition::Xfce => seq![
            ActionSpec::RunInTarget {
                argv: seq!["apt"@, "install"@, "-y"@, "xfce4"@, "lightdm"@],
                stdin: None,
            },
        ],
        Edition::Blue => seq![
            ActionSpec::CreateDir { path: spec_blue_home(user) },
            ActionSpec::Fetch {
                url: "https://github.com/HackerOS-Linux-System/Blue-Environment/releases/download/v0.1/wm"@,
                dest: spec_blue_home(user) + "/wm"@,
                executable: spec_marks_executable(spec_blue_home(user) + "/wm"@),
            },
            ActionSpec::Fetch {
                url: "https://github.com/HackerOS-Linux-System/Blue-Environment/releases/download/v0.1/shell"@,
                dest: spec_blue_home(user) + "/shell"@,
                executable: spec_marks_executable(spec_blue_home(user) + "/shell"@),
            },
            ActionSpec::Fetch {
                url: "https://github.com/HackerOS-Linux-System/Blue-Environment/releases/download/v0.1/launcher"@,
                dest: spec_blue_home(user) + "/launcher"@,
                executable: spec_marks_executable(spec_blue_home(user) + "/launcher"@),
            },
            ActionSpec::Fetch {
                url: "https://github.com/HackerOS-Linux-System/Blue-Environment/releases/download/v0.1/Desktop"@,
                dest: spec_blue_home(user) + "/Desktop"@,
                executable: spec_marks_executable(spec_blue_home(user) + "/Desktop"@),
            },
            ActionSpec::Fetch {
                url: "https://github.com/HackerOS-Linux-System/Blue-Environment/releases/download/v0.1/decorations"@,
                dest: spec_blue_home(user) + "/decorations"@,
                executable: spec_marks_executable(spec_blue_home(user) + "/decorations"@),
            },
            ActionSpec::Fetch {
                url: "https://github.com/HackerOS-Linux-System/Blue-Environment/releases/download/v0.1/core"@,
                dest: spec_blue_home(user) + "/core"@,
                executable: spec_marks_executable(spec_blue_home(user) + "/core"@),
            },
            ActionSpec::Fetch {
                url: "https://github.com/HackerOS-Linux-System/Blue-Environment/releases/download/v0.1/Blue-Environment"@,
                dest: "/mnt/usr/bin/Blue-Environment"@,
                executable: spec_marks_executable("/mnt/usr/bin/Blue-Environment"@),
            },
            ActionSpec::Fetch {
                url: "https://raw.githubusercontent.com/HackerOS-Linux-System/Blue-Environment/main/Blue-Environment.desktop"@,
                dest: "/mnt/usr/share/wayland-sessions/Blue-Environment.desktop"@,
                executable: spec_marks_executable(
                    "/mnt/usr/share/wayland-sessions/Blue-Environment.desktop"@,
                ),
            },
            ActionSpec::RunInTarget {
                argv: seq!["apt"@, "install"@, "-y"@, "sddm"@],
                stdin: None,
            },
        ],
        Edition::Hydra => seq![
            ActionSpec::CloneRepo {
                url: "https://github.com/HackerOS-Linux-System/hydra-look-and-feel.git"@,
                dest: "/tmp/hydra-look-and-feel"@,
            },
            ActionSpec::CopyDir { src: "/tmp/hydra-look-and-feel/files/"@, dest: "/mnt/"@ },
        ],
        Edition::Cybersecurity => seq![
            ActionSpec::RunInTarget {
                argv: seq!["apt"@, "install"@, "-y"@, "nmap"@, "wireshark"@],
                stdin: None,
            },
        ],
        Edition::Wayfire => seq![
            ActionSpec::RunInTarget {
                argv: seq!["apt"@, "install"@, "-y"@, "wayfire"@, "sddm"@],
                stdin: None,
            },
        ],
        Edition::Atomic => seq![
            ActionSpec::Fetch {
                url: "https://github.com/HackerOS-Linux-System/hammer/releases/download/v0.5/hammer"@,
                dest: "/mnt/usr/bin/hammer"@,
                executable: spec_marks_executable("/mnt/usr/bin/hammer"@),
            },
            ActionSpec::CreateDir { path: "/mnt/usr/lib/HackerOS/hammer/"@ },
            ActionSpec::Fetch {
                url: "https://github.com/HackerOS-Linux-System/hammer/releases/download/v0.5/hammer-updater"@,
                dest: "/mnt/usr/lib/HackerOS/hammer/hammer-updater"@,
                executable: spec_marks_executable("/mnt/usr/lib/HackerOS/hammer/hammer-updater"@),
            },
            ActionSpec::Fetch {
                url: "https://github.com/HackerOS-Linux-System/hammer/releases/download/v0.5/hammer-tui"@,
                dest: "/mnt/usr/lib/HackerOS/hammer/hammer-tui"@,
                executable: spec_marks_executable("/mnt/usr/lib/HackerOS/hammer/hammer-tui"@),
            },
            ActionSpec::Fetch {
                url: "https://github.com/HackerOS-Linux-System/hammer/releases/download/v0.5/hammer-core"@,
                dest: "/mnt/usr/lib/HackerOS/hammer/hammer-core"@,
                executable: spec_marks_executable("/mnt/usr/lib/HackerOS/hammer/hammer-core"@),
            },
            ActionSpec::Fetch {
                url: "https://github.com/HackerOS-Linux-System/hammer/releases/download/v0.5/hammer-builder"@,
                dest: "/mnt/usr/lib/HackerOS/hammer/hammer-builder"@,
                executable: spec_marks_executable("/mnt/usr/lib/HackerOS/hammer/hammer-builder"@),
            },
            ActionSpec::RunInTarget {
                argv: seq!["apt"@, "install"@, "-y"@, "kde-plasma-desktop"@, "sddm"@],
                stdin: None,
            },
            ActionSpec::RunInTarget { argv: seq!["hammer"@, "setup"@], stdin: None },
        ],
    }
}

pub fn edition_phase(e: Edition, username: &str) -> (r: Vec<Action>)
    ensures
        plan_view(r@) == spec_edition_phase(e, username@),
{
    let mut v: Vec<Action> = Vec::new();
    v.push(
        Action::CopyDir {
            src: "/usr/share/HackerOS-Installer/official/".to_owned(),
            dest: "/mnt/".to_owned(),
        },
    );
    match e {
        Edition::Official => {
            v.push(
                Action::RunInTarget {
                    argv: strv5(
                        "apt".to_owned(),
                        "install".to_owned(),
                        "-y".to_owned(),
                        "kde-plasma-desktop".to_owned(),
                        "sddm".to_owned(),
                    ),
                    stdin: None,
                },
            );
        },
        Edition::Gnome => {
            v.push(
                Action::RunInTarget {
                    argv: strv5(
                        "apt".to_owned(),
                        "install".to_owned(),
                        "-y".to_owned(),
                        "gnome".to_owned(),
                        "gdm3".to_owned(),
                    ),
                    stdin: None,
                },
            );
        },
        Edition::Xfce => {
            v.push(
                Action::RunInTarget {
                    argv: strv5(
                        "apt".to_owned(),
                        "install".to_owned(),
                        "-y".to_owned(),
                        "xfce4".to_owned(),
                        "lightdm".to_owned(),
                    ),
                    stdin: None,
                },
            );
        },
        Edition::Blue => {
            let home = blue_home(username);
            v.push(Action::CreateDir { path: home.clone() });
            v.push(
                fetch_action(
                    "https://github.com/HackerOS-Linux-System/Blue-Environment/releases/download/v0.1/wm",
                    home.clone().concat("/wm"),
                ),
            );
            v.push(
                fetch_action(
                    "https://github.com/HackerOS-Linux-System/Blue-Environment/releases/download/v0.1/shell",
                    home.clone().concat("/shell"),
                ),
            );
            v.push(
                fetch_action(
                    "https://github.com/HackerOS-Linux-System/Blue-Environment/releases/download/v0.1/launcher",
                    home.clone().concat("/launcher"),
                ),
            );
            v.push(
                fetch_action(
                    "https://github.com/HackerOS-Linux-System/Blue-Environment/releases/download/v0.1/Desktop",
                    home.clone().concat("/Desktop"),
                ),
            );
            v.push(
                fetch_action(
                    "https://github.com/HackerOS-Linux-System/Blue-Environment/releases/download/v0.1/decorations",
                    home.clone().concat("/decorations"),
                ),
            );
            v.push(
                fetch_action(
                    "https://github.com/HackerOS-Linux-System/Blue-Environment/releases/download/v0.1/core",
                    home.clone().concat("/core"),
                ),
            );
            v.push(
                fetch_action(
                    "https://github.com/HackerOS-Linux-System/Blue-Environment/releases/download/v0.1/Blue-Environment",
                    "/mnt/usr/bin/Blue-Environment".to_owned(),
                ),
            );
            v.push(
                fetch_action(
                    "https://raw.githubusercontent.com/HackerOS-Linux-System/Blue-Environment/main/Blue-Environment.desktop",
                    "/mnt/usr/share/wayland-sessions/Blue-Environment.desktop".to_owned(),
                ),
            );
            v.push(
                Action::RunInTarget {
                    argv: strv4(
                        "apt".to_owned(),
                        "install".to_owned(),
                        "-y".to_owned(),
                        "sddm".to_owned(),
                    ),
                    stdin: None,
                },
            );
        },
        Edition::Hydra => {
            v.push(
                Action::CloneRepo {
                    url: "https://github.com/HackerOS-Linux-System/hydra-look-and-feel.git"
                        .to_owned(),
                    dest: "/tmp/hydra-look-and-feel".to_owned(),
                },
            );
            v.push(
                Action::CopyDir {
                    src: "/tmp/hydra-look-and-feel/files/".to_owned(),
                    dest: "/mnt/".to_owned(),
                },
            );
        },
        Edition::Cybersecurity => {
            v.push(
                Action::RunInTarget {
                    argv: strv5(
                        "apt".to_owned(),
                        "install".to_owned(),
                        "-y".to_owned(),
                        "nmap".to_owned(),
                        "wireshark".to_owned(),
                    ),
                    stdin: None,
                },
            );
        },
        Edition::Wayfire => {
            v.push(
                Action::RunInTarget {
                    argv: strv5(
                        "apt".to_owned(),
                        "install".to_owned(),
                        "-y".to_owned(),
                        "wayfire".to_owned(),
                        "sddm".to_owned(),
                    ),
                    stdin: None,
                },
            );
        },
        Edition::Atomic => {
            v.push(
                fetch_action(
                    "https://github.com/HackerOS-Linux-System/hammer/releases/download/v0.5/hammer",
                    "/mnt/usr/bin/hammer".to_owned(),
                ),
            );
            v.push(Action::CreateDir { path: "/mnt/usr/lib/HackerOS/hammer/".to_owned() });
            v.push(
                fetch_action(
                    "https://github.com/HackerOS-Linux-System/hammer/releases/download/v0.5/hammer-updater",
                    "/mnt/usr/lib/HackerOS/hammer/hammer-updater".to_owned(),
                ),
            );
            v.push(
                fetch_action(
                    "https://github.com/HackerOS-Linux-System/hammer/releases/download/v0.5/hammer-tui",
                    "/mnt/usr/lib/HackerOS/hammer/hammer-tui".to_owned(),
                ),
            );
            v.push(
                fetch_action(
                    "https://github.com/HackerOS-Linux-System/hammer/releases/download/v0.5/hammer-core",
                    "/mnt/usr/lib/HackerOS/hammer/hammer-core".to_owned(),
                ),
            );
            v.push(
                fetch_action(
                    "https://github.com/HackerOS-Linux-System/hammer/releases/download/v0.5/hammer-builder",
                    "/mnt/usr/lib/HackerOS/hammer/hammer-builder".to_owned(),
                ),
            );
            v.push(
                Action::RunInTarget {
                    argv: strv5(
                        "apt".to_owned(),
                        "install".to_owned(),
                        "-y".to_owned(),
                        "kde-plasma-desktop".to_owned(),
                        "sddm".to_owned(),
                    ),
                    stdin: None,
                },
            );
            v.push(
                Action::RunInTarget {
                    argv: strv2("hammer".to_owned(), "setup".to_owned()),
                    stdin: None,
                },
            );
        },
    }
    proof {
        assert(plan_view(v@) =~~= spec_edition_phase(e, username@));
    }
    v
}

/// Bootloader installed and configured against the chosen disk.
pub open spec fn spec_bootloader_phase(disk: Seq<char>) -> Seq<ActionSpec> {
    seq![
        ActionSpec::RunInTarget { argv: seq!["grub-install"@, disk], stdin: None },
        ActionSpec::RunInTarget { argv: seq!["update-grub"@], stdin: None },
    ]
}

pub fn bootloader_phase(disk: &str) -> (r: Vec<Action>)
    ensures
        plan_view(r@) == spec_bootloader_phase(disk@),
{
    let mut v: Vec<Action> = Vec::new();
    v.push(
        Action::RunInTarget {
            argv: strv2("grub-install".to_owned(), disk.to_owned()),
            stdin: None,
        },
    );
    v.push(Action::RunInTarget { argv: strv1("update-grub".to_owned()), stdin: None });
    proof {
        assert(plan_view(v@) =~~= spec_bootloader_phase(disk@));
    }
    v
}

/// Cleanup: unmount in the reverse order of the corresponding mounts,
/// then remove the installer's own files from the host.
pub open spec fn spec_cleanup_phase() -> Seq<ActionSpec> {
    seq![
        ActionSpec::Run { program: "umount"@, args: seq!["/mnt/run"@], stdin: None },
        ActionSpec::Run { program: "umount"@, args: seq!["/mnt/sys"@], stdin: None },
        ActionSpec::Run { program: "umount"@, args: seq!["/mnt/proc"@], stdin: None },
        ActionSpec::Run { program: "umount"@, args: seq!["/mnt/dev"@], stdin: None },
        ActionSpec::Run { program: "umount"@, args: seq!["/mnt/boot"@], stdin: None },
        ActionSpec::Run { program: "umount"@, args: seq!["/mnt"@], stdin: None },
        ActionSpec::RemoveDir { path: "/usr/share/HackerOS-Installer"@ },
        ActionSpec::RemoveFile { path: "/usr/bin/HackerOS-Installer"@ },
        ActionSpec::RemoveFile { path: "/etc/profile.d/HackerOS-Installer.sh"@ },
    ]
}

pub fn cleanup_phase() -> (r: Vec<Action>)
    ensures
        plan_view(r@) == spec_cleanup_phase(),
{
    let mut v: Vec<Action> = Vec::new();
    v.push(
        Action::Run {
            program: "umount".to_owned(),
            args: strv1("/mnt/run".to_owned()),
            stdin: None,
        },
    );
    v.push(
        Action::Run {
            program: "umount".to_owned(),
            args: strv1("/mnt/sys".to_owned()),
            stdin: None,
        },
    );
    v.push(
        Action::Run {
            program: "umount".to_owned(),
            args: strv1("/mnt/proc".to_owned()),
            stdin: None,
        },
    );
    v.push(
        Action::Run {
            program: "umount".to_owned(),
            args: strv1("/mnt/dev".to_owned()),
            stdin: None,
        },
    );
    v.push(
        Action::Run {
            program: "umount".to_owned(),
            args: strv1("/mnt/boot".to_owned()),
            stdin: None,
        },
    );
    v.push(
        Action::Run { program: "umount".to_owned(), args: strv1("/mnt".to_owned()), stdin: None },
    );
    v.push(Action::RemoveDir { path: "/usr/share/HackerOS-Installer".to_owned() });
    v.push(Action::RemoveFile { path: "/usr/bin/HackerOS-Installer".to_owned() });
    v.push(Action::RemoveFile { path: "/etc/profile.d/HackerOS-Installer.sh".to_owned() });
    proof {
        assert(plan_view(v@) =~~= spec_cleanup_phase());
    }
    v
}

/// System reboot, the pipeline's final act.
pub open spec fn spec_reboot_phase() -> Seq<ActionSpec> {
    seq![
        ActionSpec::Run {
            program: "reboot"@,
            args: Seq::<Seq<char>>::empty(),
            stdin: None,
        },
    ]
}

pub fn reboot_phase() -> (r: Vec<Action>)
    ensures
        plan_view(r@) == spec_reboot_phase(),
{
    let mut v: Vec<Action> = Vec::new();
    let args: Vec<String> = Vec::new();
    proof {
        assert(views_of(args@) =~= Seq::<Seq<char>>::empty());
    }
    v.push(Action::Run { program: "reboot".to_owned(), args, stdin: None });
    proof {
        assert(plan_view(v@) =~~= spec_reboot_phase());
    }
    v
}

/// The whole plan: every phase, in the fixed order.
pub open spec fn spec_plan(cfg: Configuration) -> Seq<ActionSpec> {
    spec_repo_phase(cfg.branch) + spec_partition_phase(cfg.manual_partition, cfg.disk@)
        + spec_format_phase(cfg.filesystem, cfg.disk@) + spec_mount_phase(cfg.disk@)
        + spec_bootstrap_phase(cfg.branch) + spec_bind_phase() + spec_user_phase(
        cfg.username@,
        cfg.password@,
    ) + spec_hostname_phase(cfg.hostname@) + spec_edition_phase(cfg.edition, cfg.username@)
        + spec_bootloader_phase(cfg.disk@) + spec_cleanup_phase() + spec_reboot_phase()
}

/// A bind mount of a host interface into the target root.
pub open spec fn is_bind_mount(a: ActionSpec) -> bool {
    match a {
        ActionSpec::Run { program, args, stdin } => program == "mount"@ && args.len() == 3
            && args[0] == "--bind"@,
        _ => false,
    }
}

/// A command run inside the target root through the chroot mechanism.
pub open spec fn is_run_in_target(a: ActionSpec) -> bool {
    match a {
        ActionSpec::RunInTarget { argv, stdin } => true,
        _ => false,
    }
}

/// An invocation of one of the two partitioning tools.
pub open spec fn is_partition_step(a: ActionSpec) -> bool {
    match a {
        ActionSpec::Run { program, args, stdin } => program == "cfdisk"@ || program == "sfdisk"@,
        _ => false,
    }
}

/// The mount point a mount action establishes, plain or bind.
pub open spec fn mount_point(a: ActionSpec) -> Option<Seq<char>> {
    match a {
        ActionSpec::Run { program, args, stdin } => if program == "mount"@ && args.len() == 2 {
            Some(args[1])
        } else if program == "mount"@ && args.len() == 3 {
            Some(args[2])
        } else {
            None
        },
        _ => None,
    }
}

/// The mount point an unmount action tears down.
pub open spec fn umount_target(a: ActionSpec) -> Option<Seq<char>> {
    match a {
        ActionSpec::Run { program, args, stdin } => if program == "umount"@ && args.len() == 1 {
            Some(args[0])
        } else {
            None
        },
        _ => None,
    }
}

/// Mount points established by a sequence of actions, in mount order.
pub open spec fn spec_mount_targets_of(s: Seq<ActionSpec>) -> Seq<Seq<char>>
    decreases s.len(),
{
    if s.len() == 0 {
        Seq::empty()
    } else {
        spec_mount_targets_of(s.drop_last()) + match mount_point(s.last()) {
            Some(t) => seq![t],
            None => Seq::<Seq<char>>::empty(),
        }
    }
}

/// One unmount action per target, walking the targets backwards.
pub open spec fn spec_umounts(ts: Seq<Seq<char>>) -> Seq<ActionSpec> {
    Seq::new(
        ts.len(),
        |j: int|
            ActionSpec::Run {
                program: "umount"@,
                args: seq![ts[ts.len() - 1 - j]],
                stdin: None,
            },
    )
}

/// The cleanup owed after performing these actions: unmount everything
/// they mounted, in reverse order of mounting.
pub open spec fn spec_cleanup_plan(s: Seq<ActionSpec>) -> Seq<ActionSpec> {
    spec_umounts(spec_mount_targets_of(s))
}

/// Law: the cleanup of a performed prefix holds exactly one unmount per
/// mount the prefix made, and walks the mount targets in reverse order.
pub proof fn lemma_cleanup_reverses_mounts(s: Seq<ActionSpec>)
    ensures
        spec_cleanup_plan(s).len() == spec_mount_targets_of(s).len(),
        forall|j: int|
            0 <= j < spec_cleanup_plan(s).len() ==> umount_target(#[trigger] spec_cleanup_plan(s)[j])
                == Some(
                spec_mount_targets_of(s)[spec_mount_targets_of(s).len() - 1 - j],
            ),
{
}

/// Build the unmount actions owed after the first `count` actions of a
/// partially performed plan, so that a failure after mounting can still
/// tear the mounts down, newest first, before the error propagates.
pub fn cleanup_plan(performed: &Vec<Action>, count: usize) -> (r: Vec<Action>)
    requires
        count <= performed@.len(),
    ensures
        plan_view(r@) == spec_cleanup_plan(plan_view(performed@).take(count as int)),
{
    let mount_name = "mount".to_owned();
    let mut targets: Vec<String> = Vec::new();
    let mut i: usize = 0;
    while i < count
        invariant
            i <= count <= performed@.len(),
            mount_name@ == "mount"@,
            views_of(targets@) == spec_mount_targets_of(plan_view(performed@).take(i as int)),
        decreases count - i,
    {
        let ghost s = plan_view(performed@);
        let ghost before = targets@;
        let a = &performed[i];
        match a {
            Action::Run { program, args, stdin } => {
                if *program == mount_name && args.len() == 2 {
                    targets.push(args[1].clone());
                } else if *program == mount_name && args.len() == 3 {
                    targets.push(args[2].clone());
                }
            },
            _ => {},
        }
        proof {
            assert(s.take(i + 1).drop_last() =~= s.take(i as int));
            assert(s.take(i + 1).last() == a@);
            assert(views_of(targets@) =~= spec_mount_targets_of(s.take(i + 1)));
        }
        i = i + 1;
    }
    let k = targets.len();
    let mut r: Vec<Action> = Vec::new();
    let mut j: usize = 0;
    while j < k
        invariant
            j <= k,
            k == targets@.len(),
            views_of(targets@) == spec_mount_targets_of(
                plan_view(performed@).take(count as int),
            ),
            plan_view(r@) == spec_umounts(views_of(targets@)).take(j as int),
        decreases k - j,
    {
        let t = targets[k - 1 - j].clone();
        proof {
            assert(plan_view(r@).len() == j as int);
            assert(r@.len() == j as int);
        }
        let act = Action::Run { program: "umount".to_owned(), args: strv1(t), stdin: None };
        let ghost av = act@;
        r.push(act);
        proof {
            let ts = views_of(targets@);
            assert(ts.len() == k);
            assert(ts[k as int - 1 - j] == targets@[k as int - 1 - j]@);
            assert(r@[j as int]@ == av);
            assert(av == spec_umounts(ts)[j as int]);
            assert(plan_view(r@) =~~= spec_umounts(ts).take(j + 1));
        }
        j = j + 1;
    }
    proof {
        assert(spec_umounts(views_of(targets@)).take(k as int) =~= spec_umounts(
            views_of(targets@),
        ));
    }
    r
}

/// Law: the pipeline's phase order is fixed.  Repository configuration
/// opens the plan and precedes the partitioning step; every bind mount
/// stands before every command run in the target root; the six mounts
/// appear in the order root, boot, dev, proc, sys, run, and the six
/// unmounts in exactly the reverse order; the reboot is the last action.
pub proof fn lemma_phase_order(cfg: Configuration)
    requires
        cfg.wf(),
    ensures
        ({
            let p = spec_plan(cfg);
            let n = p.len() as int;
            &&& n >= 37
            &&& p[0] == (ActionSpec::WriteFile {
                path: "/etc/apt/sources.list"@,
                content: spec_sources_content(cfg.branch),
            })
            &&& is_partition_step(p[2])
            &&& forall|i: int| 0 <= i < n && is_run_in_target(#[trigger] p[i]) ==> 17 <= i
            &&& mount_point(p[5]) == Some("/mnt"@)
            &&& mount_point(p[7]) == Some("/mnt/boot"@)
            &&& is_bind_mount(p[10]) && mount_point(p[10]) == Some("/mnt/dev"@)
            &&& is_bind_mount(p[12]) && mount_point(p[12]) == Some("/mnt/proc"@)
            &&& is_bind_mount(p[14]) && mount_point(p[14]) == Some("/mnt/sys"@)
            &&& is_bind_mount(p[16]) && mount_point(p[16]) == Some("/mnt/run"@)
            &&& umount_target(p[n - 10]) == Some("/mnt/run"@)
            &&& umount_target(p[n - 9]) == Some("/mnt/sys"@)
            &&& umount_target(p[n - 8]) == Some("/mnt/proc"@)
            &&& umount_target(p[n - 7]) == Some("/mnt/dev"@)
            &&& umount_target(p[n - 6]) == Some("/mnt/boot"@)
            &&& umount_target(p[n - 5]) == Some("/mnt"@)
            &&& p[n - 1] == (ActionSpec::Run {
                program: "reboot"@,
                args: Seq::<Seq<char>>::empty(),
                stdin: None,
            })
        }),
{
    let p = spec_plan(cfg);
    let pre = spec_repo_phase(cfg.branch) + spec_partition_phase(cfg.manual_partition, cfg.disk@)
        + spec_format_phase(cfg.filesystem, cfg.disk@) + spec_mount_phase(cfg.disk@)
        + spec_bootstrap_phase(cfg.branch) + spec_bind_phase() + spec_user_phase(
        cfg.username@,
        cfg.password@,
    ) + spec_hostname_phase(cfg.hostname@);
    let e = spec_edition_phase(cfg.edition, cfg.username@);
    let suf = spec_bootloader_phase(cfg.disk@) + spec_cleanup_phase() + spec_reboot_phase();
    assert(p =~= pre + e + suf);
    assert(pre.len() == 23);
    assert(suf.len() == 12);
    assert forall|i: int| 0 <= i < p.len() && is_run_in_target(#[trigger] p[i]) implies 17 <= i by {
        if i < 23 {
            assert(p[i] == pre[i]);
            if i < 2 {
                assert(pre[i] == spec_repo_phase(cfg.branch)[i]);
            } else if i == 2 {
                assert(pre[i] == spec_partition_phase(cfg.manual_partition, cfg.disk@)[0]);
            } else if i == 3 {
                assert(pre[i] == spec_format_phase(cfg.filesystem, cfg.disk@)[0]);
            } else if i < 8 {
                assert(pre[i] == spec_mount_phase(cfg.disk@)[i - 4]);
            } else if i == 8 {
                assert(pre[i] == spec_bootstrap_phase(cfg.branch)[0]);
            } else if i < 17 {
                assert(pre[i] == spec_bind_phase()[i - 9]);
            }
        }
    }
}

/// Build the ordered installation plan for a frozen configuration.
pub fn installation_plan(cfg: &Configuration) -> (plan: Vec<Action>)
    requires
        cfg.wf(),
    ensures
        plan_view(plan@) == spec_plan(*cfg),
{
    let mut plan = repo_phase(cfg.branch);
    let mut rest = partition_phase(cfg.manual_partition, cfg.disk.as_str());
    let ghost (a, b) = (plan@, rest@);
    plan.append(&mut rest);
    proof {
        lemma_plan_view_add(a, b);
    }
    let mut rest = format_phase(cfg.filesystem, cfg.disk.as_str());
    let ghost (a, b) = (plan@, rest@);
    plan.append(&mut rest);
    proof {
        lemma_plan_view_add(a, b);
    }
    let mut rest = mount_phase(cfg.disk.as_str());
    let ghost (a, b) = (plan@, rest@);
    plan.append(&mut rest);
    proof {
        lemma_plan_view_add(a, b);
    }
    let mut rest = bootstrap_phase(cfg.branch);
    let ghost (a, b) = (plan@, rest@);
    plan.append(&mut rest);
    proof {
        lemma_plan_view_add(a, b);
    }
    let mut rest = bind_phase();
    let ghost (a, b) = (plan@, rest@);
    plan.append(&mut rest);
    proof {
        lemma_plan_view_add(a, b);
    }
    let mut rest = user_phase(cfg.username.as_str(), cfg.password.as_str());
    let ghost (a, b) = (plan@, rest@);
    plan.append(&mut rest);
    proof {
        lemma_plan_view_add(a, b);
    }
    let mut rest = hostname_phase(cfg.hostname.as_str());
    let ghost (a, b) = (plan@, rest@);
    plan.append(&mut rest);
    proof {
        lemma_plan_view_add(a, b);
    }
    let mut rest = edition_phase(cfg.edition, cfg.username.as_str());
    let ghost (a, b) = (plan@, rest@);
    plan.append(&mut rest);
    proof {
        lemma_plan_view_add(a, b);
    }
    let mut rest = bootloader_phase(cfg.disk.as_str());
    let ghost (a, b) = (plan@, rest@);
    plan.append(&mut rest);
    proof {
        lemma_plan_view_add(a, b);
    }
    let mut rest = cleanup_phase();
    let ghost (a, b) = (plan@, rest@);
    plan.append(&mut rest);
    proof {
        lemma_plan_view_add(a, b);
    }
    let mut rest = reboot_phase();
    let ghost (a, b) = (plan@, rest@);
    plan.append(&mut rest);
    proof {
        lemma_plan_view_add(a, b);
    }
    plan
}

} // verus!
