use hackeros_installer::action::{Action, marks_executable};
use hackeros_installer::config::{Branch, Configuration, Edition, Filesystem};
use hackeros_installer::plan::{cleanup_plan, edition_phase, installation_plan};
use hackeros_installer::run::PipelineRun;

fn gnome_config() -> Configuration {
    Configuration {
        username: "alice".to_string(),
        password: "x".to_string(),
        hostname: "hackeros".to_string(),
        edition: Edition::Gnome,
        branch: Branch::Testing,
        filesystem: Filesystem::Ext4,
        manual_partition: false,
        disk: "/dev/sda".to_string(),
    }
}

fn run_in_target_argvs(plan: &[Action]) -> Vec<Vec<String>> {
    plan.iter()
        .filter_map(|a| match a {
            Action::RunInTarget { argv, .. } => Some(argv.clone()),
            _ => None,
        })
        .collect()
}

#[test]
fn gnome_scenario_produces_the_expected_plan() {
    let plan = installation_plan(&gnome_config());
    match &plan[0] {
        Action::WriteFile { path, content } => {
            assert_eq!(path, "/etc/apt/sources.list");
            assert_eq!(content, "deb http://deb.debian.org/debian forky main");
        },
        other => panic!("expected the package-source write first, got {:?}", other),
    }
    match &plan[1] {
        Action::Run { program, args, .. } => {
            assert_eq!(program, "apt");
            assert_eq!(args, &["update".to_string()]);
        },
        other => panic!("expected the index refresh second, got {:?}", other),
    }
    match &plan[2] {
        Action::Run { program, args, stdin } => {
            assert_eq!(program, "sfdisk");
            assert_eq!(args, &["/dev/sda".to_string()]);
            assert!(stdin.as_deref().unwrap().contains("label: gpt"));
        },
        other => panic!("expected the automated partitioner third, got {:?}", other),
    }
    match &plan[3] {
        Action::Run { program, args, .. } => {
            assert_eq!(program, "mkfs.ext4");
            assert_eq!(args, &["/dev/sda2".to_string()]);
        },
        other => panic!("expected the ext4 formatter, got {:?}", other),
    }
    let installs = run_in_target_argvs(&plan);
    assert!(
        installs.iter().any(|argv| argv
            == &["apt", "install", "-y", "gnome", "gdm3"].map(String::from).to_vec()),
        "the edition phase must install gnome gdm3"
    );
    match plan.last().unwrap() {
        Action::Run { program, args, .. } => {
            assert_eq!(program, "reboot");
            assert!(args.is_empty());
        },
        other => panic!("expected the reboot last, got {:?}", other),
    }
}

#[test]
fn manual_partitioning_invokes_the_interactive_tool() {
    let mut cfg = gnome_config();
    cfg.manual_partition = true;
    let plan = installation_plan(&cfg);
    match &plan[2] {
        Action::Run { program, args, stdin } => {
            assert_eq!(program, "cfdisk");
            assert_eq!(args, &["/dev/sda".to_string()]);
            assert!(stdin.is_none());
        },
        other => panic!("expected the interactive partitioner, got {:?}", other),
    }
}

#[test]
fn zfs_and_btrfs_map_to_their_formatters() {
    let mut cfg = gnome_config();
    cfg.filesystem = Filesystem::Btrfs;
    let plan = installation_plan(&cfg);
    match &plan[3] {
        Action::Run { program, .. } => assert_eq!(program, "mkfs.btrfs"),
        other => panic!("expected mkfs.btrfs, got {:?}", other),
    }
    cfg.filesystem = Filesystem::Zfs;
    let plan = installation_plan(&cfg);
    match &plan[3] {
        Action::Run { program, args, .. } => {
            assert_eq!(program, "zpool");
            assert_eq!(args[0], "create");
            assert_eq!(args.last().unwrap(), "/dev/sda2");
        },
        other => panic!("expected zpool create, got {:?}", other),
    }
}

#[test]
fn unmounts_reverse_the_mount_order() {
    let plan = installation_plan(&gnome_config());
    let mounts: Vec<String> = plan
        .iter()
        .filter_map(|a| match a {
            Action::Run { program, args, .. } if program == "mount" => {
                Some(args.last().unwrap().clone())
            },
            _ => None,
        })
        .collect();
    let unmounts: Vec<String> = plan
        .iter()
        .filter_map(|a| match a {
            Action::Run { program, args, .. } if program == "umount" => Some(args[0].clone()),
            _ => None,
        })
        .collect();
    assert_eq!(
        mounts,
        ["/mnt", "/mnt/boot", "/mnt/dev", "/mnt/proc", "/mnt/sys", "/mnt/run"]
            .map(String::from)
            .to_vec()
    );
    let mut reversed = mounts.clone();
    reversed.reverse();
    assert_eq!(unmounts, reversed);
}

#[test]
fn binds_precede_every_target_root_command() {
    let plan = installation_plan(&gnome_config());
    let last_bind = plan
        .iter()
        .rposition(|a| match a {
            Action::Run { program, args, .. } => program == "mount" && args.first().map(
                |s| s.as_str(),
            ) == Some("--bind"),
            _ => false,
        })
        .unwrap();
    let first_chroot = plan
        .iter()
        .position(|a| matches!(a, Action::RunInTarget { .. }))
        .unwrap();
    assert!(last_bind < first_chroot);
}

#[test]
fn user_values_travel_without_a_shell() {
    let plan = installation_plan(&gnome_config());
    let argvs = run_in_target_argvs(&plan);
    assert!(argvs.iter().any(|argv| argv
        == &["useradd", "-m", "-G", "sudo", "alice"].map(String::from).to_vec()));
    let chpasswd = plan
        .iter()
        .find_map(|a| match a {
            Action::RunInTarget { argv, stdin } if argv == &["chpasswd".to_string()] => {
                stdin.clone()
            },
            _ => None,
        })
        .expect("chpasswd must be fed over stdin");
    assert_eq!(chpasswd, "alice:x");
    let sudoers = plan
        .iter()
        .find_map(|a| match a {
            Action::WriteFile { path, content } if path == "/mnt/etc/sudoers.d/alice" => {
                Some(content.clone())
            },
            _ => None,
        })
        .expect("a sudoers drop-in must be written");
    assert_eq!(sudoers, "alice ALL=(ALL) ALL\n");
}

#[test]
fn hostname_is_written_into_the_target() {
    let plan = installation_plan(&gnome_config());
    assert!(plan.iter().any(|a| match a {
        Action::WriteFile { path, content } => path == "/mnt/etc/hostname"
            && content == "hackeros",
        _ => false,
    }));
}

#[test]
fn hydra_clones_and_copies_without_package_installs() {
    let seg = edition_phase(Edition::Hydra, "alice");
    assert_eq!(seg.len(), 3);
    assert!(matches!(&seg[0], Action::CopyDir { .. }));
    match &seg[1] {
        Action::CloneRepo { url, dest } => {
            assert_eq!(url, "https://github.com/HackerOS-Linux-System/hydra-look-and-feel.git");
            assert_eq!(dest, "/tmp/hydra-look-and-feel");
        },
        other => panic!("expected the repository clone, got {:?}", other),
    }
    match &seg[2] {
        Action::CopyDir { src, dest } => {
            assert_eq!(src, "/tmp/hydra-look-and-feel/files/");
            assert_eq!(dest, "/mnt/");
        },
        other => panic!("expected the recursive copy, got {:?}", other),
    }
    assert!(
        !seg.iter().any(|a| matches!(a, Action::RunInTarget { .. })),
        "the edition step itself must not invoke the package manager"
    );
}

#[test]
fn blue_fetches_mark_binaries_executable_but_not_desktop_entries() {
    let seg = edition_phase(Edition::Blue, "alice");
    let mut saw_binary = false;
    let mut saw_desktop = false;
    for a in &seg {
        if let Action::Fetch { dest, executable, .. } = a {
            if dest.ends_with(".desktop") {
                assert!(!executable, "{dest} must not be marked executable");
                saw_desktop = true;
            } else {
                assert!(*executable, "{dest} must be marked executable");
                saw_binary = true;
            }
        }
    }
    assert!(saw_binary && saw_desktop);
    assert!(seg.iter().any(|a| match a {
        Action::CreateDir { path } => path == "/mnt/home/alice/.hackeros/Blue-Environment",
        _ => false,
    }));
}

#[test]
fn marking_executable_follows_the_destination_shape() {
    assert!(marks_executable("/mnt/usr/bin/hammer"));
    assert!(!marks_executable("/mnt/usr/share/wayland-sessions/a.desktop"));
    assert!(!marks_executable("/mnt/home/alice/"));
    assert!(marks_executable("desktop"));
}

#[test]
fn failure_after_mounting_still_owes_the_unmounts_newest_first() {
    let plan = installation_plan(&gnome_config());
    let cleanup = cleanup_plan(&plan, 17);
    let targets: Vec<String> = cleanup
        .iter()
        .map(|a| match a {
            Action::Run { program, args, .. } => {
                assert_eq!(program, "umount");
                args[0].clone()
            },
            other => panic!("cleanup holds only unmounts, got {:?}", other),
        })
        .collect();
    assert_eq!(
        targets,
        ["/mnt/run", "/mnt/sys", "/mnt/proc", "/mnt/dev", "/mnt/boot", "/mnt"]
            .map(String::from)
            .to_vec()
    );
    assert!(cleanup_plan(&plan, 4).is_empty(), "nothing mounted, nothing to unmount");
}

#[test]
fn a_failing_action_halts_the_run_before_reboot() {
    let plan = installation_plan(&gnome_config());
    let total = plan.len();
    let mut run = PipelineRun::new(plan);
    assert!(run.current().is_some());
    run.advance(true);
    run.advance(true);
    assert!(run.current().is_some());
    run.advance(false);
    assert!(run.has_failed());
    assert!(run.current().is_none(), "no action after a failure, reboot included");
    assert!(run.next < total, "the run stopped early");
}

#[test]
fn a_clean_run_hands_out_every_action_in_order() {
    let plan = installation_plan(&gnome_config());
    let total = plan.len();
    let mut run = PipelineRun::new(plan);
    let mut handed = 0;
    while run.current().is_some() {
        handed += 1;
        run.advance(true);
    }
    assert_eq!(handed, total);
    assert!(!run.has_failed());
}
