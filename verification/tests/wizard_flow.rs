use hackeros_installer::config::{Branch, Edition, Filesystem, branch_codename, default_hostname};
use hackeros_installer::render::{branch_label, edition_label, filesystem_label,
    partition_mode_label, preview_image, stage_title};
use hackeros_installer::wizard::{InputEvent, Stage, WizardState, finalize, handle_char_input,
    handle_down, handle_enter, handle_event, handle_quit, handle_up, new_wizard, option_count,
    take_preview};

fn type_text(state: &mut WizardState, text: &str) {
    for c in text.chars() {
        handle_char_input(state, c);
    }
}

/// Walk the wizard up to the edition stage with the given free-text inputs.
fn reach_edition_stage(username: &str, password: &str, hostname: &str) -> WizardState {
    let mut s = new_wizard();
    handle_enter(&mut s);
    type_text(&mut s, username);
    handle_enter(&mut s);
    type_text(&mut s, password);
    handle_enter(&mut s);
    type_text(&mut s, hostname);
    handle_enter(&mut s);
    assert_eq!(s.stage, Stage::Edition);
    s
}

fn select_index(state: &mut WizardState, i: usize) {
    handle_up(state);
    for _ in 0..i {
        handle_down(state);
    }
    handle_enter(state);
}

#[test]
fn welcome_advances_unconditionally() {
    let mut s = new_wizard();
    assert_eq!(s.stage, Stage::Welcome);
    handle_enter(&mut s);
    assert_eq!(s.stage, Stage::Username);
}

#[test]
fn empty_username_does_not_advance() {
    let mut s = new_wizard();
    handle_enter(&mut s);
    handle_enter(&mut s);
    assert_eq!(s.stage, Stage::Username);
    type_text(&mut s, "alice");
    handle_enter(&mut s);
    assert_eq!(s.stage, Stage::Password);
}

#[test]
fn empty_password_does_not_advance() {
    let mut s = new_wizard();
    handle_enter(&mut s);
    type_text(&mut s, "alice");
    handle_enter(&mut s);
    handle_enter(&mut s);
    assert_eq!(s.stage, Stage::Password);
}

#[test]
fn empty_disk_does_not_advance() {
    let mut s = reach_edition_stage("alice", "x", "host");
    select_index(&mut s, 1);
    select_index(&mut s, 1);
    select_index(&mut s, 1);
    select_index(&mut s, 0);
    assert_eq!(s.stage, Stage::Disk);
    handle_enter(&mut s);
    assert_eq!(s.stage, Stage::Disk);
    type_text(&mut s, "/dev/sda");
    handle_enter(&mut s);
    assert_eq!(s.stage, Stage::Summary);
}

#[test]
fn blank_hostname_substitutes_default() {
    let mut s = new_wizard();
    handle_enter(&mut s);
    type_text(&mut s, "alice");
    handle_enter(&mut s);
    type_text(&mut s, "x");
    handle_enter(&mut s);
    assert_eq!(s.stage, Stage::Hostname);
    handle_enter(&mut s);
    assert_eq!(s.hostname, "hackeros");
    assert_eq!(s.hostname, default_hostname());
    assert_eq!(s.stage, Stage::Edition);
}

#[test]
fn typed_hostname_is_kept() {
    let mut s = new_wizard();
    handle_enter(&mut s);
    type_text(&mut s, "alice");
    handle_enter(&mut s);
    type_text(&mut s, "x");
    handle_enter(&mut s);
    type_text(&mut s, "mybox");
    handle_enter(&mut s);
    assert_eq!(s.hostname, "mybox");
}

#[test]
fn list_confirmation_follows_positional_table() {
    let mut s = reach_edition_stage("alice", "x", "h");
    handle_down(&mut s);
    handle_down(&mut s);
    handle_down(&mut s);
    handle_enter(&mut s);
    assert_eq!(s.edition, Some(Edition::Blue));
    assert_eq!(s.stage, Stage::Branch);
    handle_down(&mut s);
    handle_enter(&mut s);
    assert_eq!(s.branch, Some(Branch::Testing));
    handle_down(&mut s);
    handle_down(&mut s);
    handle_enter(&mut s);
    assert_eq!(s.filesystem, Some(Filesystem::Zfs));
    handle_down(&mut s);
    handle_enter(&mut s);
    assert!(s.manual_partition);
}

#[test]
fn list_confirmation_with_unset_cursor_is_a_no_op() {
    let mut s = reach_edition_stage("alice", "x", "h");
    assert_eq!(s.cursor, None);
    handle_enter(&mut s);
    assert_eq!(s.stage, Stage::Edition);
    assert_eq!(s.edition, None);
}

#[test]
fn transitions_reset_cursor_and_render_reads_do_not_mutate() {
    let mut s = reach_edition_stage("alice", "x", "h");
    assert_eq!(s.cursor, None);
    assert_eq!(s.highlighted_index(), 0);
    assert_eq!(s.cursor, None, "reading the highlight must not set the cursor");
    handle_down(&mut s);
    handle_enter(&mut s);
    assert_eq!(s.stage, Stage::Branch);
    assert_eq!(s.cursor, None);
}

#[test]
fn cursor_clamps_at_both_ends() {
    let mut s = reach_edition_stage("alice", "x", "h");
    select_index(&mut s, 0);
    assert_eq!(s.stage, Stage::Branch);
    for _ in 0..10 {
        handle_down(&mut s);
    }
    assert_eq!(s.cursor, Some(2), "three options clamp the cursor at 2");
    for _ in 0..10 {
        handle_up(&mut s);
    }
    assert_eq!(s.cursor, Some(0));
}

#[test]
fn option_counts_match_the_lists() {
    assert_eq!(option_count(Stage::Edition), 8);
    assert_eq!(option_count(Stage::Branch), 3);
    assert_eq!(option_count(Stage::Filesystem), 3);
    assert_eq!(option_count(Stage::PartitionMode), 2);
    assert_eq!(option_count(Stage::Username), 0);
}

#[test]
fn branch_codenames_are_fixed() {
    assert_eq!(branch_codename(Branch::Stable), "trixie");
    assert_eq!(branch_codename(Branch::Testing), "forky");
    assert_eq!(branch_codename(Branch::Unstable), "sid");
}

#[test]
fn selecting_an_edition_raises_the_preview_hint_once() {
    let mut s = reach_edition_stage("alice", "x", "h");
    assert!(!s.preview);
    handle_up(&mut s);
    handle_enter(&mut s);
    assert!(s.preview);
    assert!(take_preview(&mut s));
    assert!(!take_preview(&mut s));
    assert_eq!(preview_image(Edition::Official), "plasma.png");
    assert_eq!(preview_image(Edition::Gnome), "gnome.png");
}

#[test]
fn quit_on_welcome_leaves_no_configuration_behind() {
    let mut s = new_wizard();
    handle_quit(&mut s);
    assert!(s.quit);
    assert_eq!(s.stage, Stage::Welcome);
    assert!(finalize(&s).is_none());
}

#[test]
fn events_drive_the_same_transitions() {
    let mut s = new_wizard();
    handle_event(&mut s, InputEvent::Confirm);
    handle_event(&mut s, InputEvent::Character('b'));
    handle_event(&mut s, InputEvent::Character('o'));
    handle_event(&mut s, InputEvent::Character('b'));
    assert_eq!(s.username, "bob");
    handle_event(&mut s, InputEvent::Confirm);
    assert_eq!(s.stage, Stage::Password);
    handle_event(&mut s, InputEvent::Quit);
    assert!(s.quit);
}

#[test]
fn finalize_emits_the_frozen_configuration() {
    let mut s = reach_edition_stage("alice", "secret", "");
    assert_eq!(s.hostname, "hackeros");
    select_index(&mut s, 1);
    select_index(&mut s, 1);
    select_index(&mut s, 1);
    select_index(&mut s, 0);
    type_text(&mut s, "/dev/sda");
    handle_enter(&mut s);
    assert_eq!(s.stage, Stage::Summary);
    assert!(finalize(&s).is_none());
    handle_enter(&mut s);
    assert_eq!(s.stage, Stage::Complete);
    let cfg = finalize(&s).expect("complete wizard must emit a configuration");
    assert_eq!(cfg.username, "alice");
    assert_eq!(cfg.password, "secret");
    assert_eq!(cfg.hostname, "hackeros");
    assert_eq!(cfg.edition, Edition::Gnome);
    assert_eq!(cfg.branch, Branch::Testing);
    assert_eq!(cfg.filesystem, Filesystem::Ext4);
    assert!(!cfg.manual_partition);
    assert_eq!(cfg.disk, "/dev/sda");
}

#[test]
fn render_descriptions_are_fixed() {
    assert_eq!(stage_title(Stage::Edition), "Select Edition");
    assert_eq!(stage_title(Stage::Branch), "Select Debian Branch");
    assert_eq!(edition_label(1), "Gnome (GNOME + GDM3)");
    assert_eq!(branch_label(2), "Unstable (sid)");
    assert_eq!(filesystem_label(2), "Zfs");
    assert_eq!(partition_mode_label(1), "Manual Partitioning");
}
