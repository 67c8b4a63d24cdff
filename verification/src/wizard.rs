//! Wizard state machine: an ordered sequence of input-collection stages,
//! each validated before the cursor may advance, ending in a frozen
//! [`Configuration`] for the installation planner.

use vstd::prelude::*;
use crate::config::{Branch, Configuration, Edition, Filesystem, default_hostname,
    spec_default_hostname};

verus! {

/// One screen of the wizard's linear input sequence, plus the terminal
/// state reached after the summary is confirmed.
#[derive(Clone, Copy, PartialEq, Eq, Structural, Debug)]
pub enum Stage {
    Welcome,
    Username,
    Password,
    Hostname,
    Edition,
    Branch,
    Filesystem,
    PartitionMode,
    Disk,
    Summary,
    Complete,
}

/// Position of a stage in the fixed order.
pub open spec fn stage_index(s: Stage) -> int {
    match s {
        Stage::Welcome => 0,
        Stage::Username => 1,
        Stage::Password => 2,
        Stage::Hostname => 3,
        Stage::Edition => 4,
        Stage::Branch => 5,
        Stage::Filesystem => 6,
        Stage::PartitionMode => 7,
        Stage::Disk => 8,
        Stage::Summary => 9,
        Stage::Complete => 10,
    }
}

/// How many options a list stage offers; zero on every other stage.
pub open spec fn spec_option_count(s: Stage) -> usize {
    match s {
        Stage::Edition => 8,
        Stage::Branch => 3,
        Stage::Filesystem => 3,
        Stage::PartitionMode => 2,
        _ => 0,
    }
}

pub fn option_count(s: Stage) -> (r: usize)
    ensures
        r == spec_option_count(s),
{
    match s {
        Stage::Edition => 8,
        Stage::Branch => 3,
        Stage::Filesystem => 3,
        Stage::PartitionMode => 2,
        _ => 0,
    }
}

pub open spec fn is_list_stage(s: Stage) -> bool {
    spec_option_count(s) > 0
}

/// Fixed positional table of the edition list stage.
pub open spec fn spec_edition_at(i: int) -> Edition {
    if i == 0 {
        Edition::Official
    } else if i == 1 {
        Edition::Gnome
    } else if i == 2 {
        Edition::Xfce
    } else if i == 3 {
        Edition::Blue
    } else if i == 4 {
        Edition::Hydra
    } else if i == 5 {
        Edition::Cybersecurity
    } else if i == 6 {
        Edition::Wayfire
    } else {
        Edition::Atomic
    }
}

pub fn edition_at(i: usize) -> (r: Edition)
    requires
        i < 8,
    ensures
        r == spec_edition_at(i as int),
{
    if i == 0 {
        Edition::Official
    } else if i == 1 {
        Edition::Gnome
    } else if i == 2 {
        Edition::Xfce
    } else if i == 3 {
        Edition::Blue
    } else if i == 4 {
        Edition::Hydra
    } else if i == 5 {
        Edition::Cybersecurity
    } else if i == 6 {
        Edition::Wayfire
    } else {
        Edition::Atomic
    }
}

/// Fixed positional table of the branch list stage.
pub open spec fn spec_branch_at(i: int) -> Branch {
    if i == 0 {
        Branch::Stable
    } else if i == 1 {
        Branch::Testing
    } else {
        Branch::Unstable
    }
}

pub fn branch_at(i: usize) -> (r: Branch)
    requires
        i < 3,
    ensures
        r == spec_branch_at(i as int),
{
    if i == 0 {
        Branch::Stable
    } else if i == 1 {
        Branch::Testing
    } else {
        Branch::Unstable
    }
}

/// Fixed positional table of the filesystem list stage.
pub open spec fn spec_filesystem_at(i: int) -> Filesystem {
    if i == 0 {
        Filesystem::Btrfs
    } else if i == 1 {
        Filesystem::Ext4
    } else {
        Filesystem::Zfs
    }
}

pub fn filesystem_at(i: usize) -> (r: Filesystem)
    requires
        i < 3,
    ensures
        r == spec_filesystem_at(i as int),
{
    if i == 0 {
        Filesystem::Btrfs
    } else if i == 1 {
        Filesystem::Ext4
    } else {
        Filesystem::Zfs
    }
}

/// Discrete user events the wizard consumes.
#[derive(Clone, Copy, PartialEq, Eq, Structural, Debug)]
pub enum InputEvent {
    Confirm,
    Up,
    Down,
    Character(char),
    Quit,
}

/// Mutable wizard state: the stage cursor, the accumulated choices, the
/// per-stage selection cursor, the one-shot preview hint and the abort flag.
pub struct WizardState {
    pub stage: Stage,
    pub username: String,
    pub password: String,
    pub hostname: String,
    pub edition: Option<Edition>,
    pub branch: Option<Branch>,
    pub filesystem: Option<Filesystem>,
    pub manual_partition: bool,
    pub disk: String,
    pub cursor: Option<usize>,
    pub preview: bool,
    pub quit: bool,
}

impl WizardState {
    /// Stages already passed have their fields filled, and a set selection
    /// cursor is always in range for the current stage's option list.
    pub open spec fn wf(self) -> bool {
        &&& stage_index(self.stage) > 1 ==> self.username@.len() > 0
        &&& stage_index(self.stage) > 2 ==> self.password@.len() > 0
        &&& stage_index(self.stage) > 3 ==> self.hostname@.len() > 0
        &&& stage_index(self.stage) > 4 ==> self.edition is Some
        &&& stage_index(self.stage) > 5 ==> self.branch is Some
        &&& stage_index(self.stage) > 6 ==> self.filesystem is Some
        &&& stage_index(self.stage) > 8 ==> self.disk@.len() > 0
        &&& self.cursor is Some ==> self.cursor->0 < spec_option_count(self.stage)
    }

    /// The index a renderer highlights: the stored cursor, or implicitly
    /// the first option while the cursor is unset.  Reading it never
    /// mutates the state.
    pub open spec fn spec_highlighted_index(self) -> usize {
        match self.cursor {
            Some(i) => i,
            None => 0,
        }
    }

    pub fn highlighted_index(&self) -> (r: usize)
        ensures
            r == self.spec_highlighted_index(),
    {
        match self.cursor {
            Some(i) => i,
            None => 0,
        }
    }
}

pub fn new_wizard() -> (s: WizardState)
    ensures
        s.wf(),
        s.stage == Stage::Welcome,
        s.username@.len() == 0,
        s.password@.len() == 0,
        s.hostname@.len() == 0,
        s.edition is None,
        s.branch is None,
        s.filesystem is None,
        !s.manual_partition,
        s.disk@.len() == 0,
        s.cursor is None,
        !s.preview,
        !s.quit,
{
    WizardState {
        stage: Stage::Welcome,
        username: String::new(),
        password: String::new(),
        hostname: String::new(),
        edition: None,
        branch: None,
        filesystem: None,
        manual_partition: false,
        disk: String::new(),
        cursor: None,
        preview: false,
        quit: false,
    }
}

/// What confirming leaves behind, stage by stage.  Every accepted
/// confirmation advances by exactly one stage and unsets the selection
/// cursor; a rejected one changes nothing but the cursor reset.
pub open spec fn confirm_post(pre: WizardState, post: WizardState) -> bool {
    match pre.stage {
        Stage::Welcome => post == WizardState { stage: Stage::Username, cursor: None, ..pre },
        Stage::Username => if pre.username@.len() > 0 {
            post == WizardState { stage: Stage::Password, cursor: None, ..pre }
        } else {
            post == WizardState { cursor: None, ..pre }
        },
        Stage::Password => if pre.password@.len() > 0 {
            post == WizardState { stage: Stage::Hostname, cursor: None, ..pre }
        } else {
            post == WizardState { cursor: None, ..pre }
        },
        Stage::Hostname => {
            &&& post.hostname@ == if pre.hostname@.len() == 0 {
                spec_default_hostname()
            } else {
                pre.hostname@
            }
            &&& post == WizardState {
                hostname: post.hostname,
                stage: Stage::Edition,
                cursor: None,
                ..pre
            }
        },
        Stage::Edition => match pre.cursor {
            Some(i) => post == WizardState {
                edition: Some(spec_edition_at(i as int)),
                preview: true,
                stage: Stage::Branch,
                cursor: None,
                ..pre
            },
            None => post == WizardState { cursor: None, ..pre },
        },
        Stage::Branch => match pre.cursor {
            Some(i) => post == WizardState {
                branch: Some(spec_branch_at(i as int)),
                stage: Stage::Filesystem,
                cursor: None,
                ..pre
            },
            None => post == WizardState { cursor: None, ..pre },
        },
        Stage::Filesystem => match pre.cursor {
            Some(i) => post == WizardState {
                filesystem: Some(spec_filesystem_at(i as int)),
                stage: Stage::PartitionMode,
                cursor: None,
                ..pre
            },
            None => post == WizardState { cursor: None, ..pre },
        },
        Stage::PartitionMode => match pre.cursor {
            Some(i) => post == WizardState {
                manual_partition: i == 1,
                stage: Stage::Disk,
                cursor: None,
                ..pre
            },
            None => post == WizardState { cursor: None, ..pre },
        },
        Stage::Disk => if pre.disk@.len() > 0 {
            post == WizardState { stage: Stage::Summary, cursor: None, ..pre }
        } else {
            post == WizardState { cursor: None, ..pre }
        },
        Stage::Summary => post == WizardState { stage: Stage::Complete, cursor: None, ..pre },
        Stage::Complete => post == WizardState { cursor: None, ..pre },
    }
}

/// Confirmation event: apply the current stage's acceptance rule.
pub fn handle_enter(state: &mut WizardState)
    requires
        old(state).wf(),
    ensures
        final(state).wf(),
        confirm_post(*old(state), *final(state)),
{
    match state.stage {
        Stage::Welcome => {
            state.stage = Stage::Username;
        },
        Stage::Username => {
            if !state.username.as_str().is_empty() {
                state.stage = Stage::Password;
            }
        },
        Stage::Password => {
            if !state.password.as_str().is_empty() {
                state.stage = Stage::Hostname;
            }
        },
        Stage::Hostname => {
            if state.hostname.as_str().is_empty() {
                state.hostname = default_hostname().to_owned();
                proof {
                    reveal_strlit("hackeros");
                }
            }
            state.stage = Stage::Edition;
        },
        Stage::Edition => {
            if let Some(i) = state.cursor {
                state.edition = Some(edition_at(i));
                state.preview = true;
                state.stage = Stage::Branch;
            }
        },
        Stage::Branch => {
            if let Some(i) = state.cursor {
                state.branch = Some(branch_at(i));
                state.stage = Stage::Filesystem;
            }
        },
        Stage::Filesystem => {
            if let Some(i) = state.cursor {
                state.filesystem = Some(filesystem_at(i));
                state.stage = Stage::PartitionMode;
            }
        },
        Stage::PartitionMode => {
            if let Some(i) = state.cursor {
                state.manual_partition = i == 1;
                state.stage = Stage::Disk;
            }
        },
        Stage::Disk => {
            if !state.disk.as_str().is_empty() {
                state.stage = Stage::Summary;
            }
        },
        Stage::Summary => {
            state.stage = Stage::Complete;
        },
        Stage::Complete => {},
    }
    state.cursor = None;
}

/// Relies on `String::push`: appends the given character at the end.
#[verifier::external_body]
fn push_char(s: &mut String, c: char)
    ensures
        final(s)@ == old(s)@.push(c),
{
    s.push(c);
}

/// What a character event leaves behind: appended to the active free-text
/// field, ignored on every other stage.
pub open spec fn char_input_post(pre: WizardState, post: WizardState, c: char) -> bool {
    match pre.stage {
        Stage::Username => {
            &&& post.username@ == pre.username@.push(c)
            &&& post == WizardState { username: post.username, ..pre }
        },
        Stage::Password => {
            &&& post.password@ == pre.password@.push(c)
            &&& post == WizardState { password: post.password, ..pre }
        },
        Stage::Hostname => {
            &&& post.hostname@ == pre.hostname@.push(c)
            &&& post == WizardState { hostname: post.hostname, ..pre }
        },
        Stage::Disk => {
            &&& post.disk@ == pre.disk@.push(c)
            &&& post == WizardState { disk: post.disk, ..pre }
        },
        _ => post == pre,
    }
}

/// Character input event: append to the active free-text field.
pub fn handle_char_input(state: &mut WizardState, c: char)
    requires
        old(state).wf(),
    ensures
        final(state).wf(),
        char_input_post(*old(state), *final(state), c),
{
    match state.stage {
        Stage::Username => push_char(&mut state.username, c),
        Stage::Password => push_char(&mut state.password, c),
        Stage::Hostname => push_char(&mut state.hostname, c),
        Stage::Disk => push_char(&mut state.disk, c),
        _ => {},
    }
}

/// What moving the selection up leaves behind: one step towards the first
/// option, clamped at zero, starting from the implicit highlight.
pub open spec fn nav_up_post(pre: WizardState, post: WizardState) -> bool {
    if is_list_stage(pre.stage) {
        post == WizardState {
            cursor: Some(
                if pre.spec_highlighted_index() > 0 {
                    (pre.spec_highlighted_index() - 1) as usize
                } else {
                    0
                },
            ),
            ..pre
        }
    } else {
        post == pre
    }
}

/// What moving the selection down leaves behind: one step towards the last
/// option, clamped at the option count.
pub open spec fn nav_down_post(pre: WizardState, post: WizardState) -> bool {
    if is_list_stage(pre.stage) {
        post == WizardState {
            cursor: Some(
                if pre.spec_highlighted_index() + 1 < spec_option_count(pre.stage) {
                    (pre.spec_highlighted_index() + 1) as usize
                } else {
                    (spec_option_count(pre.stage) - 1) as usize
                },
            ),
            ..pre
        }
    } else {
        post == pre
    }
}

pub fn handle_up(state: &mut WizardState)
    requires
        old(state).wf(),
    ensures
        final(state).wf(),
        nav_up_post(*old(state), *final(state)),
{
    let count = option_count(state.stage);
    if count > 0 {
        let here = state.highlighted_index();
        state.cursor = Some(if here > 0 { here - 1 } else { 0 });
    }
}

pub fn handle_down(state: &mut WizardState)
    requires
        old(state).wf(),
    ensures
        final(state).wf(),
        nav_down_post(*old(state), *final(state)),
{
    let count = option_count(state.stage);
    if count > 0 {
        let here = state.highlighted_index();
        state.cursor = Some(if here + 1 < count { here + 1 } else { count - 1 });
    }
}

/// Quit event: raise the abort flag; nothing else changes.
pub fn handle_quit(state: &mut WizardState)
    requires
        old(state).wf(),
    ensures
        final(state).wf(),
        *final(state) == (WizardState { quit: true, ..*old(state) }),
{
    state.quit = true;
}

/// What any event leaves behind.
pub open spec fn event_post(pre: WizardState, post: WizardState, e: InputEvent) -> bool {
    match e {
        InputEvent::Confirm => confirm_post(pre, post),
        InputEvent::Up => nav_up_post(pre, post),
        InputEvent::Down => nav_down_post(pre, post),
        InputEvent::Character(c) => char_input_post(pre, post, c),
        InputEvent::Quit => post == WizardState { quit: true, ..pre },
    }
}

/// The wizard's transition function: current state and one event in, next
/// state out.
pub fn handle_event(state: &mut WizardState, e: InputEvent)
    requires
        old(state).wf(),
    ensures
        final(state).wf(),
        event_post(*old(state), *final(state), e),
{
    match e {
        InputEvent::Confirm => handle_enter(state),
        InputEvent::Up => handle_up(state),
        InputEvent::Down => handle_down(state),
        InputEvent::Character(c) => handle_char_input(state, c),
        InputEvent::Quit => handle_quit(state),
    }
}

/// Take the one-shot preview hint: report whether an edition preview is
/// owed and clear the flag.
pub fn take_preview(state: &mut WizardState) -> (r: bool)
    requires
        old(state).wf(),
    ensures
        final(state).wf(),
        r == old(state).preview,
        *final(state) == (WizardState { preview: false, ..*old(state) }),
{
    let r = state.preview;
    state.preview = false;
    r
}

/// Law: confirming a stage that requires non-empty input with an empty
/// field never advances the stage, and changes nothing but the cursor
/// reset.
pub proof fn lemma_empty_input_never_advances(pre: WizardState, post: WizardState)
    requires
        pre.wf(),
        confirm_post(pre, post),
        (pre.stage == Stage::Username && pre.username@.len() == 0)
            || (pre.stage == Stage::Password && pre.password@.len() == 0)
            || (pre.stage == Stage::Disk && pre.disk@.len() == 0),
    ensures
        post.stage == pre.stage,
        post == (WizardState { cursor: None, ..pre }),
{
}

/// Law: confirming a list stage with the selection cursor unset never
/// advances the stage, and changes nothing but the cursor reset.
pub proof fn lemma_unset_cursor_never_advances(pre: WizardState, post: WizardState)
    requires
        pre.wf(),
        confirm_post(pre, post),
        is_list_stage(pre.stage),
        pre.cursor is None,
    ensures
        post.stage == pre.stage,
        post == (WizardState { cursor: None, ..pre }),
{
}

/// Law: confirming the hostname stage with an empty field substitutes the
/// fixed default hostname and advances.
pub proof fn lemma_blank_hostname_defaults(pre: WizardState, post: WizardState)
    requires
        pre.wf(),
        pre.stage == Stage::Hostname,
        pre.hostname@.len() == 0,
        confirm_post(pre, post),
    ensures
        post.hostname@ == spec_default_hostname(),
        post.stage == Stage::Edition,
{
}

/// Law: on a list stage with a set cursor, the value recorded on
/// confirmation is the fixed positional mapping of the chosen index.
pub proof fn lemma_list_confirm_positional(pre: WizardState, post: WizardState, i: usize)
    requires
        pre.wf(),
        confirm_post(pre, post),
        pre.cursor == Some(i),
    ensures
        pre.stage == Stage::Edition ==> post.edition == Some(spec_edition_at(i as int)),
        pre.stage == Stage::Branch ==> post.branch == Some(spec_branch_at(i as int)),
        pre.stage == Stage::Filesystem ==> post.filesystem == Some(spec_filesystem_at(i as int)),
        pre.stage == Stage::PartitionMode ==> post.manual_partition == (i == 1),
{
}

/// Law: every confirmation leaves the selection cursor unset, so each
/// stage is entered unselected; the renderer's implicit highlight of the
/// first option is read through [`WizardState::highlighted_index`], which
/// takes the state by shared reference and so cannot mutate it.
pub proof fn lemma_confirm_resets_cursor(pre: WizardState, post: WizardState)
    requires
        pre.wf(),
        confirm_post(pre, post),
    ensures
        post.cursor is None,
{
}

/// Law: a confirmation advances by at most one stage and never goes back.
pub proof fn lemma_confirm_never_skips(pre: WizardState, post: WizardState)
    requires
        pre.wf(),
        confirm_post(pre, post),
    ensures
        stage_index(pre.stage) <= stage_index(post.stage) <= stage_index(pre.stage) + 1,
{
}

/// Hand off to the pipeline: a frozen configuration exactly when the
/// terminal stage is reached, in which case every field the pipeline
/// consumes is filled and non-empty.
pub fn finalize(state: &WizardState) -> (r: Option<Configuration>)
    requires
        state.wf(),
    ensures
        match r {
            Some(c) => {
                &&& state.stage == Stage::Complete
                &&& c.wf()
                &&& c.username@ == state.username@
                &&& c.password@ == state.password@
                &&& c.hostname@ == state.hostname@
                &&& Some(c.edition) == state.edition
                &&& Some(c.branch) == state.branch
                &&& Some(c.filesystem) == state.filesystem
                &&& c.manual_partition == state.manual_partition
                &&& c.disk@ == state.disk@
            },
            None => state.stage != Stage::Complete,
        },
{
    if let (Stage::Complete, Some(edition), Some(branch), Some(filesystem)) = (
        state.stage,
        state.edition,
        state.branch,
        state.filesystem,
    ) {
        Some(
            Configuration {
                username: state.username.clone(),
                password: state.password.clone(),
                hostname: state.hostname.clone(),
                edition,
                branch,
                filesystem,
                manual_partition: state.manual_partition,
                disk: state.disk.clone(),
            },
        )
    } else {
        None
    }
}

} // verus!

