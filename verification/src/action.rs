//! Provisioning actions: the alphabet the installation planner writes its
//! plan in.  The surrounding binary performs them; the library only ever
//! describes them, so every action is plain data.

use vstd::prelude::*;

verus! {

/// Spec-level value of an action, over character sequences.
#[verifier::ext_equal]
pub enum ActionSpec {
    WriteFile { path: Seq<char>, content: Seq<char> },
    CreateDir { path: Seq<char> },
    Run { program: Seq<char>, args: Seq<Seq<char>>, stdin: Option<Seq<char>> },
    RunInTarget { argv: Seq<Seq<char>>, stdin: Option<Seq<char>> },
    Fetch { url: Seq<char>, dest: Seq<char>, executable: bool },
    CloneRepo { url: Seq<char>, dest: Seq<char> },
    CopyDir { src: Seq<char>, dest: Seq<char> },
    RemoveDir { path: Seq<char> },
    RemoveFile { path: Seq<char> },
}

/// One provisioning step of the installation pipeline.
#[derive(Debug)]
pub enum Action {
    /// Overwrite a file with exactly this content.
    WriteFile { path: String, content: String },
    /// Create a directory and any missing parents.
    CreateDir { path: String },
    /// Run a host command, optionally feeding it standard input.
    Run { program: String, args: Vec<String>, stdin: Option<String> },
    /// Run a command inside the mounted target root.  The argument vector
    /// is passed verbatim to the chroot mechanism, so no shell ever
    /// interprets user-supplied values.
    RunInTarget { argv: Vec<String>, stdin: Option<String> },
    /// Fetch a remote artifact into a local path; `executable` says
    /// whether the file is to be marked executable afterwards.
    Fetch { url: String, dest: String, executable: bool },
    /// Clone a version-control repository into a local path.
    CloneRepo { url: String, dest: String },
    /// Recursively copy a directory tree.
    CopyDir { src: String, dest: String },
    /// Remove a directory tree.
    RemoveDir { path: String },
    /// Remove a single file.
    RemoveFile { path: String },
}

/// Views of a vector of strings.
pub open spec fn views_of(args: Seq<String>) -> Seq<Seq<char>> {
    args.map_values(|s: String| s@)
}

pub open spec fn view_of_opt(s: Option<String>) -> Option<Seq<char>> {
    match s {
        Some(x) => Some(x@),
        None => None,
    }
}

impl View for Action {
    type V = ActionSpec;

    open spec fn view(&self) -> ActionSpec {
        match self {
            Action::WriteFile { path, content } => ActionSpec::WriteFile {
                path: path@,
                content: content@,
            },
            Action::CreateDir { path } => ActionSpec::CreateDir { path: path@ },
            Action::Run { program, args, stdin } => ActionSpec::Run {
                program: program@,
                args: views_of(args@),
                stdin: view_of_opt(*stdin),
            },
            Action::RunInTarget { argv, stdin } => ActionSpec::RunInTarget {
                argv: views_of(argv@),
                stdin: view_of_opt(*stdin),
            },
            Action::Fetch { url, dest, executable } => ActionSpec::Fetch {
                url: url@,
                dest: dest@,
                executable: *executable,
            },
            Action::CloneRepo { url, dest } => ActionSpec::CloneRepo { url: url@, dest: dest@ },
            Action::CopyDir { src, dest } => ActionSpec::CopyDir { src: src@, dest: dest@ },
            Action::RemoveDir { path } => ActionSpec::RemoveDir { path: path@ },
            Action::RemoveFile { path } => ActionSpec::RemoveFile { path: path@ },
        }
    }
}

/// Spec-level value of a whole plan.
pub open spec fn plan_view(s: Seq<Action>) -> Seq<ActionSpec> {
    s.map_values(|a: Action| a@)
}

pub proof fn lemma_plan_view_add(s1: Seq<Action>, s2: Seq<Action>)
    ensures
        plan_view(s1 + s2) == plan_view(s1) + plan_view(s2),
{
    assert(plan_view(s1 + s2) =~= plan_view(s1) + plan_view(s2));
}

/// A fetched file ends up as a desktop-entry file.
pub open spec fn ends_with_desktop(p: Seq<char>) -> bool {
    &&& p.len() >= 8
    &&& p[p.len() - 8] == '.'
    &&& p[p.len() - 7] == 'd'
    &&& p[p.len() - 6] == 'e'
    &&& p[p.len() - 5] == 's'
    &&& p[p.len() - 4] == 'k'
    &&& p[p.len() - 3] == 't'
    &&& p[p.len() - 2] == 'o'
    &&& p[p.len() - 1] == 'p'
}

/// A fetched file is marked executable unless its destination ends in a
/// directory separator or names a desktop-entry file.
pub open spec fn spec_marks_executable(p: Seq<char>) -> bool {
    &&& !(p.len() > 0 && p[p.len() - 1] == '/')
    &&& !ends_with_desktop(p)
}

pub fn marks_executable(path: &str) -> (r: bool)
    ensures
        r == spec_marks_executable(path@),
{
    let n = path.unicode_len();
    if n == 0 {
        return true;
    }
    if path.get_char(n - 1) == '/' {
        return false;
    }
    if n >= 8 {
        let s = n - 8;
        let is_desktop = path.get_char(s) == '.' && path.get_char(s + 1) == 'd' && path.get_char(
            s + 2,
        ) == 'e' && path.get_char(s + 3) == 's' && path.get_char(s + 4) == 'k' && path.get_char(
            s + 5,
        ) == 't' && path.get_char(s + 6) == 'o' && path.get_char(s + 7) == 'p';
        !is_desktop
    } else {
        true
    }
}

/// Build a fetch action; whether the file is to be marked executable is
/// decided here, from the destination path alone.
pub fn fetch_action(url: &str, dest: String) -> (a: Action)
    ensures
        a@ == (ActionSpec::Fetch { url: url@, dest: dest@, executable: spec_marks_executable(dest@) }),
{
    let executable = marks_executable(dest.as_str());
    Action::Fetch { url: url.to_owned(), dest, executable }
}

/// Argument vectors with pinned contents.
pub fn strv1(a: String) -> (r: Vec<String>)
    ensures
        views_of(r@) == seq![a@],
{
    let mut v: Vec<String> = Vec::new();
    v.push(a);
    proof {
        assert(views_of(v@) =~= seq![v@[0]@]);
    }
    v
}

pub fn strv2(a: String, b: String) -> (r: Vec<String>)
    ensures
        views_of(r@) == seq![a@, b@],
{
    let mut v: Vec<String> = Vec::new();
    v.push(a);
    v.push(b);
    proof {
        assert(views_of(v@) =~= seq![v@[0]@, v@[1]@]);
    }
    v
}

pub fn strv3(a: String, b: String, c: String) -> (r: Vec<String>)
    ensures
        views_of(r@) == seq![a@, b@, c@],
{
    let mut v: Vec<String> = Vec::new();
    v.push(a);
    v.push(b);
    v.push(c);
    proof {
        assert(views_of(v@) =~= seq![v@[0]@, v@[1]@, v@[2]@]);
    }
    v
}

pub fn strv4(a: String, b: String, c: String, d: String) -> (r: Vec<String>)
    ensures
        views_of(r@) == seq![a@, b@, c@, d@],
{
    let mut v: Vec<String> = Vec::new();
    v.push(a);
    v.push(b);
    v.push(c);
    v.push(d);
    proof {
        assert(views_of(v@) =~= seq![v@[0]@, v@[1]@, v@[2]@, v@[3]@]);
    }
    v
}

pub fn strv5(a: String, b: String, c: String, d: String, e: String) -> (r: Vec<String>)
    ensures
        views_of(r@) == seq![a@, b@, c@, d@, e@],
{
    let mut v: Vec<String> = Vec::new();
    v.push(a);
    v.push(b);
    v.push(c);
    v.push(d);
    v.push(e);
    proof {
        assert(views_of(v@) =~= seq![v@[0]@, v@[1]@, v@[2]@, v@[3]@, v@[4]@]);
    }
    v
}

} // verus!
