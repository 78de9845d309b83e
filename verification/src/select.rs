//! The selector and switcher: which operating mode the arguments pick, which
//! profile a lookup resolves to, and what an interactive choice means.
//!
//! The surrounding binary carries the decisions out: it writes the chosen
//! path to the switch file, prints the confirmation, and runs the prompt.

use vstd::prelude::*;
use vstd::string::StringExecFns;

use crate::profile::{Profile, ProfileView};

verus! {

/// The operating mode that the command-line arguments select.
#[derive(Debug)]
pub enum Mode {
    /// Report a switch that already happened.
    Confirm,
    /// Switch to the named profile without prompting.
    Direct { name: String },
    /// Prompt for a choice.
    Interactive,
}

/// Chooses among the three modes: the confirmation flag wins over
/// everything, a positional name wins over the prompt.
pub fn decide_mode(profile: Option<String>, success_to_switch: bool) -> (m: Mode)
    ensures
        success_to_switch ==> m is Confirm,
        !success_to_switch && profile is Some ==> m is Direct && m->name@ == profile->Some_0@,
        !success_to_switch && profile is None ==> m is Interactive,
{
    if success_to_switch {
        Mode::Confirm
    } else {
        match profile {
            Some(name) => Mode::Direct { name },
            None => Mode::Interactive,
        }
    }
}

/// Why a selection or switch could not be completed.
#[derive(Debug)]
pub enum SelectError {
    /// Direct mode named a profile that does not exist.
    ProfileNotFound { name: String },
    /// Confirmation mode, but the active-profile variable is unset.
    ActiveDirNotSet,
    /// Confirmation mode, but no profile's path equals the active directory.
    ActiveProfileNotFound,
    /// The prompt answered with a string that is none of the choices.
    SelectionNotFound,
}

impl SelectError {
    /// The diagnostic printed when the switch fails.
    pub fn message(&self) -> (r: String)
        ensures
            self matches SelectError::ProfileNotFound { name } ==> r@ == "Profile "@ + name@
                + " is not found"@,
            self is ActiveDirNotSet ==> r@ == "Failed to get CLAUDE_CONFIG_DIR"@,
            self is ActiveProfileNotFound ==> r@ == "No profile matches CLAUDE_CONFIG_DIR"@,
            self is SelectionNotFound ==> r@ == "Failed to find selected profile"@,
    {
        match self {
            SelectError::ProfileNotFound { name } => {
                let mut r = "Profile ".to_owned();
                r.append(name.as_str());
                r.append(" is not found");
                r
            },
            SelectError::ActiveDirNotSet => "Failed to get CLAUDE_CONFIG_DIR".to_owned(),
            SelectError::ActiveProfileNotFound => "No profile matches CLAUDE_CONFIG_DIR".to_owned(),
            SelectError::SelectionNotFound => "Failed to find selected profile".to_owned(),
        }
    }
}

/// The index of the first profile called `name`, if any.
pub fn find_by_name(profiles: &Vec<Profile>, name: &String) -> (r: Option<usize>)
    ensures
        r matches Some(i) ==> i < profiles@.len() && profiles@[i as int]@.name == name@ && forall|
            j: int,
        | 0 <= j < i ==> profiles@[j]@.name != name@,
        r is None ==> forall|j: int| 0 <= j < profiles@.len() ==> profiles@[j]@.name != name@,
{
    let mut i: usize = 0;
    while i < profiles.len()
        invariant
            i <= profiles@.len(),
            forall|j: int| 0 <= j < i ==> profiles@[j]@.name != name@,
        decreases profiles@.len() - i,
    {
        if profiles[i].name == *name {
            return Some(i);
        }
        i += 1;
    }
    None
}

/// The index of the first profile whose path is `path`, if any.
pub fn find_by_path(profiles: &Vec<Profile>, path: &String) -> (r: Option<usize>)
    ensures
        r matches Some(i) ==> i < profiles@.len() && profiles@[i as int]@.path == path@ && forall|
            j: int,
        | 0 <= j < i ==> profiles@[j]@.path != path@,
        r is None ==> forall|j: int| 0 <= j < profiles@.len() ==> profiles@[j]@.path != path@,
{
    let mut i: usize = 0;
    while i < profiles.len()
        invariant
            i <= profiles@.len(),
            forall|j: int| 0 <= j < i ==> profiles@[j]@.path != path@,
        decreases profiles@.len() - i,
    {
        if profiles[i].path == *path {
            return Some(i);
        }
        i += 1;
    }
    None
}

/// What direct mode writes to the switch file for the profile called
/// `name`: exactly that profile's path, and an error — with nothing to
/// write — when no profile bears the name.
pub fn direct_switch_plan(profiles: &Vec<Profile>, name: String) -> (r: Result<
    String,
    SelectError,
>)
    ensures
        r matches Ok(content) ==> exists|i: int|
            0 <= i < profiles@.len() && profiles@[i]@.name == name@ && content@ == profiles@[i]@.path
                && (forall|j: int| 0 <= j < i ==> profiles@[j]@.name != name@),
        r is Err ==> (r->Err_0 matches SelectError::ProfileNotFound { name: n } && n@ == name@)
            && forall|j: int| 0 <= j < profiles@.len() ==> profiles@[j]@.name != name@,
        (exists|i: int| 0 <= i < profiles@.len() && profiles@[i]@.name == name@) <==> r is Ok,
{
    match find_by_name(profiles, &name) {
        Some(i) => Ok(profiles[i].path.clone()),
        None => Err(SelectError::ProfileNotFound { name }),
    }
}

/// The profile that confirmation mode reports: the first whose path equals
/// the active directory handed over by the environment, and an error when
/// the variable is unset or nothing matches.
pub fn confirm_plan(profiles: &Vec<Profile>, active_dir: Option<String>) -> (r: Result<
    usize,
    SelectError,
>)
    ensures
        r matches Ok(i) ==> i < profiles@.len() && active_dir is Some && profiles@[i as int]@.path
            == active_dir->Some_0@ && forall|j: int| 0 <= j < i ==> profiles@[j]@.path
            != active_dir->Some_0@,
        active_dir is None ==> r == Err::<usize, SelectError>(SelectError::ActiveDirNotSet),
        active_dir matches Some(d) ==> ((exists|i: int|
            0 <= i < profiles@.len() && profiles@[i]@.path == d@) <==> r is Ok),
        r is Err && active_dir is Some ==> r->Err_0 is ActiveProfileNotFound,
{
    match active_dir {
        Some(d) => match find_by_path(profiles, &d) {
            Some(i) => Ok(i),
            None => Err(SelectError::ActiveProfileNotFound),
        },
        None => Err(SelectError::ActiveDirNotSet),
    }
}

/// The text of the sentinel choice that stands for creating a new profile.
pub open spec fn spec_create_label() -> Seq<char> {
    "+ Create new Profile"@
}

/// The label shown for one profile: its name and its path, separated by a
/// space.
pub open spec fn spec_label(p: ProfileView) -> Seq<char> {
    p.name + " "@ + p.path
}

/// The choice list of the interactive prompt: one label per profile, in
/// order, then the sentinel that creates a new profile.
pub fn build_choices(profiles: &Vec<Profile>) -> (r: Vec<String>)
    ensures
        r@.len() == profiles@.len() + 1,
        forall|i: int| 0 <= i < profiles@.len() ==> r@[i]@ == spec_label(profiles@[i]@),
        r@[profiles@.len() as int]@ == spec_create_label(),
{
    let mut r: Vec<String> = Vec::new();
    let mut i: usize = 0;
    while i < profiles.len()
        invariant
            i <= profiles@.len(),
            r@.len() == i,
            forall|j: int| 0 <= j < i ==> r@[j]@ == spec_label(profiles@[j]@),
        decreases profiles@.len() - i,
    {
        let p = &profiles[i];
        let mut label = p.name.clone();
        label.append(" ");
        label.append(p.path.as_str());
        r.push(label);
        i += 1;
    }
    r.push("+ Create new Profile".to_owned());
    r
}

/// What an answer of the interactive prompt means.
#[derive(Debug, PartialEq, Eq, Structural)]
pub enum Selection {
    /// The profile at this position of the profile list.
    Existing { index: usize },
    /// The sentinel: create a new profile and switch to it.
    CreateNew,
}

/// Resolves the prompt's answer against the displayed choices: the
/// sentinel — the last choice — means creating a profile, any other choice
/// means the profile at the same position, and a string that is none of
/// the choices is an error.
pub fn resolve_selection(choices: &Vec<String>, selected: &String) -> (r: Result<
    Selection,
    SelectError,
>)
    requires
        choices@.len() >= 1,
    ensures
        selected@ == choices@[choices@.len() - 1]@ ==> r == Ok::<Selection, SelectError>(
            Selection::CreateNew,
        ),
        r matches Ok(Selection::Existing { index }) ==> index < choices@.len() - 1 && choices@[
            index as int
        ]@ == selected@ && forall|j: int| 0 <= j < index ==> choices@[j]@ != selected@,
        r is Err ==> r->Err_0 is SelectionNotFound,
        (exists|j: int| 0 <= j < choices@.len() && choices@[j]@ == selected@) <==> r is Ok,
{
    let n = choices.len();
    if *selected == choices[n - 1] {
        return Ok(Selection::CreateNew);
    }
    let mut i: usize = 0;
    while i < n
        invariant
            n == choices@.len(),
            i <= n,
            selected@ != choices@[n - 1]@,
            forall|j: int| 0 <= j < i ==> choices@[j]@ != selected@,
        decreases n - i,
    {
        if choices[i] == *selected {
            return Ok(Selection::Existing { index: i });
        }
        i += 1;
    }
    Err(SelectError::SelectionNotFound)
}

/// The confirmation line for a freshly activated profile; it names the
/// profile and gives its path.
pub fn confirmation_message(p: &Profile) -> (r: String)
    ensures
        r@ == "Switched to "@ + p@.name + " ("@ + p@.path + ")"@,
{
    let mut r = "Switched to ".to_owned();
    r.append(p.name.as_str());
    r.append(" (");
    r.append(p.path.as_str());
    r.append(")");
    r
}

} // verus!
