//! The profile descriptor and the path arithmetic shared by the store and
//! the switcher.

use vstd::prelude::*;
use vstd::string::StringExecFns;

verus! {

/// One saved configuration context: a directory under the config root,
/// named by its base name.
#[derive(Clone, Debug)]
pub struct Profile {
    pub name: String,
    pub path: String,
}

/// The mathematical value of a [`Profile`]: both fields as character
/// sequences.
pub ghost struct ProfileView {
    pub name: Seq<char>,
    pub path: Seq<char>,
}

impl View for Profile {
    type V = ProfileView;

    open spec fn view(&self) -> ProfileView {
        ProfileView { name: self.name@, path: self.path@ }
    }
}

/// The path of the entry called `name` directly under `root`.
pub open spec fn spec_join(root: Seq<char>, name: Seq<char>) -> Seq<char> {
    root + "/"@ + name
}

/// Joins a directory path and a child name with a single separator.
pub fn join_path(root: &str, name: &str) -> (r: String)
    ensures
        r@ == spec_join(root@, name@),
{
    let mut r = root.to_owned();
    r.append("/");
    r.append(name);
    r
}

} // verus!
