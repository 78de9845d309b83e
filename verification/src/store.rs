//! The profile store: what a listing of the config root means, and what
//! creating a profile does to it.
//!
//! The caller reads the config root's direct children and hands them in as
//! [`DirEntry`] values; it likewise performs the actual directory creation.
//! Everything decided here — which entries count as profiles, what path a
//! profile gets, what a creation changes — is pure and proved.

use vstd::prelude::*;

use crate::profile::{join_path, spec_join, Profile, ProfileView};

verus! {

/// One direct child of the config root, as the caller read it: the base
/// name and whether the entry is a directory.
#[derive(Clone, Debug)]
pub struct DirEntry {
    pub name: String,
    pub is_dir: bool,
}

/// The mathematical value of a [`DirEntry`].
#[verifier::ext_equal]
pub ghost struct EntryView {
    pub name: Seq<char>,
    pub is_dir: bool,
}

impl View for DirEntry {
    type V = EntryView;

    open spec fn view(&self) -> EntryView {
        EntryView { name: self.name@, is_dir: self.is_dir }
    }
}

/// The profile that a directory called `name` under `root` denotes.
pub open spec fn spec_profile_of(root: Seq<char>, name: Seq<char>) -> ProfileView {
    ProfileView { name: name, path: spec_join(root, name) }
}

/// The profiles that a listing of the config root denotes: one per
/// directory entry, in listing order; entries that are not directories
/// denote nothing.
pub open spec fn spec_profiles(root: Seq<char>, entries: Seq<EntryView>) -> Seq<ProfileView>
    decreases entries.len(),
{
    if entries.len() == 0 {
        Seq::empty()
    } else {
        let rest = spec_profiles(root, entries.drop_last());
        if entries.last().is_dir {
            rest.push(spec_profile_of(root, entries.last().name))
        } else {
            rest
        }
    }
}

/// Turns a listing of the config root into the profile list: keeps the
/// directories, in listing order, and gives each the root joined with its
/// name as path.
pub fn get_profiles(root: &str, entries: &Vec<DirEntry>) -> (ps: Vec<Profile>)
    ensures
        ps@.map_values(|p: Profile| p@) == spec_profiles(
            root@,
            entries@.map_values(|e: DirEntry| e@),
        ),
{
    let ghost evs = entries@.map_values(|e: DirEntry| e@);
    let mut ps: Vec<Profile> = Vec::new();
    let mut i: usize = 0;
    while i < entries.len()
        invariant
            i <= entries@.len(),
            evs == entries@.map_values(|e: DirEntry| e@),
            ps@.map_values(|p: Profile| p@) == spec_profiles(root@, evs.take(i as int)),
        decreases entries@.len() - i,
    {
        proof {
            assert(evs.take(i as int + 1).drop_last() =~= evs.take(i as int));
        }
        let entry = &entries[i];
        if entry.is_dir {
            let p = Profile {
                name: entry.name.clone(),
                path: join_path(root, entry.name.as_str()),
            };
            ps.push(p);
            proof {
                assert(ps@.map_values(|p: Profile| p@) =~= spec_profiles(
                    root@,
                    evs.take(i as int + 1),
                ));
            }
        } else {
            proof {
                assert(ps@.map_values(|p: Profile| p@) =~= spec_profiles(
                    root@,
                    evs.take(i as int + 1),
                ));
            }
        }
        i += 1;
    }
    proof {
        assert(evs.take(entries@.len() as int) =~= evs);
    }
    ps
}

/// Builds the descriptor of the profile called `name`: the directory
/// `<root>/<name>`. The caller then creates that directory; the descriptor
/// depends on the root and the name alone.
pub fn create_profile(root: &str, name: String) -> (p: Profile)
    ensures
        p@ == spec_profile_of(root@, name@),
        p@.name == name@,
        p@.path == spec_join(root@, name@),
{
    let path = join_path(root, name.as_str());
    Profile { name, path }
}

/// Whether creating the directory `name` succeeds against this listing:
/// recursive directory creation fails only when an entry of that name
/// already exists and is not a directory.
pub open spec fn create_ok(entries: Seq<EntryView>, name: Seq<char>) -> bool {
    forall|j: int| 0 <= j < entries.len() && (#[trigger] entries[j]).name == name ==> entries[j].is_dir
}

/// Whether the listing already holds a directory called `name`.
pub open spec fn has_dir(entries: Seq<EntryView>, name: Seq<char>) -> bool {
    exists|j: int|
        0 <= j < entries.len() && (#[trigger] entries[j]).name == name && entries[j].is_dir
}

/// The listing after a successful creation of the directory `name`:
/// unchanged when such a directory already exists, else extended by one
/// directory entry.
pub open spec fn listing_after_create(entries: Seq<EntryView>, name: Seq<char>) -> Seq<EntryView> {
    if has_dir(entries, name) {
        entries
    } else {
        entries.push(EntryView { name: name, is_dir: true })
    }
}

/// Every directory entry is listed: the directory at index `j` appears
/// among the listing's profiles, under its own name and the joined path.
pub proof fn lemma_dir_entry_listed(root: Seq<char>, entries: Seq<EntryView>, j: int)
    requires
        0 <= j < entries.len(),
        entries[j].is_dir,
    ensures
        exists|i: int|
            0 <= i < spec_profiles(root, entries).len() && spec_profiles(root, entries)[i]
                == spec_profile_of(root, entries[j].name),
    decreases entries.len(),
{
    let ps = spec_profiles(root, entries);
    if j == entries.len() - 1 {
        assert(ps[ps.len() - 1] == spec_profile_of(root, entries[j].name));
    } else {
        let prev = entries.drop_last();
        lemma_dir_entry_listed(root, prev, j);
        let rest = spec_profiles(root, prev);
        let i = choose|i: int|
            0 <= i < rest.len() && rest[i] == spec_profile_of(root, prev[j].name);
        assert(prev[j] == entries[j]);
        assert(ps[i] == spec_profile_of(root, entries[j].name));
    }
}

/// Creating a profile then listing yields a profile called `name` whose
/// path is the config root joined with `name`.
pub proof fn lemma_create_then_list(root: Seq<char>, entries: Seq<EntryView>, name: Seq<char>)
    requires
        create_ok(entries, name),
    ensures
        exists|i: int|
            0 <= i < spec_profiles(root, listing_after_create(entries, name)).len()
                && spec_profiles(root, listing_after_create(entries, name))[i]
                == spec_profile_of(root, name),
{
    let after = listing_after_create(entries, name);
    if has_dir(entries, name) {
        let j = choose|j: int|
            0 <= j < entries.len() && (#[trigger] entries[j]).name == name && entries[j].is_dir;
        lemma_dir_entry_listed(root, entries, j);
    } else {
        lemma_dir_entry_listed(root, after, entries.len() as int);
    }
}

/// Listing never includes non-directory entries: the profiles of a listing
/// are exactly the profiles of its directory entries alone, however many
/// other entries are interspersed.
pub proof fn lemma_profiles_ignore_non_dirs(root: Seq<char>, entries: Seq<EntryView>)
    ensures
        spec_profiles(root, entries) == spec_profiles(root, entries.filter(|e: EntryView| e.is_dir)),
    decreases entries.len(),
{
    reveal(Seq::filter);
    if entries.len() == 0 {
    } else {
        let prev = entries.drop_last();
        lemma_profiles_ignore_non_dirs(root, prev);
        if entries.last().is_dir {
            let kept = entries.filter(|e: EntryView| e.is_dir);
            assert(kept == prev.filter(|e: EntryView| e.is_dir).push(entries.last()));
            assert(kept.drop_last() =~= prev.filter(|e: EntryView| e.is_dir));
            assert(spec_profiles(root, kept) == spec_profiles(
                root,
                prev.filter(|e: EntryView| e.is_dir),
            ).push(spec_profile_of(root, entries.last().name)));
        } else {
            assert(entries.filter(|e: EntryView| e.is_dir) == prev.filter(
                |e: EntryView| e.is_dir,
            ));
        }
    }
}

/// Creating the same profile twice: the second creation also succeeds and
/// leaves the listing of the first unchanged. By `create_profile`'s own
/// contract both calls describe the same path.
pub proof fn lemma_create_idempotent(entries: Seq<EntryView>, name: Seq<char>)
    requires
        create_ok(entries, name),
    ensures
        create_ok(listing_after_create(entries, name), name),
        listing_after_create(listing_after_create(entries, name), name) == listing_after_create(
            entries,
            name,
        ),
{
    let once = listing_after_create(entries, name);
    if has_dir(entries, name) {
    } else {
        let j = entries.len() as int;
        assert(once[j].name == name && once[j].is_dir);
        assert(has_dir(once, name));
        assert(forall|k: int|
            0 <= k < once.len() && (#[trigger] once[k]).name == name ==> once[k].is_dir) by {
            assert(forall|k: int| 0 <= k < entries.len() ==> once[k] == entries[k]);
        }
    }
}

} // verus!
