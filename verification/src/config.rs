//! Resolving the config root: the directory whose direct subdirectories are
//! the profiles.
//!
//! The caller reads the two environment values (the override and the home
//! directory) and hands them in as plain options; resolution itself is pure.

use vstd::prelude::*;

use crate::profile::{join_path, spec_join};

verus! {

/// Why the config root could not be resolved.
#[derive(Debug, PartialEq, Eq, Structural)]
pub enum ConfigError {
    /// Neither the override nor the home directory was available.
    HomeNotSet,
}

impl ConfigError {
    /// The diagnostic printed when resolution fails.
    pub fn message(&self) -> (r: String)
        ensures
            r@ == "Failed to read $HOME env"@,
    {
        "Failed to read $HOME env".to_owned()
    }
}

/// The path of the default config root below the home directory.
pub open spec fn default_subdir() -> Seq<char> {
    ".config/ccswitch"@
}

/// Picks the config root. An override value is used verbatim; otherwise the
/// root is `<home>/.config/ccswitch`; with neither value available there is
/// no root.
pub fn resolve_config_dir(override_dir: Option<String>, home: Option<String>) -> (r: Result<
    String,
    ConfigError,
>)
    ensures
        override_dir is Some ==> r is Ok && r->Ok_0@ == override_dir->Some_0@,
        override_dir is None && home is Some ==> r is Ok && r->Ok_0@ == spec_join(
            home->Some_0@,
            default_subdir(),
        ),
        override_dir is None && home is None ==> r == Err::<String, ConfigError>(
            ConfigError::HomeNotSet,
        ),
{
    match override_dir {
        Some(d) => Ok(d),
        None => match home {
            Some(h) => Ok(join_path(h.as_str(), ".config/ccswitch")),
            None => Err(ConfigError::HomeNotSet),
        },
    }
}

} // verus!
