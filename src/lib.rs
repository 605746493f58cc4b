//! Locating, creating and diagnosing a per-user TOML configuration file.
//!
//! The library holds the decisions; the embedding program performs the
//! filesystem work that they call for.
use vstd::prelude::*;

pub mod bootstrap;
pub mod diagnosis;
pub mod path;
pub mod setting;

pub use setting::{get_config_dir, set_config_dir, set_config_dir_as_path, ConfigFolder};
pub use path::{join_path, path_config_dir, path_config_file};
pub use bootstrap::{Action, Bootstrap, EntryKind, Event, Stage, WriteConfig};
pub use diagnosis::{diagnose, error_handler, Diagnosis};

verus! {

/// What can go wrong while locating or bootstrapping the configuration.
#[derive(PartialEq, Eq, Structural, Clone, Copy, Debug)]
pub enum Error {
    /// The configuration directory was never set.
    DirNeverSpecified,
    /// The platform could not name a home directory.
    HomeDirUnavailable,
    /// The configuration directory could not be created.
    DirCreationFailed,
    /// Something other than a regular file sits at the configuration file's path.
    NotAFile,
    /// No configuration file existed; a default one has been written out.
    ConfigAbsent,
}

} // verus!
