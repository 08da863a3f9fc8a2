use vstd::prelude::*;
use crate::registry::{Config, empty_registry};

verus! {

/// The name of the registry file inside the per-user configuration directory.
pub const CONFIG_FILE_NAME: &'static str = "config.json";

/// Why the stored registry could not be used.
#[derive(Debug, PartialEq, Eq, Clone, Copy)]
pub enum LoadFailure {
    /// The file is missing or could not be read.
    Read,
    /// The file does not hold a registry.
    Parse,
}

/// The result of loading: the stored registry, or a fresh empty one that
/// replaces a missing or unusable file.
pub enum LoadOutcome {
    Loaded(Config),
    Recovered(Config, LoadFailure),
}

impl LoadOutcome {
    /// Whether the registry must be written back before it is used: it must
    /// exactly when it was recreated.
    pub fn needs_save(&self) -> (r: bool)
        ensures
            r == (self is Recovered),
    {
        match self {
            LoadOutcome::Loaded(_) => false,
            LoadOutcome::Recovered(_, _) => true,
        }
    }

    /// The registry that loading settled on.
    pub fn into_registry(self) -> (r: Config)
        ensures
            r == match self {
                LoadOutcome::Loaded(c) => c,
                LoadOutcome::Recovered(c, _) => c,
            },
    {
        match self {
            LoadOutcome::Loaded(c) => c,
            LoadOutcome::Recovered(c, _) => c,
        }
    }
}

/// Settles what reading the registry file gave: a registry that was read and
/// parsed is used as it is; on any failure a fresh empty registry takes its
/// place and the failure is kept.
pub fn settle_load(read: Result<Config, LoadFailure>) -> (r: LoadOutcome)
    ensures
        match read {
            Ok(c) => r == LoadOutcome::Loaded(c),
            Err(e) => r matches LoadOutcome::Recovered(c, f) && f == e && c@ == empty_registry(),
        },
{
    match read {
        Ok(c) => LoadOutcome::Loaded(c),
        Err(e) => LoadOutcome::Recovered(Config::new(), e),
    }
}

} // verus!
