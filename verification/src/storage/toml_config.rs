//! Options of the TOML configuration layer.
use vstd::prelude::*;
use crate::storage::paths::StoragePaths;

verus! {

#[derive(Debug, Clone, Copy, PartialEq, Eq, Structural)]
pub struct TomlConfigOptions {
    /// whether the file is reloaded when it changes
    pub hot_reload: bool,
    /// whether the configuration is checked when loaded
    pub validation: bool,
}

impl Default for TomlConfigOptions {
    fn default() -> (r: Self)
        ensures
            r.hot_reload,
            r.validation,
    {
        TomlConfigOptions { hot_reload: true, validation: true }
    }
}

/// The configuration layer: where the file is, and its options.
#[derive(Debug, Clone)]
pub struct TomlConfigManager {
    pub paths: StoragePaths,
    pub options: TomlConfigOptions,
}

impl TomlConfigManager {
    pub fn new(paths: StoragePaths, options: TomlConfigOptions) -> (r: Self)
        ensures
            r.paths == paths,
            r.options == options,
    {
        TomlConfigManager { paths, options }
    }
}

} // verus!
