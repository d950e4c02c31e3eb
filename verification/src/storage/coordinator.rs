//! Options of the storage coordinator, which ties the three layers together.
use vstd::prelude::*;
use crate::storage::database::{DatabaseOptions, PoolSize};
use crate::storage::messagepack::MessagePackOptions;
use crate::text::{chars_of, str_eq};

verus! {

/// Options of the state and data layers.
#[derive(Debug, Clone)]
pub struct StorageCoordinatorOptions {
    pub messagepack_options: MessagePackOptions,
    pub database_options: DatabaseOptions,
}

impl Default for StorageCoordinatorOptions {
    /// The defaults of both layers.
    fn default() -> (r: Self)
        ensures
            r.messagepack_options.compression,
            r.messagepack_options.backup_count == 3,
            r.messagepack_options.checksum_validation,
            r.messagepack_options.max_file_size == 10 * 1024 * 1024,
            r.database_options.encryption,
            r.database_options.pool_size == (PoolSize::Adaptive { min: 4, max: 32 }),
            r.database_options.connection_timeout == 10_000,
            r.database_options.statement_timeout == 30_000,
            r.database_options.wal,
            r.database_options.sql_dir is None,
    {
        StorageCoordinatorOptions {
            messagepack_options: MessagePackOptions::default(),
            database_options: DatabaseOptions::default(),
        }
    }
}


/// What a request for a configuration section is answered with.
#[derive(Debug, Clone, Copy, PartialEq, Eq, Structural)]
pub enum ConfigSection {
    App,
    Appearance,
    Terminal,
    Shortcuts,
    /// an empty object: the AI settings live in the database, and unknown
    /// sections have none
    Empty,
}

/// The section a name asks for.
pub open spec fn config_section_of(name: Seq<char>) -> ConfigSection {
    if name == "app"@ {
        ConfigSection::App
    } else if name == "appearance"@ {
        ConfigSection::Appearance
    } else if name == "terminal"@ {
        ConfigSection::Terminal
    } else if name == "shortcuts"@ {
        ConfigSection::Shortcuts
    } else {
        ConfigSection::Empty
    }
}

/// The section of the configuration that `get_config` returns for a name.
pub fn config_section(section: &str) -> (r: ConfigSection)
    ensures
        r == config_section_of(section@),
{
    let c = chars_of(section);
    if str_eq("app", &c) {
        ConfigSection::App
    } else if str_eq("appearance", &c) {
        ConfigSection::Appearance
    } else if str_eq("terminal", &c) {
        ConfigSection::Terminal
    } else if str_eq("shortcuts", &c) {
        ConfigSection::Shortcuts
    } else {
        ConfigSection::Empty
    }
}

} // verus!
