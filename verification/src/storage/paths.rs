//! Layout of the storage directories under the application directory.
use vstd::prelude::*;
use crate::storage::error::StoragePathsError;
use crate::text::owned;

verus! {

pub const STORAGE_VERSION: &'static str = "1.0.0";
pub const STORAGE_DIR_NAME: &'static str = "storage";
pub const CONFIG_DIR_NAME: &'static str = "config";
pub const STATE_DIR_NAME: &'static str = "state";
pub const DATA_DIR_NAME: &'static str = "data";
pub const BACKUPS_DIR_NAME: &'static str = "backups";
pub const LOGS_DIR_NAME: &'static str = "logs";
pub const CONFIG_FILE_NAME: &'static str = "config.toml";
pub const SESSION_STATE_FILE_NAME: &'static str = "session_state.msgpack";
pub const DATABASE_FILE_NAME: &'static str = "orbitx.db";

/// What `Path::join` returns for a base path and a further component.
pub uninterp spec fn path_join(base: Seq<char>, part: Seq<char>) -> Seq<char>;

/// `Path::join`: `part` appended to `base` with the platform separator (or
/// `part` alone when it is absolute).  The result is a function of the two
/// paths alone; the joining rules themselves are not spelled out.
#[verifier::external_body]
pub fn join_path(base: &str, part: &str) -> (r: String)
    ensures
        r@ == path_join(base@, part@),
{
    std::path::Path::new(base).join(part).to_string_lossy().into_owned()
}

/// The storage directories of the application.
#[derive(Debug, Clone)]
pub struct StoragePaths {
    /// application root directory
    pub app_dir: String,
    /// configuration directory
    pub config_dir: String,
    /// session state directory
    pub state_dir: String,
    /// database directory
    pub data_dir: String,
    /// backup directory
    pub backups_dir: String,
    /// log directory
    pub logs_dir: String,
}

/// The directories derived from an application directory and the three
/// directories that may be chosen freely.
pub open spec fn paths_layout(
    app: Seq<char>,
    config: Seq<char>,
    state: Seq<char>,
    data: Seq<char>,
    p: StoragePaths,
) -> bool {
    &&& p.app_dir@ == app
    &&& p.config_dir@ == config
    &&& p.state_dir@ == state
    &&& p.data_dir@ == data
    &&& p.backups_dir@ == path_join(app, BACKUPS_DIR_NAME@)
    &&& p.logs_dir@ == path_join(app, LOGS_DIR_NAME@)
}

impl StoragePaths {
    /// The standard layout under `app_dir`: `config/`, `state/`, `data/`,
    /// `backups/` and `logs/`.  Checking that the directory can be used is
    /// file-system work, which the caller does.
    pub fn new(app_dir: String) -> (r: Self)
        ensures
            paths_layout(
                app_dir@,
                path_join(app_dir@, CONFIG_DIR_NAME@),
                path_join(app_dir@, STATE_DIR_NAME@),
                path_join(app_dir@, DATA_DIR_NAME@),
                r,
            ),
    {
        let config_dir = join_path(app_dir.as_str(), CONFIG_DIR_NAME);
        let state_dir = join_path(app_dir.as_str(), STATE_DIR_NAME);
        let data_dir = join_path(app_dir.as_str(), DATA_DIR_NAME);
        let backups_dir = join_path(app_dir.as_str(), BACKUPS_DIR_NAME);
        let logs_dir = join_path(app_dir.as_str(), LOGS_DIR_NAME);
        StoragePaths { app_dir, config_dir, state_dir, data_dir, backups_dir, logs_dir }
    }

    /// `config/config.toml`
    pub fn config_file(&self) -> (r: String)
        ensures
            r@ == path_join(self.config_dir@, CONFIG_FILE_NAME@),
    {
        join_path(self.config_dir.as_str(), CONFIG_FILE_NAME)
    }

    /// `state/session_state.msgpack`
    pub fn session_state_file(&self) -> (r: String)
        ensures
            r@ == path_join(self.state_dir@, SESSION_STATE_FILE_NAME@),
    {
        join_path(self.state_dir.as_str(), SESSION_STATE_FILE_NAME)
    }

    /// `data/orbitx.db`
    pub fn database_file(&self) -> (r: String)
        ensures
            r@ == path_join(self.data_dir@, DATABASE_FILE_NAME@),
    {
        join_path(self.data_dir.as_str(), DATABASE_FILE_NAME)
    }

    /// A file in the backup directory.
    pub fn backup_file(&self, filename: &str) -> (r: String)
        ensures
            r@ == path_join(self.backups_dir@, filename@),
    {
        join_path(self.backups_dir.as_str(), filename)
    }

    /// A file in the log directory.
    pub fn log_file(&self, filename: &str) -> (r: String)
        ensures
            r@ == path_join(self.logs_dir@, filename@),
    {
        join_path(self.logs_dir.as_str(), filename)
    }

    /// The directories that must exist, in the order they are created.
    pub fn directories(&self) -> (r: Vec<String>)
        ensures
            r@.len() == 6,
            r@[0]@ == self.app_dir@,
            r@[1]@ == self.config_dir@,
            r@[2]@ == self.state_dir@,
            r@[3]@ == self.data_dir@,
            r@[4]@ == self.backups_dir@,
            r@[5]@ == self.logs_dir@,
    {
        let mut v: Vec<String> = Vec::new();
        v.push(owned(self.app_dir.as_str()));
        v.push(owned(self.config_dir.as_str()));
        v.push(owned(self.state_dir.as_str()));
        v.push(owned(self.data_dir.as_str()));
        v.push(owned(self.backups_dir.as_str()));
        v.push(owned(self.logs_dir.as_str()));
        v
    }
}

/// Builder of a `StoragePaths` whose configuration, state and data
/// directories may be placed elsewhere.
pub struct StoragePathsBuilder {
    pub app_dir: Option<String>,
    pub custom_config_dir: Option<String>,
    pub custom_state_dir: Option<String>,
    pub custom_data_dir: Option<String>,
}

impl StoragePathsBuilder {
    pub fn new() -> (r: Self)
        ensures
            r.app_dir is None,
            r.custom_config_dir is None,
            r.custom_state_dir is None,
            r.custom_data_dir is None,
    {
        StoragePathsBuilder {
            app_dir: None,
            custom_config_dir: None,
            custom_state_dir: None,
            custom_data_dir: None,
        }
    }

    pub fn app_dir(self, dir: String) -> (r: Self)
        ensures
            r.app_dir == Some(dir),
            r.custom_config_dir == self.custom_config_dir,
            r.custom_state_dir == self.custom_state_dir,
            r.custom_data_dir == self.custom_data_dir,
    {
        StoragePathsBuilder { app_dir: Some(dir), ..self }
    }

    pub fn config_dir(self, dir: String) -> (r: Self)
        ensures
            r.custom_config_dir == Some(dir),
            r.app_dir == self.app_dir,
            r.custom_state_dir == self.custom_state_dir,
            r.custom_data_dir == self.custom_data_dir,
    {
        StoragePathsBuilder { custom_config_dir: Some(dir), ..self }
    }

    pub fn state_dir(self, dir: String) -> (r: Self)
        ensures
            r.custom_state_dir == Some(dir),
            r.app_dir == self.app_dir,
            r.custom_config_dir == self.custom_config_dir,
            r.custom_data_dir == self.custom_data_dir,
    {
        StoragePathsBuilder { custom_state_dir: Some(dir), ..self }
    }

    pub fn data_dir(self, dir: String) -> (r: Self)
        ensures
            r.custom_data_dir == Some(dir),
            r.app_dir == self.app_dir,
            r.custom_config_dir == self.custom_config_dir,
            r.custom_state_dir == self.custom_state_dir,
    {
        StoragePathsBuilder { custom_data_dir: Some(dir), ..self }
    }

    /// The layout: an error when no application directory was given;
    /// otherwise each custom directory where one was set and the standard
    /// one under the application directory elsewhere.
    pub fn build(self) -> (r: Result<StoragePaths, StoragePathsError>)
        ensures
            self.app_dir is None <==> r == Err::<StoragePaths, StoragePathsError>(
                StoragePathsError::AppDirectoryMissing,
            ),
            self.app_dir is Some ==> r is Ok,
            r matches Ok(p) ==> paths_layout(
                self.app_dir->0@,
                match self.custom_config_dir {
                    Some(d) => d@,
                    None => path_join(self.app_dir->0@, CONFIG_DIR_NAME@),
                },
                match self.custom_state_dir {
                    Some(d) => d@,
                    None => path_join(self.app_dir->0@, STATE_DIR_NAME@),
                },
                match self.custom_data_dir {
                    Some(d) => d@,
                    None => path_join(self.app_dir->0@, DATA_DIR_NAME@),
                },
                p,
            ),
    {
        let app_dir = match self.app_dir {
            Some(d) => d,
            None => {
                return Err(StoragePathsError::AppDirectoryMissing);
            },
        };
        let config_dir = match self.custom_config_dir {
            Some(d) => d,
            None => join_path(app_dir.as_str(), CONFIG_DIR_NAME),
        };
        let state_dir = match self.custom_state_dir {
            Some(d) => d,
            None => join_path(app_dir.as_str(), STATE_DIR_NAME),
        };
        let data_dir = match self.custom_data_dir {
            Some(d) => d,
            None => join_path(app_dir.as_str(), DATA_DIR_NAME),
        };
        let backups_dir = join_path(app_dir.as_str(), BACKUPS_DIR_NAME);
        let logs_dir = join_path(app_dir.as_str(), LOGS_DIR_NAME);
        Ok(StoragePaths { app_dir, config_dir, state_dir, data_dir, backups_dir, logs_dir })
    }
}

impl Default for StoragePathsBuilder {
    fn default() -> (r: Self)
        ensures
            r.app_dir is None,
            r.custom_config_dir is None,
            r.custom_state_dir is None,
            r.custom_data_dir is None,
    {
        Self::new()
    }
}

} // verus!
