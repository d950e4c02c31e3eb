//! Options of the file layer: backups, atomic writes and permissions.
use vstd::prelude::*;
use crate::storage::paths::StoragePaths;
use crate::text::{chars_of, decimal, push_decimal, string_of};

verus! {

/// How files are written.
#[derive(Debug, Clone, Copy, PartialEq, Eq, Structural)]
pub struct FileSystemOptions {
    /// whether a backup is made before a file is replaced
    pub backup_enabled: bool,
    /// how many backups are kept
    pub backup_count: usize,
    /// whether writes go through a temporary file and a rename
    pub atomic_write: bool,
    /// mode of new files (Unix)
    pub file_permissions: Option<u32>,
    /// mode of new directories (Unix)
    pub dir_permissions: Option<u32>,
}

impl Default for FileSystemOptions {
    /// Backups on, five kept, atomic writes, modes 0644 and 0755.
    fn default() -> (r: Self)
        ensures
            r == (FileSystemOptions {
                backup_enabled: true,
                backup_count: 5,
                atomic_write: true,
                file_permissions: Some(0o644u32),
                dir_permissions: Some(0o755u32),
            }),
    {
        FileSystemOptions {
            backup_enabled: true,
            backup_count: 5,
            atomic_write: true,
            file_permissions: Some(0o644),
            dir_permissions: Some(0o755),
        }
    }
}

/// The file layer: where files live and how they are written.
#[derive(Debug, Clone)]
pub struct FileSystemManager {
    pub paths: StoragePaths,
    pub options: FileSystemOptions,
}

impl FileSystemManager {
    pub fn new(paths: StoragePaths, options: FileSystemOptions) -> (r: Self)
        ensures
            r.paths == paths,
            r.options == options,
    {
        FileSystemManager { paths, options }
    }
}

/// One step of writing a file.
#[derive(Debug, Clone, Copy, PartialEq, Eq, Structural)]
pub enum WriteStep {
    /// create the file's directory and the directories above it
    CreateParentDir,
    /// write the content to the temporary file
    WriteTemp,
    /// give the temporary file this mode
    SetTempPermissions(u32),
    /// back up the file as it is now
    Backup,
    /// move the temporary file onto the file; on failure, delete it
    RenameTemp,
    /// write the content to the file itself
    WriteTarget,
    /// give the file this mode
    SetTargetPermissions(u32),
}

/// The steps of writing a file: first its directory (when the path has
/// one); then, for an atomic write, the temporary file, its mode, a backup
/// of the file (when backups are on and it exists) and the move onto the
/// file; else the backup, the file itself and its mode.
pub open spec fn write_steps(o: FileSystemOptions, has_parent: bool, target_exists: bool) -> Seq<WriteStep> {
    let dir = if has_parent {
        seq![WriteStep::CreateParentDir]
    } else {
        Seq::empty()
    };
    let backup = if o.backup_enabled && target_exists {
        seq![WriteStep::Backup]
    } else {
        Seq::empty()
    };
    if o.atomic_write {
        dir + seq![WriteStep::WriteTemp] + (match o.file_permissions {
            Some(m) => seq![WriteStep::SetTempPermissions(m)],
            None => Seq::empty(),
        }) + backup + seq![WriteStep::RenameTemp]
    } else {
        dir + backup + seq![WriteStep::WriteTarget] + (match o.file_permissions {
            Some(m) => seq![WriteStep::SetTargetPermissions(m)],
            None => Seq::empty(),
        })
    }
}

impl FileSystemManager {
    /// The steps of writing a file (see `write_steps`); carrying them out,
    /// in order and stopping at the first that fails, is the caller's part.
    pub fn write_plan(&self, has_parent: bool, target_exists: bool) -> (r: Vec<WriteStep>)
        ensures
            r@ == write_steps(self.options, has_parent, target_exists),
    {
        let o = self.options;
        let mut steps: Vec<WriteStep> = Vec::new();
        if has_parent {
            steps.push(WriteStep::CreateParentDir);
        }
        let backup = o.backup_enabled && target_exists;
        if o.atomic_write {
            steps.push(WriteStep::WriteTemp);
            if let Some(m) = o.file_permissions {
                steps.push(WriteStep::SetTempPermissions(m));
            }
            if backup {
                steps.push(WriteStep::Backup);
            }
            steps.push(WriteStep::RenameTemp);
        } else {
            if backup {
                steps.push(WriteStep::Backup);
            }
            steps.push(WriteStep::WriteTarget);
            if let Some(m) = o.file_permissions {
                steps.push(WriteStep::SetTargetPermissions(m));
            }
        }
        assert(steps@ =~= write_steps(self.options, has_parent, target_exists));
        steps
    }

    /// The name of the temporary file of a write begun at `timestamp`:
    /// `.{name}.tmp.{timestamp}`, beside the file.
    pub fn temp_file_name(file_name: &str, timestamp: u64) -> (r: String)
        ensures
            r@ == "."@ + file_name@ + ".tmp."@ + decimal(timestamp as nat),
    {
        let mut out: Vec<char> = Vec::new();
        out.push('.');
        let name = chars_of(file_name);
        let mut i: usize = 0;
        while i < name.len()
            invariant
                i <= name@.len(),
                out@ == seq!['.'] + name@.take(i as int),
            decreases name.len() - i,
        {
            out.push(name[i]);
            assert(name@.take(i + 1) =~= name@.take(i as int).push(name@[i as int]));
            i += 1;
        }
        assert(name@.take(name@.len() as int) =~= name@);
        let tail = chars_of(".tmp.");
        let ghost before = out@;
        let mut j: usize = 0;
        while j < tail.len()
            invariant
                j <= tail@.len(),
                out@ == before + tail@.take(j as int),
            decreases tail.len() - j,
        {
            out.push(tail[j]);
            assert(tail@.take(j + 1) =~= tail@.take(j as int).push(tail@[j as int]));
            j += 1;
        }
        assert(tail@.take(tail@.len() as int) =~= tail@);
        push_decimal(&mut out, timestamp);
        proof {
            reveal_strlit(".");
            assert(seq!['.'] =~= "."@);
        }
        string_of(&out)
    }
}

} // verus!
