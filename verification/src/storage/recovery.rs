//! Recovery of a failed storage layer: which strategies are tried, in what
//! order, which files they work on, and what each outcome reports.
//!
//! Trying a strategy is I/O (copying a backup, waiting before a retry); the
//! caller performs it and asks `next_recovery_action` what to do next.
use vstd::prelude::*;
use crate::storage::paths::{path_join, StoragePaths, CONFIG_FILE_NAME, DATABASE_FILE_NAME, SESSION_STATE_FILE_NAME};
use crate::storage::types::StorageLayer;
use crate::text::{chars_of, decimal, owned, push_decimal, string_of};

verus! {

/// A way to recover a layer.
#[derive(Debug, Clone, Copy, PartialEq, Eq, Structural)]
pub enum RecoveryStrategy {
    /// try again, up to `max_attempts` times, `delay` milliseconds apart
    Retry { max_attempts: u32, delay: u64 },
    /// copy the backup over the live file
    UseBackup,
    /// rebuild the data
    Rebuild,
    /// run on fallback data
    Fallback,
    /// leave the error be
    Skip,
}

/// The strategies tried for each layer, in order.
pub open spec fn layer_strategies(layer: StorageLayer) -> Seq<RecoveryStrategy> {
    match layer {
        StorageLayer::Config => seq![RecoveryStrategy::UseBackup, RecoveryStrategy::Fallback],
        StorageLayer::State => seq![RecoveryStrategy::UseBackup, RecoveryStrategy::Rebuild],
        StorageLayer::Data => seq![
            RecoveryStrategy::Retry { max_attempts: 3, delay: 1000 },
            RecoveryStrategy::UseBackup,
            RecoveryStrategy::Rebuild,
        ],
    }
}

/// The report of a strategy that worked.
pub open spec fn success_text(s: RecoveryStrategy) -> Seq<char> {
    match s {
        RecoveryStrategy::Retry { max_attempts, .. } => "重试成功，最大尝试次数: "@ + decimal(
            max_attempts as nat,
        ),
        RecoveryStrategy::UseBackup => "从备份恢复成功"@,
        RecoveryStrategy::Rebuild => "数据重建成功"@,
        RecoveryStrategy::Fallback => "使用降级数据成功"@,
        RecoveryStrategy::Skip => "跳过错误"@,
    }
}

/// The report when every strategy failed.
pub const ALL_FAILED_MESSAGE: &'static str = "所有恢复策略都失败";

/// The outcome of a recovery.
#[derive(Debug, Clone)]
pub struct RecoveryResult {
    pub success: bool,
    pub strategy: RecoveryStrategy,
    pub message: String,
    /// when it ended, in milliseconds since the Unix epoch
    pub recovered_at: u64,
    /// how long it took, in milliseconds
    pub duration: u64,
}

impl RecoveryResult {
    /// The report of a strategy that worked.
    pub fn succeeded(strategy: RecoveryStrategy, recovered_at: u64, duration: u64) -> (r: Self)
        ensures
            r.success,
            r.strategy == strategy,
            r.message@ == success_text(strategy),
            r.recovered_at == recovered_at,
            r.duration == duration,
    {
        let message = match strategy {
            RecoveryStrategy::Retry { max_attempts, .. } => {
                let mut out = chars_of("重试成功，最大尝试次数: ");
                push_decimal(&mut out, max_attempts as u64);
                string_of(&out)
            },
            RecoveryStrategy::UseBackup => owned("从备份恢复成功"),
            RecoveryStrategy::Rebuild => owned("数据重建成功"),
            RecoveryStrategy::Fallback => owned("使用降级数据成功"),
            RecoveryStrategy::Skip => owned("跳过错误"),
        };
        RecoveryResult { success: true, strategy, message, recovered_at, duration }
    }

    /// The report when no strategy worked.
    pub fn all_failed(recovered_at: u64, duration: u64) -> (r: Self)
        ensures
            !r.success,
            r.strategy == RecoveryStrategy::Skip,
            r.message@ == ALL_FAILED_MESSAGE@,
            r.recovered_at == recovered_at,
            r.duration == duration,
    {
        RecoveryResult {
            success: false,
            strategy: RecoveryStrategy::Skip,
            message: owned(ALL_FAILED_MESSAGE),
            recovered_at,
            duration,
        }
    }
}

/// What to do next while recovering a layer.
#[derive(Debug, Clone, Copy, PartialEq, Eq, Structural)]
pub enum RecoveryAction {
    /// try this strategy
    Apply(RecoveryStrategy),
    /// every strategy has failed
    GiveUp,
}

/// The file a layer lives in, and the file its backup goes to.
pub open spec fn layer_files(paths: StoragePaths, layer: StorageLayer) -> (Seq<char>, Seq<char>) {
    match layer {
        StorageLayer::Config => (
            path_join(paths.config_dir@, CONFIG_FILE_NAME@),
            path_join(paths.backups_dir@, "config.toml.bak"@),
        ),
        StorageLayer::State => (
            path_join(paths.state_dir@, SESSION_STATE_FILE_NAME@),
            path_join(paths.backups_dir@, "session_state.msgpack.bak"@),
        ),
        StorageLayer::Data => (
            path_join(paths.data_dir@, DATABASE_FILE_NAME@),
            path_join(paths.backups_dir@, "orbitx.db.bak"@),
        ),
    }
}

/// Recovery of the storage layers.
#[derive(Debug, Clone)]
pub struct RecoveryManager {
    pub paths: StoragePaths,
}

impl RecoveryManager {
    pub fn new(paths: StoragePaths) -> (r: Self)
        ensures
            r.paths == paths,
    {
        RecoveryManager { paths }
    }

    /// The strategies tried for a layer, in order.
    pub fn strategies_for(&self, layer: StorageLayer) -> (r: Vec<RecoveryStrategy>)
        ensures
            r@ == layer_strategies(layer),
    {
        let mut v = Vec::new();
        match layer {
            StorageLayer::Config => {
                v.push(RecoveryStrategy::UseBackup);
                v.push(RecoveryStrategy::Fallback);
            },
            StorageLayer::State => {
                v.push(RecoveryStrategy::UseBackup);
                v.push(RecoveryStrategy::Rebuild);
            },
            StorageLayer::Data => {
                v.push(RecoveryStrategy::Retry { max_attempts: 3, delay: 1000 });
                v.push(RecoveryStrategy::UseBackup);
                v.push(RecoveryStrategy::Rebuild);
            },
        }
        assert(v@ =~= layer_strategies(layer));
        v
    }

    /// After `failed` strategies of a layer have failed: the next one to
    /// try, or giving up when none is left.
    pub fn next_recovery_action(&self, layer: StorageLayer, failed: usize) -> (r: RecoveryAction)
        ensures
            failed < layer_strategies(layer).len() ==> r == RecoveryAction::Apply(
                layer_strategies(layer)[failed as int],
            ),
            failed >= layer_strategies(layer).len() ==> r == RecoveryAction::GiveUp,
    {
        let all = self.strategies_for(layer);
        if failed < all.len() {
            RecoveryAction::Apply(all[failed])
        } else {
            RecoveryAction::GiveUp
        }
    }

    /// The live file of a layer and its backup file.
    pub fn backup_files(&self, layer: StorageLayer) -> (r: (String, String))
        ensures
            (r.0@, r.1@) == layer_files(self.paths, layer),
    {
        match layer {
            StorageLayer::Config => (
                self.paths.config_file(),
                self.paths.backup_file("config.toml.bak"),
            ),
            StorageLayer::State => (
                self.paths.session_state_file(),
                self.paths.backup_file("session_state.msgpack.bak"),
            ),
            StorageLayer::Data => (
                self.paths.database_file(),
                self.paths.backup_file("orbitx.db.bak"),
            ),
        }
    }
}

/// Every layer has a strategy to try, and the backup is among them; no
/// layer's plan skips its error.
pub proof fn law_every_layer_has_a_plan(layer: StorageLayer)
    ensures
        layer_strategies(layer).len() >= 2,
        layer_strategies(layer).contains(RecoveryStrategy::UseBackup),
        !layer_strategies(layer).contains(RecoveryStrategy::Skip),
{
    let s = layer_strategies(layer);
    if layer == StorageLayer::Data {
        assert(s[1] == RecoveryStrategy::UseBackup);
    } else {
        assert(s[0] == RecoveryStrategy::UseBackup);
    }
    assert forall|i: int| 0 <= i < s.len() implies s[i] != RecoveryStrategy::Skip by {}
}

} // verus!
