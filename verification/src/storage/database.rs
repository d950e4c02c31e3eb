//! Options of the database connection pool.
use vstd::prelude::*;
use crate::storage::sql_scripts::SqlScript;
use crate::text::{chars_of, owned, trim, trim_chars};

verus! {

/// How many connections the pool keeps.
#[derive(Debug, Clone, Copy, PartialEq, Eq, Structural)]
pub enum PoolSize {
    /// always this many (at least one)
    Fixed(u32),
    /// between `min` and `max`, following the number of processors
    Adaptive { min: u32, max: u32 },
}

/// A pool size that can be resolved: sizes are positive, and an adaptive
/// range is not empty.
pub open spec fn pool_size_ok(p: PoolSize) -> bool {
    match p {
        PoolSize::Fixed(n) => n >= 1,
        PoolSize::Adaptive { min, max } => 1 <= min <= max,
    }
}

/// The (least, most) connections of a pool size on a machine with `cpu`
/// processors: twice the processors, kept within an adaptive range.
pub open spec fn resolved_pool(p: PoolSize, cpu: u32) -> (u32, u32) {
    match p {
        PoolSize::Fixed(n) => (n, n),
        PoolSize::Adaptive { min, max } => {
            let twice = 2 * cpu;
            (min, if twice < min { min } else if twice > max { max } else { twice as u32 })
        },
    }
}

impl PoolSize {
    /// The pool's bounds; `available` is the number of processors, when
    /// it could be found (4 is assumed otherwise).
    pub fn resolve(&self, available: Option<u32>) -> (r: (u32, u32))
        requires
            pool_size_ok(*self),
            available matches Some(n) ==> 2 * n <= u32::MAX,
        ensures
            r == resolved_pool(
                *self,
                match available {
                    Some(n) => n,
                    None => 4,
                },
            ),
            1 <= r.0 <= r.1,
    {
        match self {
            PoolSize::Fixed(n) => (*n, *n),
            PoolSize::Adaptive { min, max } => {
                let cpu = match available {
                    Some(n) => n,
                    None => 4,
                };
                let twice = cpu * 2;
                let suggested = if twice < *min {
                    *min
                } else if twice > *max {
                    *max
                } else {
                    twice
                };
                (*min, suggested)
            },
        }
    }
}

/// Options of the database.
#[derive(Debug, Clone)]
pub struct DatabaseOptions {
    /// whether stored secrets are encrypted
    pub encryption: bool,
    pub pool_size: PoolSize,
    /// milliseconds to wait for a connection
    pub connection_timeout: u64,
    /// milliseconds a statement may run
    pub statement_timeout: u64,
    /// whether the write-ahead log is used
    pub wal: bool,
    /// where the SQL scripts are, when not in the default place
    pub sql_dir: Option<String>,
}

impl Default for DatabaseOptions {
    /// Encrypted, 4 to 32 connections, 10 s to connect, 30 s per statement,
    /// write-ahead log, scripts in the default place.
    fn default() -> (r: Self)
        ensures
            r.encryption,
            r.pool_size == (PoolSize::Adaptive { min: 4, max: 32 }),
            r.connection_timeout == 10_000,
            r.statement_timeout == 30_000,
            r.wal,
            r.sql_dir is None,
    {
        DatabaseOptions {
            encryption: true,
            pool_size: PoolSize::Adaptive { min: 4, max: 32 },
            connection_timeout: 10_000,
            statement_timeout: 30_000,
            wal: true,
            sql_dir: None,
        }
    }
}

/// The statements of the scripts that are run, in order: every statement
/// that is not blank.
pub open spec fn runnable_statements(scripts: Seq<SqlScript>) -> Seq<Seq<char>>
    decreases scripts.len(),
{
    if scripts.len() == 0 {
        Seq::empty()
    } else {
        runnable_statements(scripts.drop_last()) + nonblank(scripts.last().statements@)
    }
}

/// The statements that are not blank, in order.
pub open spec fn nonblank(statements: Seq<String>) -> Seq<Seq<char>>
    decreases statements.len(),
{
    if statements.len() == 0 {
        Seq::empty()
    } else {
        nonblank(statements.drop_last()) + if trim(statements.last()@).len() > 0 {
            seq![statements.last()@]
        } else {
            Seq::empty()
        }
    }
}

/// The statements to run when the database starts, script by script.
pub fn statements_to_run(scripts: &Vec<SqlScript>) -> (r: Vec<String>)
    ensures
        r@.map_values(|t: String| t@) == runnable_statements(scripts@),
{
    let mut out: Vec<String> = Vec::new();
    let mut i: usize = 0;
    assert(out@.map_values(|t: String| t@) =~= runnable_statements(scripts@.take(0)));
    while i < scripts.len()
        invariant
            i <= scripts@.len(),
            out@.map_values(|t: String| t@) == runnable_statements(scripts@.take(i as int)),
        decreases scripts.len() - i,
    {
        proof {
            assert(scripts@.take(i + 1).drop_last() =~= scripts@.take(i as int));
            assert(scripts@.take(i + 1).last() == scripts@[i as int]);
        }
        let st = &scripts[i].statements;
        let ghost base = out@.map_values(|t: String| t@);
        let mut j: usize = 0;
        assert(st@.take(0) =~= Seq::<String>::empty());
        while j < st.len()
            invariant
                j <= st@.len(),
                out@.map_values(|t: String| t@) == base + nonblank(st@.take(j as int)),
            decreases st.len() - j,
        {
            proof {
                assert(st@.take(j + 1).drop_last() =~= st@.take(j as int));
                assert(st@.take(j + 1).last() == st@[j as int]);
            }
            let ghost before = out@.map_values(|t: String| t@);
            if trim_chars(&chars_of(st[j].as_str())).len() > 0 {
                out.push(st[j].clone());
                assert(out@.map_values(|t: String| t@) =~= before.push(st@[j as int]@));
            }
            assert(out@.map_values(|t: String| t@) =~= base + nonblank(st@.take(j + 1)));
            j += 1;
        }
        assert(st@.take(st@.len() as int) =~= st@);
        i += 1;
    }
    assert(scripts@.take(scripts@.len() as int) =~= scripts@);
    out
}

/// The pragmas set when the database starts: foreign keys always, secure
/// deletion when secrets are encrypted.
pub fn startup_pragmas(encryption: bool) -> (r: Vec<&'static str>)
    ensures
        r@.len() == if encryption { 2int } else { 1int },
        r@[0]@ == "PRAGMA foreign_keys = ON"@,
        encryption ==> r@[1]@ == "PRAGMA secure_delete = ON"@,
{
    let mut out: Vec<&'static str> = Vec::new();
    out.push("PRAGMA foreign_keys = ON");
    if encryption {
        out.push("PRAGMA secure_delete = ON");
    }
    out
}

/// The AI features configured when the database is first made: chat,
/// explanation and command search, all on, with their settings as JSON.
pub fn default_features() -> (r: Vec<(String, bool, String)>)
    ensures
        r@.len() == 3,
        r@[0].0@ == "chat"@ && r@[0].1 && r@[0].2@ == "{\"max_history\":100,\"auto_save\":true}"@,
        r@[1].0@ == "explanation"@ && r@[1].1 && r@[1].2@ == "{\"auto_explain\":false}"@,
        r@[2].0@ == "command_search"@ && r@[2].1 && r@[2].2@ == "{\"max_results\":50}"@,
{
    let mut out: Vec<(String, bool, String)> = Vec::new();
    out.push((owned("chat"), true, owned("{\"max_history\":100,\"auto_save\":true}")));
    out.push((owned("explanation"), true, owned("{\"auto_explain\":false}")));
    out.push((owned("command_search"), true, owned("{\"max_results\":50}")));
    out
}

/// The statement that adds a default feature unless it is configured.
pub fn default_feature_statement() -> (r: &'static str)
    ensures
        r@ == "INSERT OR IGNORE INTO ai_features (feature_name, enabled, config_json) VALUES (?, ?, ?)"@,
{
    "INSERT OR IGNORE INTO ai_features (feature_name, enabled, config_json) VALUES (?, ?, ?)"
}

} // verus!
