//! Reading the report of the `ck` indexer.
use vstd::prelude::*;
use crate::text::{chars_of, contains_chars, contains_seq, int_text, owned, parse_signed, push_int, push_str, signed_text_value, std_lines, std_lines_of, string_of};
use crate::storage::repositories::vector_workspaces::{IndexStatus, WorkspaceIndex};
use crate::clock::utc_now_millis;

verus! {

/// The text of the first group of the first match of `pattern` in `text`
/// (the `regex` crate's syntax), or `None` when the pattern does not
/// compile, does not match, or its first group takes no part.
pub uninterp spec fn regex_first_group(pattern: Seq<char>, text: Seq<char>) -> Option<Seq<char>>;

/// `regex::Regex::new(pattern)` then `captures(text)` and group 1: the
/// group's text exactly as `regex_first_group` names it.
#[verifier::external_body]
fn first_group(pattern: &str, text: &str) -> (r: Option<String>)
    ensures
        match r {
            Some(g) => regex_first_group(pattern@, text@) == Some(g@),
            None => regex_first_group(pattern@, text@) is None,
        },
{
    match regex::Regex::new(pattern) {
        Ok(re) => match re.captures(text) {
            Some(caps) => match caps.get(1) {
                Some(m) => Some(m.as_str().to_string()),
                None => None,
            },
            None => None,
        },
        Err(_) => None,
    }
}

/// The pattern of a file count.
pub const FILES_PATTERN: &'static str = "(\\d+)\\s+files";

/// The pattern of an index size.
pub const SIZE_PATTERN: &'static str = "(\\d+)\\s*(?:bytes|B)";

/// A parsed number that fits in `min..=max`, else 0 (what
/// `parse().unwrap_or(0)` gives).
pub open spec fn number_or_zero(text: Seq<char>, min: int, max: int) -> int {
    match signed_text_value(text) {
        Some(v) => if min <= v <= max {
            v
        } else {
            0
        },
        None => 0,
    }
}

/// The (file count, index size) read from the first `n` lines: the last
/// line naming files that matches the count pattern sets the count, the
/// last line naming a size or bytes that matches the size pattern sets the
/// size.
pub open spec fn ck_counts(lines: Seq<Seq<char>>, n: int) -> (int, int)
    decreases n,
{
    if n <= 0 || n > lines.len() {
        (0, 0)
    } else {
        let (files, size) = ck_counts(lines, n - 1);
        let line = lines[n - 1];
        let files2 = if contains_seq(line, "files"@) {
            match regex_first_group(FILES_PATTERN@, line) {
                Some(g) => number_or_zero(g, i32::MIN as int, i32::MAX as int),
                None => files,
            }
        } else {
            files
        };
        let size2 = if contains_seq(line, "size"@) || contains_seq(line, "bytes"@) {
            match regex_first_group(SIZE_PATTERN@, line) {
                Some(g) => number_or_zero(g, i64::MIN as int, i64::MAX as int),
                None => size,
            }
        } else {
            size
        };
        (files2, size2)
    }
}

/// The file count and index size in the output of `ck index`; a count of
/// 0 is taken as 1 file and a size of 0 as 1024 bytes.
fn parse_ck_report(output: &str) -> (r: Result<(i32, i64), String>)
    ensures
        r matches Ok((files, size)) && ck_report(output@) == (files as int, size as int),
{
    let text = chars_of(output);
    let lines = std_lines_of(&text);
    let ghost ls = std_lines(output@);
    let files_word = chars_of("files");
    let size_word = chars_of("size");
    let bytes_word = chars_of("bytes");
    let mut file_count: i32 = 0;
    let mut index_size: i64 = 0;
    let mut i: usize = 0;
    while i < lines.len()
        invariant
            i <= lines@.len(),
            ls == std_lines(output@),
            lines@.len() == ls.len(),
            forall|k: int| 0 <= k < ls.len() ==> #[trigger] lines@[k]@ == ls[k],
            files_word@ == "files"@,
            size_word@ == "size"@,
            bytes_word@ == "bytes"@,
            ck_counts(ls, i as int) == (file_count as int, index_size as int),
        decreases lines.len() - i,
    {
        proof {
            assert(lines@[i as int]@ == ls[i as int]);
        }
        let line = string_of(&lines[i]);
        if contains_chars(&lines[i], &files_word) {
            if let Some(g) = first_group(FILES_PATTERN, line.as_str()) {
                file_count = match parse_signed(&chars_of(g.as_str()), i32::MIN as i64, i32::MAX as i64) {
                    Some(v) => v as i32,
                    None => 0,
                };
            }
        }
        if contains_chars(&lines[i], &size_word) || contains_chars(&lines[i], &bytes_word) {
            if let Some(g) = first_group(SIZE_PATTERN, line.as_str()) {
                index_size = match parse_signed(&chars_of(g.as_str()), i64::MIN, i64::MAX) {
                    Some(v) => v,
                    None => 0,
                };
            }
        }
        i += 1;
    }
    if file_count == 0 {
        file_count = 1;
    }
    if index_size == 0 {
        index_size = 1024;
    }
    Ok((file_count, index_size))
}

/// The counts `ck index` reports, with the defaults for a missing count.
pub open spec fn ck_report(output: Seq<char>) -> (int, int) {
    let ls = std_lines(output);
    let (files, size) = ck_counts(ls, ls.len() as int);
    (if files == 0 {
        1
    } else {
        files
    }, if size == 0 {
        1024
    } else {
        size
    })
}

/// `prefix` followed by `text`.
fn message_with(prefix: &str, text: &str) -> (r: String)
    ensures
        r@ == prefix@ + text@,
{
    let mut m = owned(prefix);
    push_str(&mut m, text);
    m
}

/// An error message whose text is `t`.
pub open spec fn error_text_is(m: Option<String>, t: Seq<char>) -> bool {
    m matches Some(s) && s@ == t
}

/// The message of a check whose index files are gone.
pub open spec fn files_missing_message() -> Seq<char> {
    "索引文件缺失"@
}

/// The message of a refresh whose workspace is gone.
pub open spec fn path_missing_message() -> Seq<char> {
    "工作区路径不存在"@
}

/// The status change that a finished build makes to its record.
#[derive(Debug)]
pub struct BuildStatusUpdate {
    pub status: IndexStatus,
    pub file_count: Option<i32>,
    pub index_size: Option<i64>,
    pub error_message: Option<String>,
}

/// The decisions of the workspace index service. Reading and writing the
/// records, looking at the disk and running the indexer are the caller's
/// part: it hands in what it found and carries out what comes back.
pub struct WorkspaceIndexService;

impl WorkspaceIndexService {
    /// The file count and index size in the output of `ck index`: on each
    /// line that names files, the number before `files`; on each line that
    /// names a size or bytes, the number before `bytes` or `B`; the last
    /// such line counts. A count of 0 is taken as 1 file, a size of 0 as
    /// 1024 bytes.
    pub fn parse_ck_output(output: &str) -> (r: Result<(i32, i64), String>)
        ensures
            r matches Ok((files, size)) && ck_report(output@) == (files as int, size as int),
    {
        parse_ck_report(output)
    }

    /// What a check of a workspace's index finds: the record as it is when
    /// its files are on disk; when they are gone, the record marked failed,
    /// which is to be stored (the second value). No record, nothing to do.
    pub fn check_index(found: Option<WorkspaceIndex>, files_exist: bool) -> (r: (
        Option<WorkspaceIndex>,
        bool,
    ))
        ensures
            match found {
                None => r.0 is None && !r.1,
                Some(idx) => if files_exist {
                    r.0 == Some(idx) && !r.1
                } else {
                    r.1 && (r.0 matches Some(marked) && marked.status == IndexStatus::Error
                        && error_text_is(marked.error_message, files_missing_message())
                        && marked.id == idx.id && marked.workspace_path == idx.workspace_path
                        && marked.name == idx.name && marked.file_count == idx.file_count
                        && marked.index_size_bytes == idx.index_size_bytes
                        && marked.created_at == idx.created_at)
                },
            },
    {
        match found {
            None => (None, false),
            Some(idx) => if files_exist {
                (Some(idx), false)
            } else {
                let mut marked = idx;
                marked.mark_error(owned("索引文件缺失"));
                (Some(marked), true)
            },
        }
    }

    /// The record of a new index, before it is built: refused when the
    /// workspace is not on disk or already has an index.
    pub fn prepare_build(
        normalized_path: String,
        name: Option<String>,
        path_exists: bool,
        already_indexed: bool,
    ) -> (r: Result<WorkspaceIndex, String>)
        ensures
            !path_exists ==> (r matches Err(m) && m@ == "工作区路径不存在: "@ + normalized_path@),
            path_exists && already_indexed ==> (r matches Err(m) && m@ == "工作区索引已存在: "@
                + normalized_path@),
            path_exists && !already_indexed ==> (r matches Ok(idx) && idx.id is None
                && idx.workspace_path == normalized_path && idx.name == name && idx.status
                == IndexStatus::Building && idx.file_count == 0 && idx.index_size_bytes == 0
                && idx.error_message is None),
    {
        if !path_exists {
            return Err(message_with("工作区路径不存在: ", normalized_path.as_str()));
        }
        if already_indexed {
            return Err(message_with("工作区索引已存在: ", normalized_path.as_str()));
        }
        Ok(WorkspaceIndex::new(normalized_path, name))
    }

    /// A record about to be rebuilt: reset to building, empty and without
    /// error. When its workspace is gone, the record marked failed (to be
    /// stored) and the error.
    pub fn prepare_refresh(index: WorkspaceIndex, path_exists: bool) -> (r: Result<
        WorkspaceIndex,
        (WorkspaceIndex, String),
    >)
        ensures
            path_exists ==> (r matches Ok(idx) && idx.status == IndexStatus::Building
                && idx.file_count == 0 && idx.index_size_bytes == 0 && idx.error_message is None
                && idx.id == index.id && idx.workspace_path == index.workspace_path && idx.name
                == index.name && idx.created_at == index.created_at),
            !path_exists ==> (r matches Err((marked, m)) && marked.status == IndexStatus::Error
                && error_text_is(marked.error_message, path_missing_message())
                && marked.id == index.id && marked.workspace_path == index.workspace_path
                && marked.name == index.name && marked.file_count == index.file_count
                && marked.index_size_bytes == index.index_size_bytes
                && marked.created_at == index.created_at
                && m@ == "工作区路径不存在: "@ + index.workspace_path@),
    {
        let mut idx = index;
        if !path_exists {
            idx.mark_error(owned("工作区路径不存在"));
            let m = message_with("工作区路径不存在: ", idx.workspace_path.as_str());
            return Err((idx, m));
        }
        idx.status = IndexStatus::Building;
        idx.file_count = 0;
        idx.index_size_bytes = 0;
        idx.error_message = None;
        idx.updated_at = utc_now_millis();
        Ok(idx)
    }

    /// The status a finished build gives its record: ready with the counts,
    /// or failed with the error.
    pub fn build_status_update(result: Result<(i32, i64), String>) -> (r: BuildStatusUpdate)
        ensures
            match result {
                Ok((files, size)) => r.status == IndexStatus::Ready && r.file_count == Some(files)
                    && r.index_size == Some(size) && r.error_message is None,
                Err(e) => r.status == IndexStatus::Error && r.file_count is None && r.index_size
                    is None && r.error_message == Some(e),
            },
    {
        match result {
            Ok((files, size)) => BuildStatusUpdate {
                status: IndexStatus::Ready,
                file_count: Some(files),
                index_size: Some(size),
                error_message: None,
            },
            Err(e) => BuildStatusUpdate {
                status: IndexStatus::Error,
                file_count: None,
                index_size: None,
                error_message: Some(e),
            },
        }
    }

    /// The error of a request for an index id that has no record.
    pub fn missing_index_message(id: i32) -> (r: String)
        ensures
            r@ == "工作区索引不存在: "@ + int_text(id as int),
    {
        let mut out = chars_of("工作区索引不存在: ");
        push_int(&mut out, id as i64);
        string_of(&out)
    }
}

} // verus!
