//! SQL script catalog: file-name ordering and statement splitting.
//!
//! A script file is named with a numeric order prefix (`01_tables.sql`) and
//! holds statements separated by `;`, with `--` and `/* */` comments and
//! `CREATE TRIGGER ... END;` blocks that keep their inner semicolons.
use vstd::prelude::*;
use crate::storage::error::SqlScriptError;
use crate::text::{
    chars_of, digits_value, ends_with, ends_with_chars, extend_chars, is_ascii_digit, line_pieces,
    lemma_split_on_nonempty, lines_of, owned, parse_digits, slice_chars, split_on, starts_with,
    starts_with_chars, str_uppercase, string_of, to_uppercase, trim, trim_chars, trim_end, trim_start, is_ws,
};

verus! {

/// Loader of the SQL scripts kept in one directory.
pub struct SqlScriptLoader {
    pub sql_dir: String,
}

/// One loaded SQL script.
#[derive(Debug, Clone)]
pub struct SqlScript {
    pub path: String,
    pub name: String,
    pub order: u32,
    pub statements: Vec<String>,
}

/// Scanner state while the lines of a script are read.
pub struct SqlScanState {
    pub statements: Seq<Seq<char>>,
    pub current: Seq<char>,
    pub in_comment: bool,
    pub in_trigger: bool,
}

pub open spec fn initial_scan() -> SqlScanState {
    SqlScanState {
        statements: Seq::empty(),
        current: Seq::empty(),
        in_comment: false,
        in_trigger: false,
    }
}

/// Adds the statement text gathered so far: one trailing `;` goes, the rest
/// is trimmed, and an empty statement is dropped.
pub open spec fn flush_statement(stmts: Seq<Seq<char>>, cur: Seq<char>) -> Seq<Seq<char>> {
    let body = if ends_with(cur, ";"@) {
        cur.drop_last()
    } else {
        cur
    };
    if trim(body).len() > 0 {
        stmts.push(trim(body))
    } else {
        stmts
    }
}

/// The text gathered so far with `line` appended, separated by one space.
pub open spec fn joined(cur: Seq<char>, line: Seq<char>) -> Seq<char> {
    if cur.len() == 0 {
        line
    } else {
        cur.push(' ') + line
    }
}

pub open spec fn opens_trigger(upper: Seq<char>) -> bool {
    starts_with(upper, "CREATE TRIGGER"@) || starts_with(upper, "CREATE TEMP TRIGGER"@)
}

/// How one line changes the scanner state.
pub open spec fn scan_line(st: SqlScanState, line: Seq<char>) -> SqlScanState {
    let t = trim(line);
    if t.len() == 0 {
        st
    } else if starts_with(t, "/*"@) {
        SqlScanState { in_comment: true, ..st }
    } else if ends_with(t, "*/"@) {
        SqlScanState { in_comment: false, ..st }
    } else if st.in_comment || starts_with(t, "--"@) {
        st
    } else {
        let upper = str_uppercase(t);
        let cur = joined(st.current, t);
        if st.in_trigger || opens_trigger(upper) {
            if ends_with(upper, "END;"@) {
                SqlScanState {
                    statements: flush_statement(st.statements, cur),
                    current: Seq::empty(),
                    in_trigger: false,
                    ..st
                }
            } else {
                SqlScanState { current: cur, in_trigger: true, ..st }
            }
        } else if ends_with(t, ";"@) {
            SqlScanState {
                statements: flush_statement(st.statements, cur),
                current: Seq::empty(),
                ..st
            }
        } else {
            SqlScanState { current: cur, ..st }
        }
    }
}

/// The scanner state after all of `lines`.
pub open spec fn scan_lines(lines: Seq<Seq<char>>) -> SqlScanState
    decreases lines.len(),
{
    if lines.len() == 0 {
        initial_scan()
    } else {
        scan_line(scan_lines(lines.drop_last()), lines.last())
    }
}

/// The statements of a script: those the scan completed, then the text left
/// over at the end, if it is not blank.
pub open spec fn sql_statements(content: Seq<char>) -> Seq<Seq<char>> {
    let st = scan_lines(line_pieces(content));
    if trim(st.current).len() > 0 {
        st.statements.push(trim(st.current))
    } else {
        st.statements
    }
}

/// The part of a file name before its first `_`.
pub open spec fn order_prefix(filename: Seq<char>) -> Seq<char> {
    split_on(filename, '_')[0]
}

/// The leading ASCII digits of `s`.
pub open spec fn leading_digits(s: Seq<char>) -> Seq<char>
    decreases s.len(),
{
    if s.len() > 0 && is_ascii_digit(s[0]) {
        seq![s[0]] + leading_digits(s.drop_first())
    } else {
        Seq::empty()
    }
}

proof fn lemma_leading_digits(s: Seq<char>, i: int)
    requires
        0 <= i <= s.len(),
        forall|k: int| 0 <= k < i ==> is_ascii_digit(#[trigger] s[k]),
        i == s.len() || !is_ascii_digit(s[i]),
    ensures
        leading_digits(s) == s.take(i),
    decreases i,
{
    if i > 0 {
        let t = s.drop_first();
        assert forall|k: int| 0 <= k < i - 1 implies is_ascii_digit(#[trigger] t[k]) by {
            assert(t[k] == s[k + 1]);
        }
        lemma_leading_digits(t, i - 1);
        assert(seq![s[0]] + t.take(i - 1) =~= s.take(i));
    } else {
        assert(s.take(0) =~= Seq::<char>::empty());
    }
}

proof fn lemma_split_first_piece(s: Seq<char>, sep: char, i: int)
    requires
        0 <= i <= s.len(),
        forall|k: int| 0 <= k < i ==> #[trigger] s[k] != sep,
    ensures
        split_on(s.take(i), sep) == seq![s.take(i)],
    decreases i,
{
    if i == 0 {
        assert(s.take(0) =~= Seq::<char>::empty());
    } else {
        lemma_split_first_piece(s, sep, i - 1);
        let t = s.take(i);
        assert(t.drop_last() =~= s.take(i - 1));
        assert(t.last() == s[i - 1]);
        assert(s.take(i - 1).push(s[i - 1]) =~= t);
    }
}

proof fn lemma_split_first_piece_stable(s: Seq<char>, sep: char, i: int)
    requires
        0 <= i <= s.len(),
        split_on(s.take(i), sep).len() >= 2,
    ensures
        split_on(s, sep)[0] == split_on(s.take(i), sep)[0],
        split_on(s, sep).len() >= 2,
    decreases s.len() - i,
{
    if i == s.len() {
        assert(s.take(i) =~= s);
    } else {
        let t = s.take(i + 1);
        assert(t.drop_last() =~= s.take(i));
        lemma_split_on_nonempty(s.take(i), sep);
        assert(split_on(t, sep)[0] == split_on(s.take(i), sep)[0]);
        assert(split_on(t, sep).len() >= 2);
        lemma_split_first_piece_stable(s, sep, i + 1);
    }
}

/// The order a file name gives, as `parse_order_from_filename` finds it.
pub open spec fn filename_order(filename: Seq<char>) -> Result<u32, SqlScriptError> {
    let digits = leading_digits(order_prefix(filename));
    if digits.len() == 0 {
        Err(SqlScriptError::MissingOrder { filename: arbitrary() })
    } else if digits_value(digits) > u32::MAX {
        Err(SqlScriptError::ParseOrder { filename: arbitrary(), source: arbitrary() })
    } else {
        Ok(digits_value(digits) as u32)
    }
}

impl SqlScriptLoader {
    pub fn new(sql_dir: String) -> (r: Self)
        ensures
            r.sql_dir == sql_dir,
    {
        SqlScriptLoader { sql_dir }
    }

    /// The execution order of a script, from the digits that start its
    /// file name (the part before the first `_`): `01_tables` gives 1.
    /// A name that starts with no digit is refused with `MissingOrder`, and
    /// digits denoting more than `u32::MAX` with `ParseOrder`; each carries
    /// the part before the first `_`.
    pub fn parse_order_from_filename(&self, filename: &str) -> (r: Result<u32, SqlScriptError>)
        ensures
            r is Ok <==> filename_order(filename@) is Ok,
            r matches Ok(v) ==> filename_order(filename@) == Ok::<u32, SqlScriptError>(v),
            r matches Err(e) ==> {
                &&& (e is MissingOrder <==> filename_order(filename@) is Err
                    && leading_digits(order_prefix(filename@)).len() == 0)
                &&& (e matches SqlScriptError::MissingOrder { filename: f } ==> f@ == order_prefix(
                    filename@,
                ))
                &&& (e matches SqlScriptError::ParseOrder { filename: f, source: _ } ==> f@
                    == order_prefix(filename@))
            },
    {
        let name = chars_of(filename);
        // the part before the first '_'
        let mut end: usize = 0;
        while end < name.len() && name[end] != '_'
            invariant
                end <= name.len(),
                forall|k: int| 0 <= k < end ==> #[trigger] name@[k] != '_',
            decreases name.len() - end,
        {
            end += 1;
        }
        let raw = slice_chars(&name, 0, end);
        proof {
            lemma_split_first_piece(name@, '_', end as int);
            if end < name@.len() {
                let t = name@.take(end + 1);
                assert(t.drop_last() =~= name@.take(end as int));
                assert(t.last() == '_');
                lemma_split_first_piece_stable(name@, '_', end + 1);
            } else {
                assert(name@.take(end as int) =~= name@);
            }
            assert(raw@ =~= name@.take(end as int));
        }
        let mut n: usize = 0;
        while n < raw.len() && '0' <= raw[n] && raw[n] <= '9'
            invariant
                n <= raw.len(),
                forall|k: int| 0 <= k < n ==> is_ascii_digit(#[trigger] raw@[k]),
            decreases raw.len() - n,
        {
            n += 1;
        }
        let digits = slice_chars(&raw, 0, n);
        proof {
            lemma_leading_digits(raw@, n as int);
            assert(digits@ =~= raw@.take(n as int));
        }
        if digits.len() == 0 {
            return Err(SqlScriptError::MissingOrder { filename: string_of(&raw) });
        }
        match parse_digits(&digits, 0xFFFF_FFFF) {
            Some(v) => Ok(v as u32),
            None => {
                let mut msg = owned("number too large to fit in target type");
                Err(SqlScriptError::ParseOrder { filename: string_of(&raw), source: msg })
            },
        }
    }

    /// Splits the text of a script into its statements, as
    /// `sql_statements` describes it: comments and blank lines are skipped,
    /// the lines of a statement are trimmed and joined by single spaces, a
    /// statement ends at a line ending in `;` (inside `CREATE TRIGGER`, at a
    /// line ending in `END;`), and its final `;` is dropped.
    pub fn parse_sql_statements(&self, content: &str) -> (r: Result<Vec<String>, SqlScriptError>)
        ensures
            r matches Ok(v) && v@.len() == sql_statements(content@).len() && forall|k: int|
                0 <= k < v@.len() ==> #[trigger] v@[k]@ == sql_statements(content@)[k],
    {
        let text = chars_of(content);
        let lines = lines_of(&text);
        let open_comment = chars_of("/*");
        let close_comment = chars_of("*/");
        let line_comment = chars_of("--");
        let trigger_a = chars_of("CREATE TRIGGER");
        let trigger_b = chars_of("CREATE TEMP TRIGGER");
        let trigger_end = chars_of("END;");
        let semi = chars_of(";");

        let mut statements: Vec<String> = Vec::new();
        let mut current: Vec<char> = Vec::new();
        let mut in_comment = false;
        let mut in_trigger = false;
        let mut i: usize = 0;
        while i < lines.len()
            invariant
                i <= lines@.len(),
                lines@.len() == line_pieces(text@).len(),
                forall|k: int| 0 <= k < lines@.len() ==> #[trigger] lines@[k]@ == line_pieces(
                    text@,
                )[k],
                text@ == content@,
                open_comment@ == "/*"@,
                close_comment@ == "*/"@,
                line_comment@ == "--"@,
                trigger_a@ == "CREATE TRIGGER"@,
                trigger_b@ == "CREATE TEMP TRIGGER"@,
                trigger_end@ == "END;"@,
                semi@ == ";"@,
                ({
                    let st = scan_lines(line_pieces(text@).take(i as int));
                    &&& statements@.len() == st.statements.len()
                    &&& forall|k: int|
                        0 <= k < statements@.len() ==> #[trigger] statements@[k]@
                            == st.statements[k]
                    &&& current@ == st.current
                    &&& in_comment == st.in_comment
                    &&& in_trigger == st.in_trigger
                }),
            decreases lines@.len() - i,
        {
            let ghost pieces = line_pieces(text@);
            let ghost before = scan_lines(pieces.take(i as int));
            proof {
                assert(pieces.take(i + 1).drop_last() =~= pieces.take(i as int));
                assert(pieces.take(i + 1).last() == lines@[i as int]@);
            }
            let t = trim_chars(&lines[i]);
            if t.len() == 0 {
            } else if starts_with_chars(&t, &open_comment) {
                in_comment = true;
            } else if ends_with_chars(&t, &close_comment) {
                in_comment = false;
            } else if in_comment || starts_with_chars(&t, &line_comment) {
            } else {
                let ts = string_of(&t);
                let upper_s = to_uppercase(ts.as_str());
                let upper = chars_of(upper_s.as_str());
                // the statement text with this line appended
                if current.len() > 0 {
                    current.push(' ');
                }
                extend_chars(&mut current, &t);
                proof {
                    if before.current.len() > 0 {
                        assert(current@ =~= before.current.push(' ') + t@);
                    } else {
                        assert(current@ =~= t@);
                    }
                }
                let opens = in_trigger || starts_with_chars(&upper, &trigger_a)
                    || starts_with_chars(&upper, &trigger_b);
                if opens {
                    if ends_with_chars(&upper, &trigger_end) {
                        Self::flush(&mut statements, &mut current, &semi);
                        in_trigger = false;
                    } else {
                        in_trigger = true;
                    }
                } else if ends_with_chars(&t, &semi) {
                    Self::flush(&mut statements, &mut current, &semi);
                }
            }
            i += 1;
        }
        proof {
            assert(line_pieces(text@).take(lines@.len() as int) =~= line_pieces(text@));
        }
        let rest = trim_chars(&current);
        if rest.len() > 0 {
            statements.push(string_of(&rest));
        }
        Ok(statements)
    }

    /// Ends the statement gathered in `current`.
    fn flush(statements: &mut Vec<String>, current: &mut Vec<char>, semi: &Vec<char>)
        requires
            semi@ == ";"@,
        ensures
            final(current)@ == Seq::<char>::empty(),
            final(statements)@.len() == flush_statement(
                old(statements)@.map_values(|s: String| s@),
                old(current)@,
            ).len(),
            forall|k: int|
                0 <= k < final(statements)@.len() ==> #[trigger] final(statements)@[k]@
                    == flush_statement(old(statements)@.map_values(|s: String| s@), old(current)@)[k],
    {
        let ghost olds = old(statements)@.map_values(|s: String| s@);
        let ghost cur0 = current@;
        proof {
            reveal_strlit(";");
        }
        if ends_with_chars(current, semi) {
            let _ = current.pop();
            assert(current@ =~= cur0.drop_last());
        }
        let ghost b = current@;
        let body = trim_chars(current);
        if body.len() > 0 {
            statements.push(string_of(&body));
        }
        *current = Vec::new();
        proof {
            let fs = flush_statement(olds, cur0);
            assert(b == if ends_with(cur0, ";"@) { cur0.drop_last() } else { cur0 });
            if body@.len() > 0 {
                assert(fs == olds.push(trim(b)));
            } else {
                assert(fs == olds);
            }
            assert(statements@.len() == fs.len());
            assert forall|k: int| 0 <= k < statements@.len() implies #[trigger] statements@[k]@
                == fs[k] by {
                if k < olds.len() {
                    assert(olds[k] == old(statements)@[k]@);
                }
            }
        }
    }
}

/// Lines joined by single spaces.
pub open spec fn spaced(lines: Seq<Seq<char>>) -> Seq<char>
    decreases lines.len(),
{
    if lines.len() == 0 {
        Seq::empty()
    } else if lines.len() == 1 {
        lines[0]
    } else {
        spaced(lines.drop_last()).push(' ') + lines.last()
    }
}

/// A line of code as the scanner sees it: non-empty, already trimmed, and
/// neither a comment nor the start or end of one.
pub open spec fn code_line(l: Seq<char>) -> bool {
    &&& l.len() > 0
    &&& trim(l) == l
    &&& !starts_with(l, "/*"@)
    &&& !ends_with(l, "*/"@)
    &&& !starts_with(l, "--"@)
}

proof fn lemma_trim_start_len(s: Seq<char>)
    ensures
        trim_start(s).len() <= s.len(),
        s.len() > 0 && is_ws(s[0]) ==> trim_start(s).len() < s.len(),
    decreases s.len(),
{
    if s.len() > 0 && is_ws(s[0]) {
        lemma_trim_start_len(s.drop_first());
    }
}

proof fn lemma_trim_end_len(s: Seq<char>)
    ensures
        trim_end(s).len() <= s.len(),
        s.len() > 0 && !is_ws(s[0]) ==> trim_end(s).len() > 0,
    decreases s.len(),
{
    if s.len() > 0 && is_ws(s.last()) {
        lemma_trim_end_len(s.drop_last());
        if !is_ws(s[0]) {
            assert(s.len() > 1);
            assert(s.drop_last()[0] == s[0]);
        }
    }
}

proof fn lemma_spaced_first(x: Seq<Seq<char>>)
    requires
        x.len() >= 1,
        x[0].len() > 0,
    ensures
        spaced(x).len() > 0,
        spaced(x)[0] == x[0][0],
    decreases x.len(),
{
    if x.len() > 1 {
        assert(x.drop_last()[0] == x[0]);
        lemma_spaced_first(x.drop_last());
    }
}

/// The scanner state inside a trigger block, after its first `k` lines.
proof fn lemma_trigger_prefix(pre: Seq<Seq<char>>, block: Seq<Seq<char>>, k: int)
    requires
        !scan_lines(pre).in_comment,
        !scan_lines(pre).in_trigger,
        scan_lines(pre).current.len() == 0,
        1 <= k < block.len(),
        forall|i: int| 0 <= i < block.len() ==> code_line(#[trigger] block[i]),
        starts_with(str_uppercase(block[0]), "CREATE TRIGGER"@) || starts_with(
            str_uppercase(block[0]),
            "CREATE TEMP TRIGGER"@,
        ),
        forall|i: int| 0 <= i < block.len() - 1 ==> !ends_with(str_uppercase(#[trigger] block[i]), "END;"@),
    ensures
        scan_lines(pre + block.take(k)).statements == scan_lines(pre).statements,
        scan_lines(pre + block.take(k)).current == spaced(block.take(k)),
        scan_lines(pre + block.take(k)).in_trigger,
        !scan_lines(pre + block.take(k)).in_comment,
    decreases k,
{
    let l = block[k - 1];
    assert(code_line(l));
    let xs = pre + block.take(k);
    assert(xs.drop_last() =~= pre + block.take(k - 1));
    assert(xs.last() == l);
    assert(block.take(k).drop_last() =~= block.take(k - 1));
    assert(block.take(k).last() == l);
    if k == 1 {
        assert(pre + block.take(0) =~= pre);
        assert(opens_trigger(str_uppercase(l)));
        assert(spaced(block.take(1)) == l);
    } else {
        lemma_trigger_prefix(pre, block, k - 1);
        assert(block.take(k - 1)[0] == block[0]);
        lemma_spaced_first(block.take(k - 1));
    }
}

/// A `CREATE TRIGGER` block is one statement, semicolons inside it
/// included: when a script's lines are some lines after which no statement,
/// comment or trigger is left open, followed by a block of code lines that
/// opens a trigger (`CREATE TRIGGER` or `CREATE TEMP TRIGGER`, in any case), has no line ending in `END;` before its last line, and
/// ends with a line ending in `END;`, the statements of the script are
/// those of the earlier lines and then the whole block, its lines joined by
/// single spaces, with only its final `;` dropped.
pub proof fn law_trigger_block_is_one_statement(content: Seq<char>, pre: Seq<Seq<char>>, block: Seq<Seq<char>>)
    requires
        line_pieces(content) == pre + block,
        !scan_lines(pre).in_comment,
        !scan_lines(pre).in_trigger,
        scan_lines(pre).current.len() == 0,
        block.len() >= 2,
        forall|i: int| 0 <= i < block.len() ==> code_line(#[trigger] block[i]),
        starts_with(str_uppercase(block[0]), "CREATE TRIGGER"@) || starts_with(
            str_uppercase(block[0]),
            "CREATE TEMP TRIGGER"@,
        ),
        forall|i: int| 0 <= i < block.len() - 1 ==> !ends_with(str_uppercase(#[trigger] block[i]), "END;"@),
        ends_with(str_uppercase(block.last()), "END;"@),
        ends_with(block.last(), ";"@),
    ensures
        sql_statements(content) == scan_lines(pre).statements.push(
            trim(spaced(block).drop_last()),
        ),
        trim(spaced(block).drop_last()).len() > 0,
{
    let n = block.len() as int;
    lemma_trigger_prefix(pre, block, n - 1);
    let l = block.last();
    assert(code_line(l));
    let xs = pre + block;
    assert(xs.drop_last() =~= pre + block.take(n - 1));
    assert(xs.last() == l);
    assert(block.drop_last() =~= block.take(n - 1));
    let cur = spaced(block);
    assert(cur == spaced(block.take(n - 1)).push(' ') + l);
    // the block ends with the last line's `;`
    assert(cur.skip(cur.len() - 1) =~= l.skip(l.len() - 1));
    let body = cur.drop_last();
    // the block starts with the first line's first character, which is no space
    assert(block.take(n - 1)[0] == block[0]);
    lemma_spaced_first(block.take(n - 1));
    assert(code_line(block[0]));
    lemma_trim_start_len(block[0]);
    lemma_trim_end_len(trim_start(block[0]));
    assert(!is_ws(block[0][0]));
    assert(body[0] == block[0][0]);
    assert(trim_start(body) == body);
    lemma_trim_end_len(body);
    let st0 = scan_lines(pre + block.take(n - 1));
    assert(scan_lines(xs) == scan_line(st0, l));
    assert(trim(l) == l);
    assert(st0.current.len() > 0);
    assert(joined(st0.current, l) == cur);
    reveal_strlit(";");
    assert(ends_with(cur, ";"@));
    assert(trim(body).len() > 0);
    assert(flush_statement(st0.statements, cur) == st0.statements.push(trim(body)));
    let st = scan_lines(xs);
    assert(st.statements == scan_lines(pre).statements.push(trim(body)));
    assert(st.current.len() == 0);
}

} // verus!
