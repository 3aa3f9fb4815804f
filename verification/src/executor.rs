//! Classifying one SQL statement and assembling its result.
//!
//! A statement is classified by whether its text, after leading
//! whitespace, begins with `SELECT` in any letter case. This is a
//! documented heuristic, not a parser, and is not to be strengthened.
//! Whitespace means the Unicode white-space characters, and the letters
//! are folded as Unicode upper-casing folds them: besides `s`, the long
//! s `ſ` is the one character whose upper case is `S`, and no character
//! upper-cases to a multi-letter sequence that could begin `SELECT`.

use vstd::prelude::*;
use vstd::string::*;
use crate::coerce::{Cell, spec_coerce, coerce_row};

verus! {

/// How one statement is run: as a row-returning query or as a command
/// that reports an affected-row count.
#[derive(Clone, Copy, PartialEq, Eq, Structural, Debug)]
pub enum StatementKind {
    RowReturning,
    Command,
}

/// An ordered result set: column names, and rows of display strings
/// aligned positionally with the columns.
#[derive(Clone, Debug)]
pub struct QueryResult {
    pub columns: Vec<String>,
    pub rows: Vec<Vec<String>>,
}

/// The result of a non-row-returning statement.
#[derive(Clone, Copy, PartialEq, Eq, Structural, Debug)]
pub struct CommandResult {
    pub rows_affected: u64,
}

/// The Unicode white-space characters.
pub open spec fn is_sql_ws(c: char) -> bool {
    ('\u{09}' <= c && c <= '\u{0d}') || c == ' ' || c == '\u{85}' || c == '\u{a0}' || c
        == '\u{1680}' || ('\u{2000}' <= c && c <= '\u{200a}') || c == '\u{2028}' || c
        == '\u{2029}' || c == '\u{202f}' || c == '\u{205f}' || c == '\u{3000}'
}

/// The text with its leading whitespace removed.
pub open spec fn skip_ws(s: Seq<char>) -> Seq<char>
    decreases s.len(),
{
    if s.len() > 0 && is_sql_ws(s[0]) {
        skip_ws(s.drop_first())
    } else {
        s
    }
}

/// Whether the text, after leading whitespace, begins with `SELECT` in
/// any letter case: the first letter may also be the long s `ſ`, whose
/// upper case is `S`.
pub open spec fn spec_is_select(s: Seq<char>) -> bool {
    let t = skip_ws(s);
    t.len() >= 6 && (t[0] == 'S' || t[0] == 's' || t[0] == '\u{17f}') && (t[1] == 'E' || t[1]
        == 'e') && (t[2] == 'L' || t[2] == 'l') && (t[3] == 'E' || t[3] == 'e') && (t[4] == 'C'
        || t[4] == 'c') && (t[5] == 'T' || t[5] == 't')
}

/// The kind a statement text is classified as.
pub open spec fn spec_classify(s: Seq<char>) -> StatementKind {
    if spec_is_select(s) {
        StatementKind::RowReturning
    } else {
        StatementKind::Command
    }
}

fn is_sql_ws_exec(c: char) -> (r: bool)
    ensures
        r == is_sql_ws(c),
{
    ('\u{09}' <= c && c <= '\u{0d}') || c == ' ' || c == '\u{85}' || c == '\u{a0}' || c
        == '\u{1680}' || ('\u{2000}' <= c && c <= '\u{200a}') || c == '\u{2028}' || c
        == '\u{2029}' || c == '\u{202f}' || c == '\u{205f}' || c == '\u{3000}'
}

/// Classifies one statement: row-returning if and only if its text,
/// after leading whitespace, begins with `SELECT` in any letter case.
pub fn classify_statement(sql: &str) -> (k: StatementKind)
    ensures
        k == spec_classify(sql@),
{
    let len = sql.unicode_len();
    let mut i: usize = 0;
    proof {
        assert(sql@.skip(0) =~= sql@);
    }
    loop
        invariant
            i <= len,
            len == sql@.len(),
            skip_ws(sql@) == skip_ws(sql@.skip(i as int)),
        ensures
            i <= len,
            len == sql@.len(),
            skip_ws(sql@) == sql@.skip(i as int),
        decreases len - i,
    {
        if i >= len {
            proof {
                assert(sql@.skip(i as int) =~= Seq::<char>::empty());
            }
            break ;
        }
        let c = sql.get_char(i);
        if !is_sql_ws_exec(c) {
            proof {
                assert(sql@.skip(i as int)[0] == sql@[i as int]);
            }
            break ;
        }
        proof {
            assert(sql@.skip(i as int).drop_first() =~= sql@.skip(i as int + 1));
        }
        i = i + 1;
    }
    if len - i >= 6 {
        let c0 = sql.get_char(i);
        let c1 = sql.get_char(i + 1);
        let c2 = sql.get_char(i + 2);
        let c3 = sql.get_char(i + 3);
        let c4 = sql.get_char(i + 4);
        let c5 = sql.get_char(i + 5);
        let is_select = (c0 == 'S' || c0 == 's' || c0 == '\u{17f}') && (c1 == 'E' || c1 == 'e')
            && (c2 == 'L' || c2 == 'l') && (c3 == 'E' || c3 == 'e') && (c4 == 'C' || c4 == 'c')
            && (c5 == 'T' || c5 == 't');
        proof {
            assert forall|j: int| 0 <= j < 6 implies sql@.skip(i as int)[j] == sql@[i + j] by {}
        }
        if is_select {
            StatementKind::RowReturning
        } else {
            StatementKind::Command
        }
    } else {
        StatementKind::Command
    }
}

/// Assembles the result of a row-returning statement from the column
/// names and the decoded rows.
///
/// A statement that yields zero rows produces an empty column list and an
/// empty row list, whatever column names were offered: column names are
/// not recoverable from an empty result set, an accepted quirk. Otherwise
/// the column names are kept in order and every cell is coerced to its
/// display string, each row keeping its length.
pub fn assemble_query_result(columns: Vec<String>, rows: Vec<Vec<Cell>>) -> (r: QueryResult)
    ensures
        rows@.len() == 0 ==> r.columns@.len() == 0 && r.rows@.len() == 0,
        rows@.len() > 0 ==> {
            &&& r.columns@ == columns@
            &&& r.rows@.len() == rows@.len()
            &&& forall|i: int|
                0 <= i < rows@.len() ==> #[trigger] r.rows@[i]@.len() == rows@[i]@.len()
            &&& forall|i: int, j: int|
                0 <= i < rows@.len() && 0 <= j < rows@[i]@.len() ==> r.rows@[i]@[j]@
                    == spec_coerce(rows@[i]@[j].tag, rows@[i]@[j].value)
        },
        (forall|i: int| 0 <= i < rows@.len() ==> #[trigger] rows@[i]@.len() == columns@.len())
            ==> forall|i: int|
            0 <= i < r.rows@.len() ==> #[trigger] r.rows@[i]@.len() == r.columns@.len(),
{
    if rows.len() == 0 {
        QueryResult { columns: Vec::new(), rows: Vec::new() }
    } else {
        let mut out_rows: Vec<Vec<String>> = Vec::new();
        let mut i: usize = 0;
        while i < rows.len()
            invariant
                i <= rows@.len(),
                out_rows@.len() == i,
                forall|k: int|
                    0 <= k < i ==> #[trigger] out_rows@[k]@.len() == rows@[k]@.len(),
                forall|k: int, j: int|
                    0 <= k < i && 0 <= j < rows@[k]@.len() ==> out_rows@[k]@[j]@ == spec_coerce(
                        rows@[k]@[j].tag,
                        rows@[k]@[j].value,
                    ),
            decreases rows@.len() - i,
        {
            let row: &Vec<Cell> = &rows[i];
            out_rows.push(coerce_row(row));
            i = i + 1;
        }
        QueryResult { columns, rows: out_rows }
    }
}

} // verus!
