//! Schema introspection: the fixed catalog queries, and the builders
//! that interpolate schema and table names into them.
//!
//! An interpolated name is accepted only if every character is a letter,
//! a digit, an underscore or a dollar sign, so no quote or control
//! character can reach the query text: an unsafe name is rejected with a
//! query error instead of being sent.

use vstd::prelude::*;
use vstd::string::*;
use crate::registry::DbError;

verus! {

/// One column of a table: its name and its declared type name.
#[derive(Clone, Debug)]
pub struct TableColumn {
    pub name: String,
    pub definition: String,
}

/// A table's own name, its optional catalog comment, and its columns in
/// catalog order.
#[derive(Clone, Debug)]
pub struct TableInfo {
    pub name: String,
    pub comment: Option<String>,
    pub columns: Vec<TableColumn>,
}

/// A character that may stand in an interpolated identifier.
pub open spec fn is_ident_char(c: char) -> bool {
    ('a' <= c && c <= 'z') || ('A' <= c && c <= 'Z') || ('0' <= c && c <= '9') || c == '_' || c
        == '$'
}

/// A name that may be interpolated into a catalog query: nonempty, and
/// made of identifier characters only.
pub open spec fn safe_ident(s: Seq<char>) -> bool {
    s.len() > 0 && (forall|i: int| 0 <= i < s.len() ==> is_ident_char(#[trigger] s[i]))
}

fn is_ident_char_exec(c: char) -> (b: bool)
    ensures
        b == is_ident_char(c),
{
    ('a' <= c && c <= 'z') || ('A' <= c && c <= 'Z') || ('0' <= c && c <= '9') || c == '_' || c
        == '$'
}

/// Whether a name may be interpolated into a catalog query.
pub fn is_safe_identifier(s: &str) -> (b: bool)
    ensures
        b == safe_ident(s@),
{
    let len = s.unicode_len();
    if len == 0 {
        return false;
    }
    let mut i: usize = 0;
    while i < len
        invariant
            i <= len,
            len == s@.len(),
            forall|j: int| 0 <= j < i ==> is_ident_char(#[trigger] s@[j]),
        decreases len - i,
    {
        if !is_ident_char_exec(s.get_char(i)) {
            return false;
        }
        i = i + 1;
    }
    true
}

fn reject_ident() -> (e: DbError)
    ensures
        e matches DbError::QueryError(m) && m@ == "identifier is not allowed in a catalog query"@,
{
    DbError::QueryError(String::from_str("identifier is not allowed in a catalog query"))
}

/// The query that lists every schema name, in catalog order.
pub fn schemas_query() -> (q: String)
    ensures
        q@ == "SELECT schema_name FROM information_schema.schemata"@,
{
    String::from_str("SELECT schema_name FROM information_schema.schemata")
}

/// The text of the query that lists a schema's tables.
pub open spec fn tables_query_text(schema: Seq<char>) -> Seq<char> {
    "SELECT table_name FROM information_schema.tables WHERE table_schema = '"@ + schema + "'"@
}

/// The query that lists every table name in a schema. A name that is not
/// safe to interpolate is rejected with a query error.
pub fn tables_query(schema: &str) -> (r: Result<String, DbError>)
    ensures
        match r {
            Ok(q) => safe_ident(schema@) && q@ == tables_query_text(schema@),
            Err(e) => {
                &&& !safe_ident(schema@)
                &&& e matches DbError::QueryError(m) && m@
                    == "identifier is not allowed in a catalog query"@
            },
        },
{
    if !is_safe_identifier(schema) {
        return Err(reject_ident());
    }
    let mut q = String::from_str(
        "SELECT table_name FROM information_schema.tables WHERE table_schema = '",
    );
    q.append(schema);
    q.append("'");
    proof {
        assert(q@ =~= tables_query_text(schema@));
    }
    Ok(q)
}

/// The text of the query that fetches a table's name and catalog
/// comment.
pub open spec fn table_info_query_text(schema: Seq<char>, table: Seq<char>) -> Seq<char> {
    "SELECT table_name, obj_description('\""@ + schema + "\".\""@ + table
        + "\"'::regclass) as comment FROM information_schema.tables WHERE table_schema = '"@
        + schema + "' AND table_name = '"@ + table + "'"@
}

/// The query that fetches a table's name and catalog comment. A name
/// that is not safe to interpolate is rejected with a query error.
pub fn table_info_query(schema: &str, table: &str) -> (r: Result<String, DbError>)
    ensures
        match r {
            Ok(q) => safe_ident(schema@) && safe_ident(table@) && q@ == table_info_query_text(
                schema@,
                table@,
            ),
            Err(e) => {
                &&& !safe_ident(schema@) || !safe_ident(table@)
                &&& e matches DbError::QueryError(m) && m@
                    == "identifier is not allowed in a catalog query"@
            },
        },
{
    if !is_safe_identifier(schema) || !is_safe_identifier(table) {
        return Err(reject_ident());
    }
    let mut q = String::from_str("SELECT table_name, obj_description('\"");
    q.append(schema);
    q.append("\".\"");
    q.append(table);
    q.append(
        "\"'::regclass) as comment FROM information_schema.tables WHERE table_schema = '",
    );
    q.append(schema);
    q.append("' AND table_name = '");
    q.append(table);
    q.append("'");
    proof {
        assert(q@ =~= table_info_query_text(schema@, table@));
    }
    Ok(q)
}

/// The text of the query that lists a table's columns and their declared
/// types, in catalog column order.
pub open spec fn columns_query_text(schema: Seq<char>, table: Seq<char>) -> Seq<char> {
    "SELECT column_name, data_type FROM information_schema.columns WHERE table_schema = '"@
        + schema + "' AND table_name = '"@ + table + "'"@
}

/// The query that lists a table's columns and their declared types. A
/// name that is not safe to interpolate is rejected with a query error.
pub fn columns_query(schema: &str, table: &str) -> (r: Result<String, DbError>)
    ensures
        match r {
            Ok(q) => safe_ident(schema@) && safe_ident(table@) && q@ == columns_query_text(
                schema@,
                table@,
            ),
            Err(e) => {
                &&& !safe_ident(schema@) || !safe_ident(table@)
                &&& e matches DbError::QueryError(m) && m@
                    == "identifier is not allowed in a catalog query"@
            },
        },
{
    if !is_safe_identifier(schema) || !is_safe_identifier(table) {
        return Err(reject_ident());
    }
    let mut q = String::from_str(
        "SELECT column_name, data_type FROM information_schema.columns WHERE table_schema = '",
    );
    q.append(schema);
    q.append("' AND table_name = '");
    q.append(table);
    q.append("'");
    proof {
        assert(q@ =~= columns_query_text(schema@, table@));
    }
    Ok(q)
}

} // verus!
