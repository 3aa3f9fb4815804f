//! A verified core for a multi-session SQL client: a registry of live
//! database sessions addressed by random 128-bit identifiers, a statement
//! classifier, a total coercion table from typed column values to display
//! strings, injection-safe catalog query builders, a health-probe event
//! step, and a deduplicating saved-connection list.
//!
//! All network I/O (opening connections, running statements, probing) is
//! left to the embedding program, which decodes driver rows into the plain
//! cell values of this crate and hands every decision back to the verified
//! functions here.

mod digits;
mod values;
mod coerce;
mod executor;
mod registry;
mod monitor;
mod catalog;
mod store;

pub use digits::{padded_digits, hex_digits_fixed, digit_char, hex_char};
pub use values::{
    DateValue, TimeValue, DateTimeValue, DecimalValue, int_chars, date_chars, time_chars,
    frac_chars, datetime_chars, utc_datetime_chars, decimal_chars, uuid_chars, append_i64,
    append_date, append_time, append_datetime, append_utc_datetime, append_decimal, append_uuid,
};
pub use coerce::{
    TypeTag, CellValue, Cell, tag_of_oid, spec_tag_of_oid, spec_coerce, coerce, coerce_row,
    lemma_coerce_sentinels,
};
pub use executor::{
    StatementKind, QueryResult, CommandResult, is_sql_ws, skip_ws, spec_is_select, spec_classify,
    classify_statement, assemble_query_result,
};
pub use registry::{
    DbError, Registry, lemma_session_ids_distinct, lemma_disconnected_id_unresolvable,
};
pub use monitor::{ConnStatus, StatusEvent, probe_event, disconnect_event};
pub use catalog::{
    TableColumn, TableInfo, is_ident_char, safe_ident, is_safe_identifier, schemas_query,
    tables_query_text, tables_query, table_info_query_text, table_info_query, columns_query_text,
    columns_query,
};
pub use store::{
    ConnectionInfo, has_conn_string, spec_add_connection, add_connection,
    lemma_save_connection_dedup,
};
