//! The SQLite driver's text layer: the file-backed connection string, the
//! master-table and PRAGMA queries, and the assembly of structure rows.
//!
//! SQLite has no schema concept — the schema is always the literal `main` —
//! and opens a fresh single connection per call, in `rwc` mode so a missing
//! file is created.

use vstd::prelude::*;

use crate::config::SqliteConfig;
use crate::models::ColumnInfo;
use crate::models::ForeignKeyInfo;
use crate::models::IndexInfo;
use crate::query::build_count_query;
use crate::query::build_select_query;
use crate::query::build_where_clause;
use crate::query::count_query_spec;
use crate::query::select_query_spec;
use crate::query::where_clause_spec;
use crate::sql::escape_sql_identifier;
use crate::sql::quote_ident;
use crate::sql::str_eq;
use crate::text::chars_to_string;
use crate::text::dec_int;
use crate::text::i64_string;
use crate::text::push_word;
use crate::text::upper_seq;
use crate::text::upper_str;

verus! {

/// The SQLite driver: its configuration; every call opens a fresh
/// connection from the connection string.
pub struct SqliteDriver {
    pub config: SqliteConfig,
}

impl SqliteDriver {
    pub fn new(config: SqliteConfig) -> (r: SqliteDriver)
        ensures
            r.config == config,
    {
        SqliteDriver { config }
    }

    /// `sqlite:<path>?mode=rwc`: read-write, creating the file if absent.
    pub fn connection_string(&self) -> (r: String)
        ensures
            r@ == "sqlite:"@.add(self.config.file_path@).add("?mode=rwc"@),
    {
        let mut out: Vec<char> = Vec::new();
        push_word(&mut out, "sqlite:");
        push_word(&mut out, self.config.file_path.as_str());
        push_word(&mut out, "?mode=rwc");
        chars_to_string(&out)
    }

    /// The master-table query listing tables and views, internal ones
    /// excluded.
    pub fn list_tables_query(&self) -> (r: String)
        ensures
            r@
                == "SELECT name, type FROM sqlite_master WHERE type IN ('table', 'view') AND name NOT LIKE 'sqlite_%' ORDER BY name"@,
    {
        "SELECT name, type FROM sqlite_master WHERE type IN ('table', 'view') AND name NOT LIKE 'sqlite_%' ORDER BY name".to_owned()
    }

    /// The count and page queries of `get_table_data`, over the bare
    /// quoted table (no schema qualifier) with the filter normalized:
    /// `None` when the page/limit pair has no representable offset.
    pub fn table_data_queries(
        &self,
        table: &str,
        page: i64,
        limit: i64,
        filter: &Option<String>,
    ) -> (r: Option<(String, String)>)
        ensures
            r is Some <==> (page >= 1 && limit >= 0 && (page - 1) * limit <= i64::MAX),
            r is Some ==> ({
                let tref = quote_ident(table@);
                let wc = match filter {
                    Option::Some(f) => where_clause_spec(Some(f@)),
                    Option::None => where_clause_spec(None),
                };
                &&& (r->0).0@ == count_query_spec(tref, wc)
                &&& (r->0).1@ == select_query_spec(tref, wc, limit as int, (page - 1) * limit)
            }),
    {
        let offset = match crate::query::page_offset(page, limit) {
            Option::Some(o) => o,
            Option::None => {
                return None;
            },
        };
        let tref = escape_sql_identifier(table);
        let wc = build_where_clause(filter);
        let count = build_count_query(tref.as_str(), wc.as_str());
        let select = build_select_query(tref.as_str(), wc.as_str(), limit, offset);
        Some((count, select))
    }
}

/// `PRAGMA table_info("<table>")`: the columns of a table.
pub fn sqlite_table_info_query(table: &str) -> (r: String)
    ensures
        r@ == "PRAGMA table_info("@.add(quote_ident(table@)).add(")"@),
{
    let mut out: Vec<char> = Vec::new();
    push_word(&mut out, "PRAGMA table_info(");
    let q = escape_sql_identifier(table);
    push_word(&mut out, q.as_str());
    push_word(&mut out, ")");
    chars_to_string(&out)
}

/// `PRAGMA index_list("<table>")`: the indexes of a table.
pub fn sqlite_index_list_query(table: &str) -> (r: String)
    ensures
        r@ == "PRAGMA index_list("@.add(quote_ident(table@)).add(")"@),
{
    let mut out: Vec<char> = Vec::new();
    push_word(&mut out, "PRAGMA index_list(");
    let q = escape_sql_identifier(table);
    push_word(&mut out, q.as_str());
    push_word(&mut out, ")");
    chars_to_string(&out)
}

/// `PRAGMA index_info("<index>")`: the columns of an index.
pub fn sqlite_index_info_query(index: &str) -> (r: String)
    ensures
        r@ == "PRAGMA index_info("@.add(quote_ident(index@)).add(")"@),
{
    let mut out: Vec<char> = Vec::new();
    push_word(&mut out, "PRAGMA index_info(");
    let q = escape_sql_identifier(index);
    push_word(&mut out, q.as_str());
    push_word(&mut out, ")");
    chars_to_string(&out)
}

/// `PRAGMA foreign_key_list("<table>")`: the foreign keys of a table.
pub fn sqlite_foreign_key_list_query(table: &str) -> (r: String)
    ensures
        r@ == "PRAGMA foreign_key_list("@.add(quote_ident(table@)).add(")"@),
{
    let mut out: Vec<char> = Vec::new();
    push_word(&mut out, "PRAGMA foreign_key_list(");
    let q = escape_sql_identifier(table);
    push_word(&mut out, q.as_str());
    push_word(&mut out, ")");
    chars_to_string(&out)
}

/// A column from one `table_info` row: the type uppercased, nullable
/// unless `notnull`, part of the primary key when `pk` is positive.
pub fn sqlite_column(
    name: String,
    col_type: &str,
    notnull: i64,
    default: Option<String>,
    pk: i64,
) -> (r: ColumnInfo)
    ensures
        r.name == name,
        r.data_type@ == upper_seq(col_type@),
        r.nullable == (notnull == 0),
        r.default == default,
        r.primary_key == (pk > 0),
{
    ColumnInfo {
        name,
        data_type: upper_str(col_type),
        nullable: notnull == 0,
        default,
        primary_key: pk > 0,
    }
}

/// An index from one `index_list` row with its columns: unique when the
/// flag is 1, primary when its origin is `pk`.
pub fn sqlite_index(name: String, columns: Vec<String>, unique: i64, origin: &str) -> (r:
    IndexInfo)
    ensures
        r.name == name,
        r.columns == columns,
        r.unique == (unique == 1),
        r.primary == (origin@ == "pk"@),
{
    let primary = str_eq(origin, "pk");
    IndexInfo { name, columns, unique: unique == 1, primary }
}

/// A foreign key from one `foreign_key_list` row: named `fk_<id>` since
/// SQLite does not name them.
pub fn sqlite_foreign_key(
    id: i64,
    column: String,
    references_table: String,
    references_column: String,
) -> (r: ForeignKeyInfo)
    ensures
        r.name@ == "fk_"@.add(dec_int(id as int)),
        r.column == column,
        r.references_table == references_table,
        r.references_column == references_column,
{
    let mut out: Vec<char> = Vec::new();
    push_word(&mut out, "fk_");
    let n = i64_string(id);
    push_word(&mut out, n.as_str());
    ForeignKeyInfo { name: chars_to_string(&out), column, references_table, references_column }
}

/// How a SQLite column type (already uppercased) is read and rendered.
pub enum SqliteColumnKind {
    Integer,
    Real,
    Text,
    Blob,
    Null,
    Boolean,
    DateTime,
    Other,
}

/// The dispatch table over the uppercased type names.
pub open spec fn sqlite_column_kind_spec(t: Seq<char>) -> SqliteColumnKind {
    let u = upper_seq(t);
    if u == "INTEGER"@ {
        SqliteColumnKind::Integer
    } else if u == "REAL"@ {
        SqliteColumnKind::Real
    } else if u == "TEXT"@ {
        SqliteColumnKind::Text
    } else if u == "BLOB"@ {
        SqliteColumnKind::Blob
    } else if u == "NULL"@ {
        SqliteColumnKind::Null
    } else if u == "BOOLEAN"@ || u == "BOOL"@ {
        SqliteColumnKind::Boolean
    } else if u == "DATETIME"@ || u == "DATE"@ || u == "TIME"@ || u == "TIMESTAMP"@ {
        SqliteColumnKind::DateTime
    } else {
        SqliteColumnKind::Other
    }
}

/// Classify a SQLite column type name for decoding, case-insensitively:
/// unknown types fall back to a best-effort string read.
pub fn sqlite_column_kind(t: &str) -> (r: SqliteColumnKind)
    ensures
        r == sqlite_column_kind_spec(t@),
{
    let u = upper_str(t);
    if str_eq(u.as_str(), "INTEGER") {
        SqliteColumnKind::Integer
    } else if str_eq(u.as_str(), "REAL") {
        SqliteColumnKind::Real
    } else if str_eq(u.as_str(), "TEXT") {
        SqliteColumnKind::Text
    } else if str_eq(u.as_str(), "BLOB") {
        SqliteColumnKind::Blob
    } else if str_eq(u.as_str(), "NULL") {
        SqliteColumnKind::Null
    } else if str_eq(u.as_str(), "BOOLEAN") || str_eq(u.as_str(), "BOOL") {
        SqliteColumnKind::Boolean
    } else if str_eq(u.as_str(), "DATETIME") || str_eq(u.as_str(), "DATE") || str_eq(
        u.as_str(),
        "TIME",
    ) || str_eq(u.as_str(), "TIMESTAMP") {
        SqliteColumnKind::DateTime
    } else {
        SqliteColumnKind::Other
    }
}

/// How a blob cell is rendered: its size, not its bytes.
pub fn blob_placeholder(len: usize) -> (r: String)
    ensures
        r@ == "["@.add(dec_int(len as int)).add(" bytes]"@),
{
    let mut out: Vec<char> = Vec::new();
    push_word(&mut out, "[");
    let n = crate::text::u64_string(len as u64);
    push_word(&mut out, n.as_str());
    push_word(&mut out, " bytes]");
    chars_to_string(&out)
}


/// The batch query of `get_schema_overview` for the columns of every user table.
pub fn sqlite_all_columns_query() -> (r: String)
    ensures
        r@
            == "SELECT m.name as table_name, p.name as column_name, p.type as data_type, p.\"notnull\" as not_null, p.\"dflt_value\" as default_value, p.pk as primary_key FROM sqlite_master m CROSS JOIN pragma_table_info(m.name) p WHERE m.type = 'table' AND m.name NOT LIKE 'sqlite_%' ORDER BY m.name, p.cid"@,
{
    "SELECT m.name as table_name, p.name as column_name, p.type as data_type, p.\"notnull\" as not_null, p.\"dflt_value\" as default_value, p.pk as primary_key FROM sqlite_master m CROSS JOIN pragma_table_info(m.name) p WHERE m.type = 'table' AND m.name NOT LIKE 'sqlite_%' ORDER BY m.name, p.cid".to_owned()
}

/// The batch query of `get_schema_overview` for the foreign keys of every user table.
pub fn sqlite_all_foreign_keys_query() -> (r: String)
    ensures
        r@
            == "SELECT m.name as table_name, f.id as fk_id, f.\"from\" as column_name, f.\"table\" as references_table, f.\"to\" as references_column FROM sqlite_master m CROSS JOIN pragma_foreign_key_list(m.name) f WHERE m.type = 'table' AND m.name NOT LIKE 'sqlite_%' ORDER BY m.name, f.id"@,
{
    "SELECT m.name as table_name, f.id as fk_id, f.\"from\" as column_name, f.\"table\" as references_table, f.\"to\" as references_column FROM sqlite_master m CROSS JOIN pragma_foreign_key_list(m.name) f WHERE m.type = 'table' AND m.name NOT LIKE 'sqlite_%' ORDER BY m.name, f.id".to_owned()
}

/// The batch query of `get_schema_overview` for the indexes of every user table.
pub fn sqlite_all_indexes_query() -> (r: String)
    ensures
        r@
            == "SELECT m.name as table_name, i.name as index_name, i.\"unique\" as is_unique, i.origin as origin FROM sqlite_master m CROSS JOIN pragma_index_list(m.name) i WHERE m.type = 'table' AND m.name NOT LIKE 'sqlite_%' ORDER BY m.name, i.name"@,
{
    "SELECT m.name as table_name, i.name as index_name, i.\"unique\" as is_unique, i.origin as origin FROM sqlite_master m CROSS JOIN pragma_index_list(m.name) i WHERE m.type = 'table' AND m.name NOT LIKE 'sqlite_%' ORDER BY m.name, i.name".to_owned()
}

} // verus!
