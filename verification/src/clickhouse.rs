//! The ClickHouse driver's text layer: the HTTP endpoint URL, query
//! preparation for the row-oriented output format, the read/command split,
//! and the system-table queries.
//!
//! ClickHouse is stateless here: the caller issues each prepared statement
//! as an independent HTTP request. A read-like statement gets an explicit
//! `FORMAT JSONEachRow` so its rows come back one JSON object per line; a
//! command is posted unchanged.

use vstd::prelude::*;

use crate::config::ClickhouseConfig;
use crate::models::ColumnInfo;
use crate::query::normalized_filter;
use crate::query::normalize_filter;
use crate::sql::doubled;
use crate::sql::push_doubled;
use crate::sql::sql_string_lit;
use crate::text::chars_to_string;
use crate::text::contains_seq;
use crate::text::contains_chars;
use crate::text::dec_int;
use crate::text::has_prefix;
use crate::text::i64_string;
use crate::text::push_word;
use crate::text::starts_with_chars;
use crate::text::str_chars;
use crate::text::trim_chars;
use crate::text::trim_seq;
use crate::text::upper_chars;
use crate::text::upper_seq;

verus! {

/// A backtick-quoted identifier: embedded backticks doubled, wrapped in
/// backticks.
pub open spec fn backtick_ident(s: Seq<char>) -> Seq<char> {
    seq!['`'].add(doubled(s, '`')).add(seq!['`'])
}

fn push_backtick_ident(out: &mut Vec<char>, s: &str)
    ensures
        final(out)@ == old(out)@.add(backtick_ident(s@)),
{
    out.push('`');
    push_doubled(out, s, '`');
    out.push('`');
    proof {
        assert(final(out)@ =~= old(out)@.add(backtick_ident(s@)));
    }
}

fn push_sql_str(out: &mut Vec<char>, s: &str)
    ensures
        final(out)@ == old(out)@.add(sql_string_lit(s@)),
{
    out.push('\'');
    push_doubled(out, s, '\'');
    out.push('\'');
    proof {
        assert(final(out)@ =~= old(out)@.add(sql_string_lit(s@)));
    }
}

/// The ClickHouse driver: its configuration; every operation is a fresh
/// HTTP request against the endpoint URL.
pub struct ClickhouseDriver {
    pub config: ClickhouseConfig,
}

impl ClickhouseDriver {
    pub fn new(config: ClickhouseConfig) -> (r: ClickhouseDriver)
        ensures
            r.config == config,
    {
        ClickhouseDriver { config }
    }

    /// The HTTP endpoint: `http://host:port`, or `https` under SSL.
    pub fn build_url(&self) -> (r: String)
        ensures
            r@ == (if self.config.ssl {
                "https"@
            } else {
                "http"@
            }).add("://"@).add(self.config.host@).add(":"@).add(dec_int(self.config.port as int)),
    {
        let mut out: Vec<char> = Vec::new();
        if self.config.ssl {
            push_word(&mut out, "https");
        } else {
            push_word(&mut out, "http");
        }
        push_word(&mut out, "://");
        push_word(&mut out, self.config.host.as_str());
        push_word(&mut out, ":");
        let p = i64_string(self.config.port);
        push_word(&mut out, p.as_str());
        chars_to_string(&out)
    }

    /// Normalize smart/curly quotes in a filter to ASCII.
    pub fn normalize_filter(filter: &str) -> (r: String)
        ensures
            r@ == normalized_filter(filter@),
    {
        normalize_filter(filter)
    }

    /// The system-table query listing this database's tables.
    pub fn list_tables_query(&self) -> (r: String)
        ensures
            r@ == "SELECT database, name, engine FROM system.tables WHERE database = "@.add(
                sql_string_lit(self.config.database@),
            ).add("  ORDER BY name"@),
    {
        let mut out: Vec<char> = Vec::new();
        push_word(&mut out, "SELECT database, name, engine FROM system.tables WHERE database = ");
        push_sql_str(&mut out, self.config.database.as_str());
        push_word(&mut out, "  ORDER BY name");
        chars_to_string(&out)
    }

    /// The count and page queries of `get_table_data`, over the
    /// backtick-quoted table with the filter normalized: `None` when the
    /// page/limit pair has no representable offset.
    pub fn table_data_queries(
        &self,
        table: &str,
        page: i64,
        limit: i64,
        filter: &Option<String>,
    ) -> (r: Option<(String, String)>)
        ensures
            r is Some <==> (page >= 1 && limit >= 0 && (page - 1) * limit <= i64::MAX),
            r is Some ==> ({
                let tref = backtick_ident(table@);
                let wc = match filter {
                    Option::Some(f) => " WHERE "@.add(normalized_filter(f@)),
                    Option::None => Seq::<char>::empty(),
                };
                &&& (r->0).0@ == "SELECT count() as count FROM "@.add(tref).add(wc)
                &&& (r->0).1@ == "SELECT * FROM "@.add(tref).add(wc).add(" LIMIT "@).add(
                    dec_int(limit as int),
                ).add(" OFFSET "@).add(dec_int((page - 1) * limit))
            }),
    {
        let offset = match crate::query::page_offset(page, limit) {
            Option::Some(o) => o,
            Option::None => {
                return None;
            },
        };
        let mut wc: Vec<char> = Vec::new();
        match filter {
            Option::Some(f) => {
                push_word(&mut wc, " WHERE ");
                let n = normalize_filter(f.as_str());
                push_word(&mut wc, n.as_str());
            },
            Option::None => {},
        }
        let mut count: Vec<char> = Vec::new();
        push_word(&mut count, "SELECT count() as count FROM ");
        push_backtick_ident(&mut count, table);
        let wcs = chars_to_string(&wc);
        push_word(&mut count, wcs.as_str());
        let mut data: Vec<char> = Vec::new();
        push_word(&mut data, "SELECT * FROM ");
        push_backtick_ident(&mut data, table);
        push_word(&mut data, wcs.as_str());
        push_word(&mut data, " LIMIT ");
        let l = i64_string(limit);
        push_word(&mut data, l.as_str());
        push_word(&mut data, " OFFSET ");
        let o = i64_string(offset);
        push_word(&mut data, o.as_str());
        Some((chars_to_string(&count), chars_to_string(&data)))
    }

    /// The system-table query for one table's columns.
    pub fn columns_query(&self, table: &str) -> (r: String)
        ensures
            r@
                == "SELECT name, type, default_kind, default_expression, is_in_primary_key FROM system.columns WHERE database = "@.add(
                sql_string_lit(self.config.database@),
            ).add(" AND table = "@).add(sql_string_lit(table@)).add(" ORDER BY position"@),
    {
        let mut out: Vec<char> = Vec::new();
        push_word(
            &mut out,
            "SELECT name, type, default_kind, default_expression, is_in_primary_key FROM system.columns WHERE database = ",
        );
        push_sql_str(&mut out, self.config.database.as_str());
        push_word(&mut out, " AND table = ");
        push_sql_str(&mut out, table);
        push_word(&mut out, " ORDER BY position");
        chars_to_string(&out)
    }

    /// The system-table query for one table's data-skipping indexes.
    pub fn indexes_query(&self, table: &str) -> (r: String)
        ensures
            r@
                == "SELECT name, expr, type FROM system.data_skipping_indices WHERE database = "@.add(
                sql_string_lit(self.config.database@),
            ).add(" AND table = "@).add(sql_string_lit(table@)),
    {
        let mut out: Vec<char> = Vec::new();
        push_word(
            &mut out,
            "SELECT name, expr, type FROM system.data_skipping_indices WHERE database = ",
        );
        push_sql_str(&mut out, self.config.database.as_str());
        push_word(&mut out, " AND table = ");
        push_sql_str(&mut out, table);
        chars_to_string(&out)
    }

    /// The batch query of `get_schema_overview`: every table with its
    /// columns gathered into tuples.
    pub fn overview_columns_query(&self) -> (r: String)
        ensures
            r@
                == "SELECT c.database as schema, c.table as name, t.engine as type, groupArray(tuple(c.name, c.type, c.default_kind, c.default_expression, c.is_in_primary_key)) as columns_raw FROM system.columns c JOIN system.tables t ON c.database = t.database AND c.table = t.name WHERE c.database = "@.add(
                sql_string_lit(self.config.database@),
            ).add(
                " AND c.database NOT IN ('system', 'INFORMATION_SCHEMA', 'information_schema') GROUP BY c.database, c.table, t.engine ORDER BY c.database, c.table"@,
            ),
    {
        let mut out: Vec<char> = Vec::new();
        push_word(
            &mut out,
            "SELECT c.database as schema, c.table as name, t.engine as type, groupArray(tuple(c.name, c.type, c.default_kind, c.default_expression, c.is_in_primary_key)) as columns_raw FROM system.columns c JOIN system.tables t ON c.database = t.database AND c.table = t.name WHERE c.database = ",
        );
        push_sql_str(&mut out, self.config.database.as_str());
        push_word(
            &mut out,
            " AND c.database NOT IN ('system', 'INFORMATION_SCHEMA', 'information_schema') GROUP BY c.database, c.table, t.engine ORDER BY c.database, c.table",
        );
        chars_to_string(&out)
    }

    /// The batch query of `get_schema_overview` for data-skipping indexes,
    /// gathered into tuples per table.
    pub fn overview_indexes_query(&self) -> (r: String)
        ensures
            r@
                == "SELECT database, table, groupArray(tuple(name, expr, type)) as indexes_raw FROM system.data_skipping_indices WHERE database = "@.add(
                sql_string_lit(self.config.database@),
            ).add(" GROUP BY database, table"@),
    {
        let mut out: Vec<char> = Vec::new();
        push_word(
            &mut out,
            "SELECT database, table, groupArray(tuple(name, expr, type)) as indexes_raw FROM system.data_skipping_indices WHERE database = ",
        );
        push_sql_str(&mut out, self.config.database.as_str());
        push_word(&mut out, " GROUP BY database, table");
        chars_to_string(&out)
    }
}

// ---------------------------------------------------------------------------
// Query preparation
// ---------------------------------------------------------------------------

/// The input with every trailing semicolon removed.
pub open spec fn strip_trailing_semis(s: Seq<char>) -> Seq<char>
    decreases s.len(),
{
    if s.len() > 0 && s.last() == ';' {
        strip_trailing_semis(s.drop_last())
    } else {
        s
    }
}

/// A query cleaned for the HTTP endpoint: trimmed, trailing semicolons
/// removed, trimmed again.
pub open spec fn cleaned_query(s: Seq<char>) -> Seq<char> {
    trim_seq(strip_trailing_semis(trim_seq(s)))
}

/// The cleaned query with `FORMAT JSONEachRow` appended, unless it already
/// names a FORMAT.
pub open spec fn prepared_query(s: Seq<char>) -> Seq<char> {
    if contains_seq(upper_seq(cleaned_query(s)), "FORMAT "@) {
        cleaned_query(s)
    } else {
        cleaned_query(s).add(" FORMAT JSONEachRow"@)
    }
}

/// Prepare a read-like query for the HTTP endpoint.
pub fn prepare_query(q: &str) -> (r: String)
    ensures
        r@ == prepared_query(q@),
{
    let v = str_chars(q);
    let mut t = trim_chars(&v);
    let ghost t0 = t@;
    while t.len() > 0 && t[t.len() - 1] == ';'
        invariant
            strip_trailing_semis(t0) == strip_trailing_semis(t@),
        decreases t.len(),
    {
        t.pop();
    }
    proof {
        assert(strip_trailing_semis(t@) == t@);
    }
    let cleaned = trim_chars(&t);
    let upper = upper_chars(&cleaned);
    let needle = str_chars("FORMAT ");
    let has_format = contains_chars(&upper, &needle);
    let mut out = cleaned;
    if !has_format {
        push_word(&mut out, " FORMAT JSONEachRow");
    }
    chars_to_string(&out)
}

/// Is the statement read-like — `SELECT`, `SHOW`, `DESCRIBE` or `WITH` —
/// so that its rows are fetched, rather than issued as a bare command?
pub fn is_read_query(q: &str) -> (r: bool)
    ensures
        r == ({
            let u = upper_seq(trim_seq(q@));
            has_prefix(u, "SELECT"@) || has_prefix(u, "SHOW"@) || has_prefix(u, "DESCRIBE"@)
                || has_prefix(u, "WITH"@)
        }),
{
    let v = str_chars(q);
    let t = trim_chars(&v);
    let u = upper_chars(&t);
    let p1 = str_chars("SELECT");
    let p2 = str_chars("SHOW");
    let p3 = str_chars("DESCRIBE");
    let p4 = str_chars("WITH");
    starts_with_chars(&u, &p1) || starts_with_chars(&u, &p2) || starts_with_chars(&u, &p3)
        || starts_with_chars(&u, &p4)
}

/// How `execute_query` issues a statement: read-like ones are fetched with
/// the prepared row-oriented form, anything else is posted unchanged as a
/// command.
pub enum ChExecutePlan {
    Read(String),
    Command(String),
}

/// Decide how to issue a statement against the HTTP endpoint.
pub fn plan_execute(q: &str) -> (r: ChExecutePlan)
    ensures
        r is Read <==> ({
            let u = upper_seq(trim_seq(q@));
            has_prefix(u, "SELECT"@) || has_prefix(u, "SHOW"@) || has_prefix(u, "DESCRIBE"@)
                || has_prefix(u, "WITH"@)
        }),
        r is Read ==> r->Read_0@ == prepared_query(q@),
        r is Command ==> r->Command_0@ == q@,
{
    if is_read_query(q) {
        ChExecutePlan::Read(prepare_query(q))
    } else {
        ChExecutePlan::Command(q.to_owned())
    }
}

/// A column from one system-columns row: nullable when the type is
/// `Nullable(...)`, the default shown as `<kind> <expression>` when an
/// expression exists.
pub fn clickhouse_column(
    name: String,
    col_type: String,
    default_kind: &str,
    default_expr: &str,
    is_pk: u64,
) -> (r: ColumnInfo)
    ensures
        r.name == name,
        r.data_type == col_type,
        r.nullable == has_prefix(col_type@, "Nullable"@),
        r.default is Some <==> default_expr@.len() > 0,
        default_expr@.len() > 0 ==> r.default->0@ == default_kind@.add(" "@).add(default_expr@),
        r.primary_key == (is_pk == 1),
{
    let tv = str_chars(col_type.as_str());
    let p = str_chars("Nullable");
    let nullable = starts_with_chars(&tv, &p);
    let default = if default_expr.is_empty() {
        None
    } else {
        let mut out: Vec<char> = Vec::new();
        push_word(&mut out, default_kind);
        push_word(&mut out, " ");
        push_word(&mut out, default_expr);
        Some(chars_to_string(&out))
    };
    ColumnInfo { name, data_type: col_type, nullable, default, primary_key: is_pk == 1 }
}

} // verus!
