//! The SQL mutation builder: identifier escaping, literal formatting and
//! INSERT/UPDATE/DELETE statement assembly.
//!
//! The backends have no shared prepared-statement layer for row edits, so a
//! structured edit is turned into SQL text here, and nowhere else. Every
//! identifier is quoted with embedded double quotes doubled; every string
//! literal is single-quoted with embedded single quotes doubled; arrays and
//! objects are inlined as their JSON text, quoted the same way.

use vstd::prelude::*;

use crate::text::chars_eq_str;
use crate::text::chars_to_string;
use crate::text::contains_chars;
use crate::text::contains_seq;
use crate::text::lower_chars;
use crate::text::lower_seq;
use crate::text::expand;
use crate::text::lemma_expand_push;
use crate::text::push_word;
use crate::text::str_chars;
use crate::value::json_of;
use crate::value::render_json;
use crate::value::Value;

verus! {

// ---------------------------------------------------------------------------
// Quoting
// ---------------------------------------------------------------------------

pub open spec fn doubled_char(c: char, q: char) -> Seq<char> {
    if c == q {
        seq![q, q]
    } else {
        seq![c]
    }
}

/// The input with every occurrence of `q` doubled.
pub open spec fn doubled(s: Seq<char>, q: char) -> Seq<char> {
    expand(s, |c: char| doubled_char(c, q))
}

/// A quoted identifier: embedded double quotes doubled, wrapped in double
/// quotes.
pub open spec fn quote_ident(s: Seq<char>) -> Seq<char> {
    seq!['"'].add(doubled(s, '"')).add(seq!['"'])
}

/// A SQL string literal: embedded single quotes doubled, wrapped in single
/// quotes.
pub open spec fn sql_string_lit(s: Seq<char>) -> Seq<char> {
    seq!['\''].add(doubled(s, '\'')).add(seq!['\''])
}

/// Append `s` with every `q` doubled.
pub(crate) fn push_doubled(out: &mut Vec<char>, s: &str, q: char)
    ensures
        final(out)@ == old(out)@.add(doubled(s@, q)),
{
    let v = str_chars(s);
    let mut i: usize = 0;
    while i < v.len()
        invariant
            v@ == s@,
            i <= v@.len(),
            out@ == old(out)@.add(expand(v@.take(i as int), |c: char| doubled_char(c, q))),
        decreases v.len() - i,
    {
        let c = v[i];
        if c == q {
            out.push(q);
            out.push(q);
        } else {
            out.push(c);
        }
        proof {
            assert(v@.take(i + 1 as int) =~= v@.take(i as int).push(v@[i as int]));
            lemma_expand_push(v@.take(i as int), |cc: char| doubled_char(cc, q), v@[i as int]);
            assert(out@ =~= old(out)@.add(
                expand(v@.take(i + 1 as int), |cc: char| doubled_char(cc, q)),
            ));
        }
        i += 1;
    }
    proof {
        assert(v@.take(v@.len() as int) =~= v@);
    }
}

/// Append a quoted identifier.
fn push_quoted_ident(out: &mut Vec<char>, s: &str)
    ensures
        final(out)@ == old(out)@.add(quote_ident(s@)),
{
    out.push('"');
    push_doubled(out, s, '"');
    out.push('"');
    proof {
        assert(final(out)@ =~= old(out)@.add(quote_ident(s@)));
    }
}

/// Append a SQL string literal.
fn push_sql_string(out: &mut Vec<char>, s: &str)
    ensures
        final(out)@ == old(out)@.add(sql_string_lit(s@)),
{
    out.push('\'');
    push_doubled(out, s, '\'');
    out.push('\'');
    proof {
        assert(final(out)@ =~= old(out)@.add(sql_string_lit(s@)));
    }
}

/// Escape an identifier (table, schema, column) for inclusion in SQL text:
/// embedded double quotes are doubled, then the whole is wrapped in double
/// quotes.
pub fn escape_sql_identifier(s: &str) -> (r: String)
    ensures
        r@ == quote_ident(s@),
{
    let mut out: Vec<char> = Vec::new();
    push_quoted_ident(&mut out, s);
    chars_to_string(&out)
}

/// A scanner's view of quote pairing: reading left to right, every
/// occurrence of `q` is immediately followed by another `q`, consumed as a
/// pair.
pub open spec fn quotes_paired(d: Seq<char>, q: char) -> bool
    decreases d.len(),
{
    if d.len() == 0 {
        true
    } else if d[0] == q {
        d.len() >= 2 && d[1] == q && quotes_paired(d.skip(2), q)
    } else {
        quotes_paired(d.skip(1), q)
    }
}

proof fn lemma_doubled_paired(s: Seq<char>, q: char)
    ensures
        quotes_paired(doubled(s, q), q),
    decreases s.len(),
{
    if s.len() == 0 {
        assert(doubled(s, q) =~= Seq::<char>::empty());
    } else {
        let rest = s.drop_first();
        lemma_doubled_paired(rest, q);
        let d = doubled(s, q);
        assert(d == doubled_char(s[0], q).add(doubled(rest, q)));
        if s[0] == q {
            assert(d[0] == q && d[1] == q);
            assert(d.skip(2) =~= doubled(rest, q));
        } else {
            assert(d[0] == s[0]);
            assert(d.skip(1) =~= doubled(rest, q));
        }
    }
}

/// A quoted identifier is syntactically valid SQL: it opens and closes
/// with a double quote, and its interior never holds a lone one — a
/// scanner consuming quote pairs reaches the closing quote exactly at the
/// end, whatever the identifier held.
pub proof fn lemma_quoted_identifier_well_formed(s: Seq<char>)
    ensures
        quote_ident(s).len() >= 2,
        quote_ident(s)[0] == '"',
        quote_ident(s).last() == '"',
        quotes_paired(quote_ident(s).subrange(1, quote_ident(s).len() - 1), '"'),
{
    lemma_doubled_paired(s, '"');
    assert(quote_ident(s).subrange(1, quote_ident(s).len() - 1) =~= doubled(s, '"'));
}

/// A formatted string literal cannot break out of its quotes: it opens
/// and closes with a single quote, and its interior never holds a lone
/// one, whatever the string held.
pub proof fn lemma_string_literal_well_formed(s: Seq<char>)
    ensures
        sql_string_lit(s).len() >= 2,
        sql_string_lit(s)[0] == '\'',
        sql_string_lit(s).last() == '\'',
        quotes_paired(sql_string_lit(s).subrange(1, sql_string_lit(s).len() - 1), '\''),
{
    lemma_doubled_paired(s, '\'');
    assert(sql_string_lit(s).subrange(1, sql_string_lit(s).len() - 1) =~= doubled(s, '\''));
}

// ---------------------------------------------------------------------------
// Literal formatting
// ---------------------------------------------------------------------------

/// How a value appears as a SQL literal.
pub open spec fn sql_literal(v: Value) -> Seq<char> {
    match v {
        Value::Null => "NULL"@,
        Value::Bool(b) => if b {
            "TRUE"@
        } else {
            "FALSE"@
        },
        Value::Number(t) => t@,
        Value::Str(s) => sql_string_lit(s@),
        Value::Array(_) => sql_string_lit(json_of(v)),
        Value::Object(_) => sql_string_lit(json_of(v)),
    }
}

/// Append the SQL literal form of `v`.
fn push_sql_literal(out: &mut Vec<char>, v: &Value)
    ensures
        final(out)@ == old(out)@.add(sql_literal(*v)),
{
    match v {
        Value::Null => {
            push_word(out, "NULL");
        },
        Value::Bool(b) => {
            if *b {
                push_word(out, "TRUE");
            } else {
                push_word(out, "FALSE");
            }
        },
        Value::Number(t) => {
            push_word(out, t.as_str());
        },
        Value::Str(s) => {
            push_sql_string(out, s.as_str());
        },
        Value::Array(_) => {
            let j = render_json(v);
            push_sql_string(out, j.as_str());
        },
        Value::Object(_) => {
            let j = render_json(v);
            push_sql_string(out, j.as_str());
        },
    }
}

/// Format a value for inline inclusion in a SQL statement: `NULL`,
/// `TRUE`/`FALSE`, a number as-is, a string single-quoted with quotes
/// doubled, an array or object as its quoted JSON text.
pub fn format_sql_value(v: &Value) -> (r: String)
    ensures
        r@ == sql_literal(*v),
{
    let mut out: Vec<char> = Vec::new();
    push_sql_literal(&mut out, v);
    chars_to_string(&out)
}

// ---------------------------------------------------------------------------
// Lists and assignments
// ---------------------------------------------------------------------------

/// Parts joined by a separator.
pub open spec fn joined(parts: Seq<Seq<char>>, sep: Seq<char>) -> Seq<char>
    decreases parts.len(),
{
    if parts.len() == 0 {
        Seq::<char>::empty()
    } else if parts.len() == 1 {
        parts[0]
    } else {
        parts[0].add(sep).add(joined(parts.drop_first(), sep))
    }
}

pub proof fn lemma_joined_push(parts: Seq<Seq<char>>, sep: Seq<char>, x: Seq<char>)
    ensures
        joined(parts.push(x), sep) == if parts.len() == 0 {
            x
        } else {
            joined(parts, sep).add(sep).add(x)
        },
    decreases parts.len(),
{
    if parts.len() == 0 {
        assert(parts.push(x).len() == 1);
        assert(parts.push(x)[0] == x);
    } else if parts.len() == 1 {
        assert(parts.push(x)[0] == parts[0]);
        assert(parts.push(x).drop_first() =~= seq![x]);
        assert(joined(seq![x], sep) == x);
        assert(joined(parts.push(x), sep) =~= joined(parts, sep).add(sep).add(x));
    } else {
        assert(parts.push(x)[0] == parts[0]);
        assert(parts.push(x).drop_first() =~= parts.drop_first().push(x));
        lemma_joined_push(parts.drop_first(), sep, x);
        assert(joined(parts.push(x), sep) =~= joined(parts, sep).add(sep).add(x));
    }
}

/// One `"column" = literal` pair.
pub open spec fn assign_pair(col: Seq<char>, v: Value) -> Seq<char> {
    quote_ident(col).add(" = "@).add(sql_literal(v))
}

/// The assignment texts of a column/value zip.
pub open spec fn assign_zip(cols: Seq<String>, vals: Seq<Value>) -> Seq<Seq<char>> {
    Seq::new(cols.len(), |i: int| assign_pair(cols[i]@, vals[i]))
}

/// The assignment texts of an update list.
pub open spec fn assign_pairs(pairs: Seq<(String, Value)>) -> Seq<Seq<char>> {
    pairs.map_values(|p: (String, Value)| assign_pair(p.0@, p.1))
}

/// Append `"col" = literal`.
fn push_assign(out: &mut Vec<char>, col: &String, v: &Value)
    ensures
        final(out)@ == old(out)@.add(assign_pair(col@, *v)),
{
    push_quoted_ident(out, col.as_str());
    push_word(out, " = ");
    push_sql_literal(out, v);
    proof {
        assert(final(out)@ =~= old(out)@.add(assign_pair(col@, *v)));
    }
}

/// Append the assignments of an update list, separated by `sep`.
fn push_assign_pairs(out: &mut Vec<char>, pairs: &Vec<(String, Value)>, sep: &str)
    ensures
        final(out)@ == old(out)@.add(joined(assign_pairs(pairs@), sep@)),
{
    let ghost plist = assign_pairs(pairs@);
    let mut i: usize = 0;
    while i < pairs.len()
        invariant
            i <= pairs@.len(),
            plist == assign_pairs(pairs@),
            out@ == old(out)@.add(joined(plist.take(i as int), sep@)),
        decreases pairs.len() - i,
    {
        if i > 0 {
            push_word(out, sep);
        }
        let p = &pairs[i];
        push_assign(out, &p.0, &p.1);
        proof {
            assert(plist.take(i + 1 as int) =~= plist.take(i as int).push(plist[i as int]));
            lemma_joined_push(plist.take(i as int), sep@, plist[i as int]);
            assert(plist[i as int] == assign_pair(pairs@[i as int].0@, pairs@[i as int].1));
            assert(out@ =~= old(out)@.add(joined(plist.take(i + 1 as int), sep@)));
        }
        i += 1;
    }
    proof {
        assert(plist.take(plist.len() as int) =~= plist);
    }
}

/// Append the assignments of a column/value zip, separated by `sep`.
fn push_assign_zip(out: &mut Vec<char>, cols: &Vec<String>, vals: &Vec<Value>, sep: &str)
    requires
        cols@.len() == vals@.len(),
    ensures
        final(out)@ == old(out)@.add(joined(assign_zip(cols@, vals@), sep@)),
{
    let ghost plist = assign_zip(cols@, vals@);
    let mut i: usize = 0;
    while i < cols.len()
        invariant
            cols@.len() == vals@.len(),
            i <= cols@.len(),
            plist == assign_zip(cols@, vals@),
            out@ == old(out)@.add(joined(plist.take(i as int), sep@)),
        decreases cols.len() - i,
    {
        if i > 0 {
            push_word(out, sep);
        }
        push_assign(out, &cols[i], &vals[i]);
        proof {
            assert(plist.take(i + 1 as int) =~= plist.take(i as int).push(plist[i as int]));
            lemma_joined_push(plist.take(i as int), sep@, plist[i as int]);
            assert(out@ =~= old(out)@.add(joined(plist.take(i + 1 as int), sep@)));
        }
        i += 1;
    }
    proof {
        assert(plist.take(plist.len() as int) =~= plist);
    }
}

// ---------------------------------------------------------------------------
// Table references and statements
// ---------------------------------------------------------------------------

pub open spec fn is_sqlite_type(t: Seq<char>) -> bool {
    t == "sqlite"@ || t == "sqlite3"@
}

/// How a table is referred to: SQLite has no schemas, so the table stands
/// alone; every other backend uses `"schema"."table"`.
pub open spec fn table_ref_spec(db_type: Seq<char>, schema: Seq<char>, table: Seq<char>) -> Seq<
    char,
> {
    if is_sqlite_type(db_type) {
        quote_ident(table)
    } else {
        quote_ident(schema).add(seq!['.']).add(quote_ident(table))
    }
}

/// Do two strings hold the same characters?
pub fn str_eq(a: &str, b: &str) -> (r: bool)
    ensures
        r == (a@ == b@),
{
    let va = str_chars(a);
    let vb = str_chars(b);
    if va.len() != vb.len() {
        proof {
            assert(a@ != b@);
        }
        return false;
    }
    let mut i: usize = 0;
    while i < va.len()
        invariant
            va@ == a@,
            vb@ == b@,
            va@.len() == vb@.len(),
            i <= va@.len(),
            forall|k: int| 0 <= k < i ==> va@[k] == vb@[k],
        decreases va.len() - i,
    {
        if va[i] != vb[i] {
            return false;
        }
        i += 1;
    }
    proof {
        assert(a@ =~= b@);
    }
    true
}

/// Append the table reference for the given backend type.
fn push_table_ref(out: &mut Vec<char>, db_type: &str, schema: &str, table: &str)
    ensures
        final(out)@ == old(out)@.add(table_ref_spec(db_type@, schema@, table@)),
{
    if str_eq(db_type, "sqlite") || str_eq(db_type, "sqlite3") {
        push_quoted_ident(out, table);
    } else {
        push_quoted_ident(out, schema);
        out.push('.');
        push_quoted_ident(out, table);
        proof {
            assert(final(out)@ =~= old(out)@.add(table_ref_spec(db_type@, schema@, table@)));
        }
    }
}

/// The table reference for the given backend type.
pub fn build_table_ref(db_type: &str, schema: &str, table: &str) -> (r: String)
    ensures
        r@ == table_ref_spec(db_type@, schema@, table@),
{
    let mut out: Vec<char> = Vec::new();
    push_table_ref(&mut out, db_type, schema, table);
    chars_to_string(&out)
}

/// `UPDATE <table> SET <assignments> WHERE <pk assignments>`.
pub open spec fn update_stmt_spec(
    tref: Seq<char>,
    sets: Seq<Seq<char>>,
    wheres: Seq<Seq<char>>,
) -> Seq<char> {
    "UPDATE "@.add(tref).add(" SET "@).add(joined(sets, ", "@)).add(" WHERE "@).add(
        joined(wheres, " AND "@),
    )
}

/// `DELETE FROM <table> WHERE <pk assignments>`.
pub open spec fn delete_stmt_spec(tref: Seq<char>, wheres: Seq<Seq<char>>) -> Seq<char> {
    "DELETE FROM "@.add(tref).add(" WHERE "@).add(joined(wheres, " AND "@))
}

/// `INSERT INTO <table> (<columns>) VALUES (<literals>)`.
pub open spec fn insert_stmt_spec(
    tref: Seq<char>,
    cols: Seq<Seq<char>>,
    vals: Seq<Seq<char>>,
) -> Seq<char> {
    "INSERT INTO "@.add(tref).add(" ("@).add(joined(cols, ", "@)).add(") VALUES ("@).add(
        joined(vals, ", "@),
    ).add(seq![')'])
}

/// Is a mutation's primary-key selection usable: at least one column, and
/// as many values as columns?
pub open spec fn pk_arity_ok(cols: Seq<String>, vals: Seq<Value>) -> bool {
    cols.len() > 0 && cols.len() == vals.len()
}

/// Build an UPDATE statement for one row, selected by its primary key.
/// A mismatched or empty primary-key selection and an empty update list are
/// rejected before any SQL text is constructed.
pub fn build_update_statement(
    db_type: &str,
    schema: &str,
    table: &str,
    pk_cols: &Vec<String>,
    pk_vals: &Vec<Value>,
    updates: &Vec<(String, Value)>,
) -> (r: Result<String, String>)
    ensures
        r is Ok <==> (pk_arity_ok(pk_cols@, pk_vals@) && updates@.len() > 0),
        !pk_arity_ok(pk_cols@, pk_vals@) ==> r is Err && r->Err_0@
            == "Primary key columns and values must match"@,
        pk_arity_ok(pk_cols@, pk_vals@) && updates@.len() == 0 ==> r is Err && r->Err_0@
            == "No updates provided"@,
        r is Ok ==> r->Ok_0@ == update_stmt_spec(
            table_ref_spec(db_type@, schema@, table@),
            assign_pairs(updates@),
            assign_zip(pk_cols@, pk_vals@),
        ),
{
    if pk_cols.len() == 0 || pk_cols.len() != pk_vals.len() {
        return Err("Primary key columns and values must match".to_owned());
    }
    if updates.len() == 0 {
        return Err("No updates provided".to_owned());
    }
    let mut out: Vec<char> = Vec::new();
    push_word(&mut out, "UPDATE ");
    push_table_ref(&mut out, db_type, schema, table);
    push_word(&mut out, " SET ");
    push_assign_pairs(&mut out, updates, ", ");
    push_word(&mut out, " WHERE ");
    push_assign_zip(&mut out, pk_cols, pk_vals, " AND ");
    proof {
        assert(out@ =~= update_stmt_spec(
            table_ref_spec(db_type@, schema@, table@),
            assign_pairs(updates@),
            assign_zip(pk_cols@, pk_vals@),
        ));
    }
    Ok(chars_to_string(&out))
}

/// Build a DELETE statement for one row, selected by its primary key.
/// A mismatched or empty primary-key selection is rejected before any SQL
/// text is constructed.
pub fn build_delete_statement(
    db_type: &str,
    schema: &str,
    table: &str,
    pk_cols: &Vec<String>,
    pk_vals: &Vec<Value>,
) -> (r: Result<String, String>)
    ensures
        r is Ok <==> pk_arity_ok(pk_cols@, pk_vals@),
        !pk_arity_ok(pk_cols@, pk_vals@) ==> r is Err && r->Err_0@
            == "Primary key columns and values must match"@,
        r is Ok ==> r->Ok_0@ == delete_stmt_spec(
            table_ref_spec(db_type@, schema@, table@),
            assign_zip(pk_cols@, pk_vals@),
        ),
{
    if pk_cols.len() == 0 || pk_cols.len() != pk_vals.len() {
        return Err("Primary key columns and values must match".to_owned());
    }
    let mut out: Vec<char> = Vec::new();
    push_word(&mut out, "DELETE FROM ");
    push_table_ref(&mut out, db_type, schema, table);
    push_word(&mut out, " WHERE ");
    push_assign_zip(&mut out, pk_cols, pk_vals, " AND ");
    proof {
        assert(out@ =~= delete_stmt_spec(
            table_ref_spec(db_type@, schema@, table@),
            assign_zip(pk_cols@, pk_vals@),
        ));
    }
    Ok(chars_to_string(&out))
}

/// The quoted column names of an insert.
pub open spec fn quoted_cols(cols: Seq<String>) -> Seq<Seq<char>> {
    cols.map_values(|c: String| quote_ident(c@))
}

/// The literal texts of an insert's values.
pub open spec fn literal_vals(vals: Seq<Value>) -> Seq<Seq<char>> {
    vals.map_values(|v: Value| sql_literal(v))
}

/// Build an INSERT statement for one row. An empty column list and a
/// column/value count mismatch are rejected before any SQL text is
/// constructed.
pub fn build_insert_statement(
    db_type: &str,
    schema: &str,
    table: &str,
    cols: &Vec<String>,
    vals: &Vec<Value>,
) -> (r: Result<String, String>)
    ensures
        r is Ok <==> (cols@.len() > 0 && cols@.len() == vals@.len()),
        cols@.len() == 0 ==> r is Err && r->Err_0@ == "No columns provided"@,
        cols@.len() > 0 && cols@.len() != vals@.len() ==> r is Err && r->Err_0@
            == "Column and value counts must match"@,
        r is Ok ==> r->Ok_0@ == insert_stmt_spec(
            table_ref_spec(db_type@, schema@, table@),
            quoted_cols(cols@),
            literal_vals(vals@),
        ),
{
    if cols.len() == 0 {
        return Err("No columns provided".to_owned());
    }
    if cols.len() != vals.len() {
        return Err("Column and value counts must match".to_owned());
    }
    let mut out: Vec<char> = Vec::new();
    push_word(&mut out, "INSERT INTO ");
    push_table_ref(&mut out, db_type, schema, table);
    push_word(&mut out, " (");
    push_quoted_col_list(&mut out, cols, ", ");
    push_word(&mut out, ") VALUES (");
    push_literal_list(&mut out, vals, ", ");
    out.push(')');
    proof {
        assert(out@ =~= insert_stmt_spec(
            table_ref_spec(db_type@, schema@, table@),
            quoted_cols(cols@),
            literal_vals(vals@),
        ));
    }
    Ok(chars_to_string(&out))
}

/// Append the quoted column names, separated by `sep`.
fn push_quoted_col_list(out: &mut Vec<char>, cols: &Vec<String>, sep: &str)
    ensures
        final(out)@ == old(out)@.add(joined(quoted_cols(cols@), sep@)),
{
    let ghost plist = quoted_cols(cols@);
    let mut i: usize = 0;
    while i < cols.len()
        invariant
            i <= cols@.len(),
            plist == quoted_cols(cols@),
            out@ == old(out)@.add(joined(plist.take(i as int), sep@)),
        decreases cols.len() - i,
    {
        if i > 0 {
            push_word(out, sep);
        }
        push_quoted_ident(out, cols[i].as_str());
        proof {
            assert(plist.take(i + 1 as int) =~= plist.take(i as int).push(plist[i as int]));
            lemma_joined_push(plist.take(i as int), sep@, plist[i as int]);
            assert(out@ =~= old(out)@.add(joined(plist.take(i + 1 as int), sep@)));
        }
        i += 1;
    }
    proof {
        assert(plist.take(plist.len() as int) =~= plist);
    }
}

/// Append the literal texts of the values, separated by `sep`.
fn push_literal_list(out: &mut Vec<char>, vals: &Vec<Value>, sep: &str)
    ensures
        final(out)@ == old(out)@.add(joined(literal_vals(vals@), sep@)),
{
    let ghost plist = literal_vals(vals@);
    let mut i: usize = 0;
    while i < vals.len()
        invariant
            i <= vals@.len(),
            plist == literal_vals(vals@),
            out@ == old(out)@.add(joined(plist.take(i as int), sep@)),
        decreases vals.len() - i,
    {
        if i > 0 {
            push_word(out, sep);
        }
        push_sql_literal(out, &vals[i]);
        proof {
            assert(plist.take(i + 1 as int) =~= plist.take(i as int).push(plist[i as int]));
            lemma_joined_push(plist.take(i as int), sep@, plist[i as int]);
            assert(out@ =~= old(out)@.add(joined(plist.take(i + 1 as int), sep@)));
        }
        i += 1;
    }
    proof {
        assert(plist.take(plist.len() as int) =~= plist);
    }
}


// ---------------------------------------------------------------------------
// Raw-SQL allow-list
// ---------------------------------------------------------------------------

/// Why a raw-SQL fragment was rejected: it contained a known-dangerous
/// pattern, or it simply was not on the allow list.
pub enum RawSqlError {
    Dangerous(String),
    NotAllowed,
}

impl RawSqlError {
    /// A human-readable diagnostic for the rejection.
    pub fn message(&self) -> (r: String)
        ensures
            self is Dangerous ==> r@ == "Raw SQL rejected: dangerous pattern '"@.add(
                self->Dangerous_0@,
            ).add("' found"@),
            self is NotAllowed ==> r@ == "Raw SQL rejected: not in the allow list"@,
    {
        match self {
            RawSqlError::Dangerous(p) => {
                let mut out: Vec<char> = Vec::new();
                push_word(&mut out, "Raw SQL rejected: dangerous pattern '");
                push_word(&mut out, p.as_str());
                push_word(&mut out, "' found");
                chars_to_string(&out)
            },
            RawSqlError::NotAllowed => "Raw SQL rejected: not in the allow list".to_owned(),
        }
    }
}

/// Fragments accepted whatever their letter case.
pub open spec fn ci_allowed(s: Seq<char>) -> bool {
    let l = lower_seq(s);
    ||| l == "now()"@
    ||| l == "current_timestamp"@
    ||| l == "current_date"@
    ||| l == "current_time"@
    ||| l == "localtimestamp"@
    ||| l == "null"@
    ||| l == "true"@
    ||| l == "false"@
    ||| l == "default"@
    ||| l == "unixepoch()"@
    ||| l == "datetime('now')"@
}

/// Fragments accepted in exactly this spelling.
pub open spec fn cs_allowed(s: Seq<char>) -> bool {
    ||| s == "gen_random_uuid()"@
    ||| s == "uuid_generate_v4()"@
    ||| s == "uuid()"@
    ||| s == "generateUUIDv4()"@
    ||| s == "toDateTime(now())"@
}

/// A raw fragment is accepted only if it is on the allow list; nothing
/// outside it passes, dangerous-looking or not.
pub open spec fn is_allowed_raw(s: Seq<char>) -> bool {
    ci_allowed(s) || cs_allowed(s)
}

pub open spec fn n_dangerous() -> int {
    15
}

/// The dangerous patterns scanned for, in the order they are reported.
pub open spec fn dangerous_pattern(i: int) -> Seq<char> {
    if i == 0 {
        ";"@
    } else if i == 1 {
        "--"@
    } else if i == 2 {
        "/*"@
    } else if i == 3 {
        "*/"@
    } else if i == 4 {
        "drop"@
    } else if i == 5 {
        "delete"@
    } else if i == 6 {
        "truncate"@
    } else if i == 7 {
        "alter"@
    } else if i == 8 {
        "insert"@
    } else if i == 9 {
        "update"@
    } else if i == 10 {
        "grant"@
    } else if i == 11 {
        "revoke"@
    } else if i == 12 {
        "union"@
    } else if i == 13 {
        "exec"@
    } else if i == 14 {
        "create"@
    } else {
        Seq::<char>::empty()
    }
}

/// The first listed dangerous pattern occurring in `l`, from index `i` on;
/// `n_dangerous()` if none does.
pub open spec fn first_dangerous_from(l: Seq<char>, i: int) -> int
    decreases n_dangerous() - i when 0 <= i <= n_dangerous()
{
    if i >= n_dangerous() {
        n_dangerous()
    } else if contains_seq(l, dangerous_pattern(i)) {
        i
    } else {
        first_dangerous_from(l, i + 1)
    }
}

/// Does any listed dangerous pattern occur in `l`?
pub open spec fn has_dangerous(l: Seq<char>) -> bool {
    first_dangerous_from(l, 0) < n_dangerous()
}

fn dangerous_pattern_at(i: usize) -> (r: String)
    requires
        i < 15,
    ensures
        r@ == dangerous_pattern(i as int),
{
    if i == 0 {
        ";".to_owned()
    } else if i == 1 {
        "--".to_owned()
    } else if i == 2 {
        "/*".to_owned()
    } else if i == 3 {
        "*/".to_owned()
    } else if i == 4 {
        "drop".to_owned()
    } else if i == 5 {
        "delete".to_owned()
    } else if i == 6 {
        "truncate".to_owned()
    } else if i == 7 {
        "alter".to_owned()
    } else if i == 8 {
        "insert".to_owned()
    } else if i == 9 {
        "update".to_owned()
    } else if i == 10 {
        "grant".to_owned()
    } else if i == 11 {
        "revoke".to_owned()
    } else if i == 12 {
        "union".to_owned()
    } else if i == 13 {
        "exec".to_owned()
    } else {
        "create".to_owned()
    }
}

/// Accept a fragment marked as raw SQL only if it exactly matches an entry
/// of a fixed allow list of backend date/UUID/boolean/null functions;
/// otherwise reject it, naming the first dangerous pattern it contains if
/// it contains one.
pub fn validate_raw_sql(s: &str) -> (r: Result<(), RawSqlError>)
    ensures
        r is Ok <==> is_allowed_raw(s@),
        r is Err ==> ((r->Err_0 is Dangerous) <==> has_dangerous(lower_seq(s@))),
        r is Err && r->Err_0 is Dangerous ==> r->Err_0->Dangerous_0@ == dangerous_pattern(
            first_dangerous_from(lower_seq(s@), 0),
        ),
{
    let orig = str_chars(s);
    let low = lower_chars(&orig);
    let ci = chars_eq_str(&low, "now()") || chars_eq_str(&low, "current_timestamp")
        || chars_eq_str(&low, "current_date") || chars_eq_str(&low, "current_time")
        || chars_eq_str(&low, "localtimestamp") || chars_eq_str(&low, "null") || chars_eq_str(
        &low,
        "true",
    ) || chars_eq_str(&low, "false") || chars_eq_str(&low, "default") || chars_eq_str(
        &low,
        "unixepoch()",
    ) || chars_eq_str(&low, "datetime('now')");
    if ci {
        return Ok(());
    }
    let cs = chars_eq_str(&orig, "gen_random_uuid()") || chars_eq_str(&orig, "uuid_generate_v4()")
        || chars_eq_str(&orig, "uuid()") || chars_eq_str(&orig, "generateUUIDv4()")
        || chars_eq_str(&orig, "toDateTime(now())");
    if cs {
        return Ok(());
    }
    let mut i: usize = 0;
    while i < 15
        invariant
            low@ == lower_seq(s@),
            !is_allowed_raw(s@),
            i <= 15,
            first_dangerous_from(low@, 0) == first_dangerous_from(low@, i as int),
        decreases 15 - i,
    {
        let pat = dangerous_pattern_at(i);
        let pv = str_chars(pat.as_str());
        if contains_chars(&low, &pv) {
            proof {
                assert(first_dangerous_from(low@, i as int) == i);
            }
            return Err(RawSqlError::Dangerous(pat));
        }
        i += 1;
    }
    proof {
        assert(first_dangerous_from(low@, 15) == n_dangerous());
    }
    Err(RawSqlError::NotAllowed)
}

} // verus!
