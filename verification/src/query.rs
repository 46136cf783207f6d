//! Query-text pieces shared by the backends: filter normalization and the
//! paginated SELECT/COUNT statements built from it.
//!
//! A filter is a raw backend-native boolean expression appended to a WHERE
//! clause; before use, smart/curly quotes are normalized to ASCII (operating
//! systems like to auto-correct straight quotes) and a backslash-escaped
//! single quote becomes a plain one.

use vstd::prelude::*;

use crate::text::chars_to_string;
use crate::text::dec_int;
use crate::text::i64_string;
use crate::text::push_word;
use crate::text::str_chars;

verus! {

// ---------------------------------------------------------------------------
// Filter normalization
// ---------------------------------------------------------------------------

/// Smart quotes become their ASCII counterparts.
pub open spec fn map_quote(c: char) -> char {
    if c == '\u{2018}' || c == '\u{2019}' {
        '\''
    } else if c == '\u{201C}' || c == '\u{201D}' {
        '"'
    } else {
        c
    }
}

pub open spec fn mapped_quotes(s: Seq<char>) -> Seq<char> {
    s.map_values(|c: char| map_quote(c))
}

/// A left-to-right scan replacing `\'` by `'`.
pub open spec fn unescape_quotes(s: Seq<char>) -> Seq<char>
    decreases s.len(),
{
    if s.len() >= 2 && s[0] == '\\' && s[1] == '\'' {
        seq!['\''].add(unescape_quotes(s.skip(2)))
    } else if s.len() >= 1 {
        seq![s[0]].add(unescape_quotes(s.skip(1)))
    } else {
        Seq::<char>::empty()
    }
}

/// The normalized form of a filter expression.
pub open spec fn normalized_filter(s: Seq<char>) -> Seq<char> {
    unescape_quotes(mapped_quotes(s))
}

/// Normalize smart/curly quotes to ASCII and unescape `\'`.
pub fn normalize_filter(f: &str) -> (r: String)
    ensures
        r@ == normalized_filter(f@),
{
    let v = str_chars(f);
    let mut m: Vec<char> = Vec::new();
    let mut i: usize = 0;
    while i < v.len()
        invariant
            v@ == f@,
            i <= v@.len(),
            m@ == mapped_quotes(v@.take(i as int)),
        decreases v.len() - i,
    {
        let c = v[i];
        let mc = if c == '\u{2018}' || c == '\u{2019}' {
            '\''
        } else if c == '\u{201C}' || c == '\u{201D}' {
            '"'
        } else {
            c
        };
        m.push(mc);
        proof {
            assert(v@.take(i + 1 as int) =~= v@.take(i as int).push(v@[i as int]));
            assert(mapped_quotes(v@.take(i + 1 as int)) =~= mapped_quotes(
                v@.take(i as int),
            ).push(map_quote(v@[i as int])));
        }
        i += 1;
    }
    proof {
        assert(v@.take(v@.len() as int) =~= v@);
    }
    let mut out: Vec<char> = Vec::new();
    proof {
        assert(m@.skip(0) =~= m@);
        assert(Seq::<char>::empty().add(unescape_quotes(m@)) =~= unescape_quotes(m@));
    }
    let mut j: usize = 0;
    while j < m.len()
        invariant
            m@ == mapped_quotes(f@),
            j <= m@.len(),
            unescape_quotes(m@) == out@.add(unescape_quotes(m@.skip(j as int))),
        decreases m.len() - j,
    {
        proof {
            assert(m@.skip(j as int)[0] == m@[j as int]);
            if j + 1 < m@.len() {
                assert(m@.skip(j as int)[1] == m@[j + 1 as int]);
            }
        }
        if m[j] == '\\' && j + 1 < m.len() && m[j + 1] == '\'' {
            out.push('\'');
            proof {
                assert(m@.skip(j as int).skip(2) =~= m@.skip(j + 2 as int));
                assert(unescape_quotes(m@.skip(j as int)) == seq!['\''].add(
                    unescape_quotes(m@.skip(j + 2 as int)),
                ));
                assert(unescape_quotes(m@) =~= out@.add(unescape_quotes(m@.skip(j + 2 as int))));
            }
            j += 2;
        } else {
            out.push(m[j]);
            proof {
                assert(m@.skip(j as int).skip(1) =~= m@.skip(j + 1 as int));
                assert(unescape_quotes(m@.skip(j as int)) == seq![m@[j as int]].add(
                    unescape_quotes(m@.skip(j + 1 as int)),
                ));
                assert(unescape_quotes(m@) =~= out@.add(unescape_quotes(m@.skip(j + 1 as int))));
            }
            j += 1;
        }
    }
    proof {
        assert(m@.skip(m@.len() as int) =~= Seq::<char>::empty());
    }
    chars_to_string(&out)
}

// ---------------------------------------------------------------------------
// WHERE clause and paginated queries
// ---------------------------------------------------------------------------

/// The WHERE clause appended for an optional filter: empty when there is
/// none, otherwise ` WHERE ` followed by the normalized filter.
pub open spec fn where_clause_spec(f: Option<Seq<char>>) -> Seq<char> {
    match f {
        Option::None => Seq::<char>::empty(),
        Option::Some(s) => " WHERE "@.add(normalized_filter(s)),
    }
}

/// Build the WHERE clause for an optional filter.
pub fn build_where_clause(filter: &Option<String>) -> (r: String)
    ensures
        filter is Some ==> r@ == where_clause_spec(Some(filter->0@)),
        filter is None ==> r@ == where_clause_spec(None),
{
    match filter {
        Option::Some(f) => {
            let mut out: Vec<char> = Vec::new();
            push_word(&mut out, " WHERE ");
            let n = normalize_filter(f.as_str());
            push_word(&mut out, n.as_str());
            chars_to_string(&out)
        },
        Option::None => String::new(),
    }
}

/// `SELECT COUNT(*) as count FROM <table><where>`: the full count a page
/// request reports, ignoring pagination.
pub open spec fn count_query_spec(tref: Seq<char>, wc: Seq<char>) -> Seq<char> {
    "SELECT COUNT(*) as count FROM "@.add(tref).add(wc)
}

/// Build the row-count query.
pub fn build_count_query(table_ref: &str, where_clause: &str) -> (r: String)
    ensures
        r@ == count_query_spec(table_ref@, where_clause@),
{
    let mut out: Vec<char> = Vec::new();
    push_word(&mut out, "SELECT COUNT(*) as count FROM ");
    push_word(&mut out, table_ref);
    push_word(&mut out, where_clause);
    chars_to_string(&out)
}

/// `SELECT * FROM <table><where> LIMIT <limit> OFFSET <offset>`.
pub open spec fn select_query_spec(
    tref: Seq<char>,
    wc: Seq<char>,
    limit: int,
    offset: int,
) -> Seq<char> {
    "SELECT * FROM "@.add(tref).add(wc).add(" LIMIT "@).add(dec_int(limit)).add(
        " OFFSET "@,
    ).add(dec_int(offset))
}

/// Build the page-data query.
pub fn build_select_query(table_ref: &str, where_clause: &str, limit: i64, offset: i64) -> (r:
    String)
    ensures
        r@ == select_query_spec(table_ref@, where_clause@, limit as int, offset as int),
{
    let mut out: Vec<char> = Vec::new();
    push_word(&mut out, "SELECT * FROM ");
    push_word(&mut out, table_ref);
    push_word(&mut out, where_clause);
    push_word(&mut out, " LIMIT ");
    let l = i64_string(limit);
    push_word(&mut out, l.as_str());
    push_word(&mut out, " OFFSET ");
    let o = i64_string(offset);
    push_word(&mut out, o.as_str());
    chars_to_string(&out)
}

/// The offset of a 1-indexed page: `(page - 1) * limit`, or `None` when the
/// page is not positive, the limit is negative, or the product does not fit.
pub fn page_offset(page: i64, limit: i64) -> (r: Option<i64>)
    ensures
        r is Some <==> (page >= 1 && limit >= 0 && (page - 1) * limit <= i64::MAX),
        r is Some ==> r->0 == (page - 1) * limit,
{
    if page < 1 || limit < 0 {
        return None;
    }
    let a: i128 = page as i128 - 1;
    let b: i128 = limit as i128;
    proof {
        assert(0 <= a * b <= 0x8000000000000000i128 * 0x8000000000000000i128) by (nonlinear_arith)
            requires
                0 <= a <= 0x8000000000000000i128,
                0 <= b <= 0x8000000000000000i128,
        ;
    }
    let w: i128 = a * b;
    if w > i64::MAX as i128 {
        return None;
    }
    Some(w as i64)
}

} // verus!
