//! The universal row value: every backend's native rows are converted into
//! this one tagged shape so that a single consumer can render all of them.
//!
//! A number is carried as its decimal text, exactly as the backend rendered
//! it; the SQL literal formatter inlines that text unchanged, so the text is
//! required to look like a number (`wf`). Arrays and objects serialize to
//! their JSON text form, which is defined here as well.

use vstd::prelude::*;

use crate::text::dec_int;
use crate::text::dec_str;
use crate::text::digit_char;
use crate::text::expand;
use crate::text::i64_string;
use crate::text::is_digit;
use crate::text::lemma_expand_push;
use crate::text::push_word;
use crate::text::str_chars;
use crate::text::chars_to_string;

verus! {

/// A universal tagged value: the output shape of every read operation.
pub enum Value {
    Null,
    Bool(bool),
    Number(String),
    Str(String),
    Array(Vec<Value>),
    Object(Vec<(String, Value)>),
}

pub open spec fn is_number_char(c: char) -> bool {
    is_digit(c) || c == '-' || c == '+' || c == '.' || c == 'e' || c == 'E'
}

/// What a `Number`'s text may hold: non-empty, digits and numeric
/// punctuation only. This keeps an inlined number from smuggling quotes
/// or spaces into a statement.
pub open spec fn is_number_text(s: Seq<char>) -> bool {
    s.len() > 0 && forall|i: int| 0 <= i < s.len() ==> is_number_char(#[trigger] s[i])
}

impl Value {
    /// Every `Number` in the tree carries plausible numeric text.
    pub open spec fn wf(self) -> bool
        decreases self,
    {
        match self {
            Value::Null => true,
            Value::Bool(_) => true,
            Value::Number(t) => is_number_text(t@),
            Value::Str(_) => true,
            Value::Array(a) => forall|i: int| 0 <= i < a@.len() ==> #[trigger] a@[i].wf(),
            Value::Object(o) => forall|i: int| 0 <= i < o@.len() ==> #[trigger] o@[i].1.wf(),
        }
    }

    /// A numeric value from a signed integer.
    pub fn integer(n: i64) -> (r: Value)
        ensures
            r == Value::Number(r.arrow_Number_0()),
            r.arrow_Number_0()@ == dec_int(n as int),
            r.wf(),
    {
        let t = i64_string(n);
        proof {
            let mag: nat = if n >= 0 {
                n as nat
            } else {
                (-(n as int)) as nat
            };
            lemma_dec_str_numeric(mag);
        }
        Value::Number(t)
    }
}

proof fn lemma_dec_str_numeric(n: nat)
    ensures
        dec_str(n).len() > 0,
        forall|i: int| 0 <= i < dec_str(n).len() ==> is_number_char(#[trigger] dec_str(n)[i]),
    decreases n,
{
    if n < 10 {
        assert(dec_str(n) == seq![digit_char(n as int)]);
        assert(is_digit(digit_char(n as int)));
    } else {
        lemma_dec_str_numeric(n / 10);
        assert(dec_str(n) == dec_str(n / 10).push(digit_char((n % 10) as int)));
        assert(is_digit(digit_char((n % 10) as int)));
        assert(forall|i: int|
            0 <= i < dec_str(n).len() - 1 ==> #[trigger] dec_str(n)[i] == dec_str(n / 10)[i]);
    }
}

/// An executable check of `is_number_text`, for callers that receive the
/// numeric text from outside and must validate it before building a value.
pub fn check_number_text(s: &str) -> (r: bool)
    ensures
        r == is_number_text(s@),
{
    let v = str_chars(s);
    if v.len() == 0 {
        return false;
    }
    let mut i: usize = 0;
    while i < v.len()
        invariant
            v@ == s@,
            i <= v@.len(),
            forall|k: int| 0 <= k < i ==> is_number_char(#[trigger] v@[k]),
        decreases v.len() - i,
    {
        let c = v[i];
        let ok = ('0' <= c && c <= '9') || c == '-' || c == '+' || c == '.' || c == 'e' || c
            == 'E';
        if !ok {
            return false;
        }
        i += 1;
    }
    true
}

// ---------------------------------------------------------------------------
// JSON text form
// ---------------------------------------------------------------------------

pub open spec fn hex_digit_char(d: int) -> char {
    if d < 10 {
        digit_char(d)
    } else {
        ((('a' as u8) + (d - 10) as u8) as char)
    }
}

/// How one character appears inside a JSON string literal.
pub open spec fn json_escape_char(c: char) -> Seq<char> {
    if c == '"' {
        seq!['\\', '"']
    } else if c == '\\' {
        seq!['\\', '\\']
    } else if c == '\u{8}' {
        seq!['\\', 'b']
    } else if c == '\t' {
        seq!['\\', 't']
    } else if c == '\n' {
        seq!['\\', 'n']
    } else if c == '\u{c}' {
        seq!['\\', 'f']
    } else if c == '\r' {
        seq!['\\', 'r']
    } else if (c as u32) < 32 {
        seq!['\\', 'u', '0', '0', hex_digit_char(c as int / 16), hex_digit_char(c as int % 16)]
    } else {
        seq![c]
    }
}

/// A JSON string literal: quoted, with the escapes above.
pub open spec fn json_string(s: Seq<char>) -> Seq<char> {
    seq!['"'].add(expand(s, |c: char| json_escape_char(c))).add(seq!['"'])
}

/// The JSON text of a value.
pub open spec fn json_of(v: Value) -> Seq<char>
    decreases v, 1int,
{
    match v {
        Value::Null => "null"@,
        Value::Bool(b) => if b {
            "true"@
        } else {
            "false"@
        },
        Value::Number(t) => t@,
        Value::Str(s) => json_string(s@),
        Value::Array(a) => seq!['['].add(json_items(a@)).add(seq![']']),
        Value::Object(o) => seq!['{'].add(json_entries(o@)).add(seq!['}']),
    }
}

/// Comma-separated JSON texts of the items.
pub open spec fn json_items(items: Seq<Value>) -> Seq<char>
    decreases items, 0int,
{
    if items.len() == 0 {
        Seq::<char>::empty()
    } else if items.len() == 1 {
        json_of(items[0])
    } else {
        json_of(items[0]).add(seq![',']).add(json_items(items.drop_first()))
    }
}

/// Comma-separated `"key":value` texts of the entries.
pub open spec fn json_entries(entries: Seq<(String, Value)>) -> Seq<char>
    decreases entries, 0int,
{
    if entries.len() == 0 {
        Seq::<char>::empty()
    } else if entries.len() == 1 {
        json_entry(entries[0])
    } else {
        json_entry(entries[0]).add(seq![',']).add(json_entries(entries.drop_first()))
    }
}

pub open spec fn json_entry(e: (String, Value)) -> Seq<char>
    decreases e,
{
    json_string(e.0@).add(seq![':']).add(json_of(e.1))
}

pub proof fn lemma_json_items_push(items: Seq<Value>, x: Value)
    ensures
        json_items(items.push(x)) == if items.len() == 0 {
            json_of(x)
        } else {
            json_items(items).add(seq![',']).add(json_of(x))
        },
    decreases items.len(),
{
    if items.len() == 0 {
        assert(items.push(x).len() == 1);
        assert(items.push(x)[0] == x);
    } else if items.len() == 1 {
        assert(items.push(x)[0] == items[0]);
        assert(items.push(x).drop_first() =~= seq![x]);
        assert(json_items(seq![x]) == json_of(x));
        assert(json_items(items.push(x)) =~= json_items(items).add(seq![',']).add(json_of(x)));
    } else {
        assert(items.push(x)[0] == items[0]);
        assert(items.push(x).drop_first() =~= items.drop_first().push(x));
        lemma_json_items_push(items.drop_first(), x);
        assert(json_items(items.push(x)) =~= json_items(items).add(seq![',']).add(json_of(x)));
    }
}

pub proof fn lemma_json_entries_push(entries: Seq<(String, Value)>, x: (String, Value))
    ensures
        json_entries(entries.push(x)) == if entries.len() == 0 {
            json_entry(x)
        } else {
            json_entries(entries).add(seq![',']).add(json_entry(x))
        },
    decreases entries.len(),
{
    if entries.len() == 0 {
        assert(entries.push(x).len() == 1);
        assert(entries.push(x)[0] == x);
    } else if entries.len() == 1 {
        assert(entries.push(x)[0] == entries[0]);
        assert(entries.push(x).drop_first() =~= seq![x]);
        assert(json_entries(seq![x]) == json_entry(x));
        assert(json_entries(entries.push(x)) =~= json_entries(entries).add(seq![',']).add(
            json_entry(x),
        ));
    } else {
        assert(entries.push(x)[0] == entries[0]);
        assert(entries.push(x).drop_first() =~= entries.drop_first().push(x));
        lemma_json_entries_push(entries.drop_first(), x);
        assert(json_entries(entries.push(x)) =~= json_entries(entries).add(seq![',']).add(
            json_entry(x),
        ));
    }
}

/// Append the JSON escape of one character.
fn push_escaped(out: &mut Vec<char>, c: char)
    ensures
        final(out)@ == old(out)@.add(json_escape_char(c)),
{
    if c == '"' {
        out.push('\\');
        out.push('"');
    } else if c == '\\' {
        out.push('\\');
        out.push('\\');
    } else if c == '\u{8}' {
        out.push('\\');
        out.push('b');
    } else if c == '\t' {
        out.push('\\');
        out.push('t');
    } else if c == '\n' {
        out.push('\\');
        out.push('n');
    } else if c == '\u{c}' {
        out.push('\\');
        out.push('f');
    } else if c == '\r' {
        out.push('\\');
        out.push('r');
    } else if (c as u32) < 32 {
        out.push('\\');
        out.push('u');
        out.push('0');
        out.push('0');
        let hi = (c as u32) / 16;
        let lo = (c as u32) % 16;
        let hc = if hi < 10 {
            (48 + hi as u8) as char
        } else {
            (87 + hi as u8) as char
        };
        let lc = if lo < 10 {
            (48 + lo as u8) as char
        } else {
            (87 + lo as u8) as char
        };
        out.push(hc);
        out.push(lc);
        proof {
            assert(hc == hex_digit_char(c as int / 16));
            assert(lc == hex_digit_char(c as int % 16));
            assert(out@ =~= old(out)@.add(json_escape_char(c)));
        }
    } else {
        out.push(c);
    }
    proof {
        assert(out@ =~= old(out)@.add(json_escape_char(c)));
    }
}

/// Append a JSON string literal for `s`.
fn push_json_string(out: &mut Vec<char>, s: &str)
    ensures
        final(out)@ == old(out)@.add(json_string(s@)),
{
    let v = str_chars(s);
    out.push('"');
    let ghost base = out@;
    let mut i: usize = 0;
    while i < v.len()
        invariant
            v@ == s@,
            i <= v@.len(),
            out@ == base.add(expand(v@.take(i as int), |c: char| json_escape_char(c))),
        decreases v.len() - i,
    {
        let c = v[i];
        push_escaped(out, c);
        proof {
            assert(v@.take(i + 1 as int) =~= v@.take(i as int).push(v@[i as int]));
            lemma_expand_push(v@.take(i as int), |cc: char| json_escape_char(cc), v@[i as int]);
            assert(out@ =~= base.add(
                expand(v@.take(i + 1 as int), |cc: char| json_escape_char(cc)),
            ));
        }
        i += 1;
    }
    out.push('"');
    proof {
        assert(v@.take(v@.len() as int) =~= v@);
        assert(out@ =~= old(out)@.add(json_string(s@)));
    }
}

/// Append the JSON text of `v`.
fn push_json(out: &mut Vec<char>, v: &Value)
    ensures
        final(out)@ == old(out)@.add(json_of(*v)),
    decreases *v,
{
    match v {
        Value::Null => {
            push_word(out, "null");
        },
        Value::Bool(b) => {
            if *b {
                push_word(out, "true");
            } else {
                push_word(out, "false");
            }
        },
        Value::Number(t) => {
            push_word(out, t.as_str());
        },
        Value::Str(s) => {
            push_json_string(out, s.as_str());
        },
        Value::Array(a) => {
            out.push('[');
            let ghost base = out@;
            let mut i: usize = 0;
            while i < a.len()
                invariant
                    *v == Value::Array(*a),
                    i <= a@.len(),
                    out@ == base.add(json_items(a@.take(i as int))),
                decreases a@.len() - i,
            {
                if i > 0 {
                    out.push(',');
                }
                proof {
                    broadcast use vstd::std_specs::vec::group_vec_axioms;
                    broadcast use vstd::seq::group_seq_axioms;

                    assert((*v)->Array_0 == *a);
                    assert(decreases_to!(*v => (*v)->Array_0));
                    assert(decreases_to!(*a => a@));
                    assert(decreases_to!(a@ => a@[i as int]));
                    assert(decreases_to!(*v => a@[i as int]));
                }
                push_json(out, &a[i]);
                proof {
                    assert(a@.take(i + 1 as int) =~= a@.take(i as int).push(a@[i as int]));
                    lemma_json_items_push(a@.take(i as int), a@[i as int]);
                    assert(out@ =~= base.add(json_items(a@.take(i + 1 as int))));
                }
                i += 1;
            }
            out.push(']');
            proof {
                assert(a@.take(a@.len() as int) =~= a@);
                assert(out@ =~= old(out)@.add(json_of(*v)));
            }
        },
        Value::Object(o) => {
            out.push('{');
            let ghost base = out@;
            let mut i: usize = 0;
            while i < o.len()
                invariant
                    *v == Value::Object(*o),
                    i <= o@.len(),
                    out@ == base.add(json_entries(o@.take(i as int))),
                decreases o@.len() - i,
            {
                if i > 0 {
                    out.push(',');
                }
                let entry = &o[i];
                push_json_string(out, entry.0.as_str());
                out.push(':');
                proof {
                    broadcast use vstd::std_specs::vec::group_vec_axioms;
                    broadcast use vstd::seq::group_seq_axioms;

                    assert((*v)->Object_0 == *o);
                    assert(decreases_to!(*v => (*v)->Object_0));
                    assert(decreases_to!(*o => o@));
                    assert(decreases_to!(o@ => o@[i as int]));
                    assert(decreases_to!(o@[i as int] => o@[i as int].1));
                    assert(decreases_to!(*v => o@[i as int].1));
                }
                push_json(out, &entry.1);
                proof {
                    assert(o@.take(i + 1 as int) =~= o@.take(i as int).push(o@[i as int]));
                    lemma_json_entries_push(o@.take(i as int), o@[i as int]);
                    assert(out@ =~= base.add(json_entries(o@.take(i + 1 as int))));
                }
                i += 1;
            }
            out.push('}');
            proof {
                assert(o@.take(o@.len() as int) =~= o@);
                assert(out@ =~= old(out)@.add(json_of(*v)));
            }
        },
    }
}

/// The JSON text of a value, as the mutation builder inlines it.
pub fn render_json(v: &Value) -> (r: String)
    ensures
        r@ == json_of(*v),
{
    let mut out: Vec<char> = Vec::new();
    push_json(&mut out, v);
    chars_to_string(&out)
}

} // verus!
